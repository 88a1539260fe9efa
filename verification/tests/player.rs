use mpd_tui::app::{frame_pause, App};
use mpd_tui::model::{
    Command, Followup, InputEvent, Key, KeyEvent, KeyKind, PlayState, QueuePlace, Song, Status,
    CONTROL,
};
use mpd_tui::player::{event_handler, handle_key_press, AppData};
use mpd_tui::time::Span;

fn place(pos: u32) -> QueuePlace {
    QueuePlace { id: pos + 100, pos, prio: 0 }
}

fn song(pos: u32, artist: Option<&str>, title: Option<&str>, secs: u64) -> Song {
    Song {
        file: format!("music/{}.flac", pos),
        title: title.map(String::from),
        artist: artist.map(String::from),
        duration: Some(Span::from_secs(secs)),
        place: Some(place(pos)),
    }
}

fn queue_of(n: u32) -> Vec<Song> {
    (0..n).map(|i| song(i, Some("Artist"), Some("Title"), 180)).collect()
}

fn status(state: PlayState, current: Option<u32>, len: u32) -> Status {
    Status {
        volume: 50,
        queue_version: 7,
        queue_len: len,
        state,
        song: current.map(place),
        time: current.map(|_| (Span::from_secs(10), Span::from_secs(12))),
        duration: current.map(|_| Span::from_secs(200)),
    }
}

fn key(c: Key) -> KeyEvent {
    KeyEvent { code: c, modifiers: 0, kind: KeyKind::Press }
}

fn player(state: PlayState, current: Option<u32>, len: u32) -> App<AppData> {
    let data = AppData::new(status(state, current, len), queue_of(len), 40, Span::from_secs(100));
    App::new(data, (80, 40))
}

#[test]
fn new_places_current_song_in_view() {
    let d = AppData::new(status(PlayState::Play, Some(20), 30), queue_of(30), 40, Span::zero());
    assert_eq!(d.queue_view_size, 23);
    assert_eq!(d.index, 11);
    assert_eq!(d.last_elapsed_time, Span::from_secs(10));
    assert!(d.redraw_screen);
    let d = AppData::new(status(PlayState::Stop, None, 30), queue_of(30), 40, Span::zero());
    assert_eq!(d.index, 0);
    let d = AppData::new(status(PlayState::Play, Some(5), 30), queue_of(30), 10, Span::zero());
    assert_eq!(d.queue_view_size, 0);
    assert_eq!(d.index, 5);
}

#[test]
fn set_volume_clamps() {
    let mut app = player(PlayState::Play, Some(1), 3);
    assert_eq!(app.data.set_volume(120), 100);
    assert_eq!(app.data.volume, 100);
    assert!(app.data.redraw_volume_bar);
    assert_eq!(app.data.set_volume(-3), 0);
    assert_eq!(app.data.set_volume(42), 42);
    app.data.volume = 3;
    assert_eq!(app.data.change_volume(-5), 0);
    app.data.volume = -1;
    assert_eq!(app.data.change_volume(5), 4);
}

#[test]
fn volume_law_resending_changes_nothing() {
    let mut app = player(PlayState::Play, Some(1), 3);
    let sent = app.data.set_volume(127);
    let kept = app.data.volume;
    assert_eq!(app.data.set_volume(sent), kept);
    assert!(app.data.volume >= 0 && app.data.volume <= 100);
}

#[test]
fn scroll_stays_within_queue() {
    let mut app = player(PlayState::Play, None, 10);
    app.data.scroll(-1);
    assert_eq!(app.data.index, 0);
    app.data.scroll(5);
    assert_eq!(app.data.index, 5);
    app.data.scroll(20);
    assert_eq!(app.data.index, 10);
    assert!(app.data.redraw_queue);
}

#[test]
fn scroll_back_returns() {
    let mut app = player(PlayState::Play, None, 10);
    app.data.index = 4;
    app.data.scroll(3);
    app.data.scroll(-3);
    assert_eq!(app.data.index, 4);
}

#[test]
fn focus_shows_the_song() {
    let mut app = player(PlayState::Play, None, 100);
    app.data.queue_view_size = 20;
    app.data.focus(30);
    assert_eq!(app.data.index, 22);
    assert!(app.data.index <= 30 && 30 < app.data.index + 20);
    app.data.focus(3);
    assert_eq!(app.data.index, 0);
}

#[test]
fn fetch_status_records_and_reports_queue_change() {
    let mut app = player(PlayState::Play, Some(1), 3);
    app.data.redraw_volume_bar = false;
    let mut st = status(PlayState::Pause, Some(2), 3);
    st.volume = 80;
    assert!(!app.data.fetch_status(st, Span::from_secs(200)));
    assert_eq!(app.data.volume, 80);
    assert!(app.data.redraw_volume_bar);
    assert!(app.data.redraw_status_line);
    assert_eq!(app.data.last_status_update, Span::from_secs(200));
    st.queue_version = 8;
    assert!(app.data.fetch_status(st, Span::from_secs(201)));
}

#[test]
fn fetch_queue_keeps_view_in_queue() {
    let mut app = player(PlayState::Play, None, 30);
    app.data.index = 25;
    app.data.fetch_queue(queue_of(10));
    assert_eq!(app.data.index, 9);
    app.data.fetch_queue(Vec::new());
    assert_eq!(app.data.index, 0);
    app.data.index = 3;
    app.data.fetch_queue(queue_of(10));
    assert_eq!(app.data.index, 3);
    app.data.fetch_done();
    assert!(!app.data.refresh_mpd);
}

#[test]
fn elapsed_is_capped_by_length_while_playing() {
    let app = player(PlayState::Play, Some(1), 3);
    assert_eq!(app.data.compute_elapsed(Span::from_secs(101)), Span::from_secs(11));
    assert_eq!(app.data.compute_elapsed(Span::from_secs(105)), Span::from_secs(12));
    assert_eq!(app.data.get_total(), Span::from_secs(12));
    let paused = player(PlayState::Pause, Some(1), 3);
    assert_eq!(paused.data.compute_elapsed(Span::from_secs(105)), Span::from_secs(10));
}

#[test]
fn song_ends_and_stays_ended() {
    let app = player(PlayState::Play, Some(1), 3);
    assert!(!app.data.is_song_ended(Span::from_secs(101)));
    assert!(app.data.is_song_ended(Span::from_secs(102)));
    assert!(app.data.is_song_ended(Span::from_secs(500)));
    let paused = player(PlayState::Pause, Some(1), 3);
    assert!(!paused.data.is_song_ended(Span::from_secs(500)));
    let unknown = App::new(
        AppData::new(
            Status { time: None, ..status(PlayState::Play, Some(1), 3) },
            queue_of(3),
            40,
            Span::zero(),
        ),
        (80, 40),
    );
    assert!(!unknown.data.is_song_ended(Span::from_secs(500)));
}

#[test]
fn refresh_is_due_after_interval_or_end() {
    let mut app = player(PlayState::Pause, Some(1), 3);
    assert!(!app.data.needs_refresh(Span::from_secs(104)));
    assert!(app.data.needs_refresh(Span::from_secs(106)));
    assert!(app.data.refresh_mpd);
    let mut playing = player(PlayState::Play, Some(1), 3);
    assert!(playing.data.needs_refresh(Span::from_secs(102)));
}

#[test]
fn quit_keys_exit() {
    let mut app = player(PlayState::Play, Some(1), 3);
    let plan = handle_key_press(&mut app, key(Key::Char('q')), Span::from_secs(100));
    assert!(plan.commands.is_empty());
    assert!(app.should_exit());
}

#[test]
fn space_plays_or_toggles() {
    let mut stopped = player(PlayState::Stop, None, 3);
    let plan = handle_key_press(&mut stopped, key(Key::Char(' ')), Span::from_secs(100));
    assert_eq!(plan.commands, vec![Command::Play]);
    assert_eq!(plan.followup, Followup::Refresh);
    let mut playing = player(PlayState::Play, Some(1), 3);
    let plan = handle_key_press(&mut playing, key(Key::Char(' ')), Span::from_secs(100));
    assert_eq!(plan.commands, vec![Command::TogglePause]);
    playing.data.commands_done(plan.followup, Span::from_secs(100));
    assert!(playing.data.refresh_mpd);
}

#[test]
fn volume_keys_step_by_five() {
    let mut app = player(PlayState::Play, Some(1), 3);
    let plan = handle_key_press(&mut app, key(Key::Char('+')), Span::from_secs(100));
    assert_eq!(plan.commands, vec![Command::SetVolume(55)]);
    let plan = handle_key_press(&mut app, key(Key::Char('_')), Span::from_secs(100));
    assert_eq!(plan.commands, vec![Command::SetVolume(50)]);
    assert_eq!(app.data.volume, 50);
}

#[test]
fn skip_keys() {
    let mut empty = player(PlayState::Stop, None, 0);
    let plan = handle_key_press(&mut empty, key(Key::Char('n')), Span::from_secs(100));
    assert!(plan.commands.is_empty());
    let mut stopped = player(PlayState::Stop, None, 3);
    let plan = handle_key_press(&mut stopped, key(Key::Char('N')), Span::from_secs(100));
    assert_eq!(plan.commands, vec![Command::Play, Command::Next]);
    let mut playing = player(PlayState::Play, Some(1), 3);
    let plan = handle_key_press(&mut playing, key(Key::Char('b')), Span::from_secs(100));
    assert_eq!(plan.commands, vec![Command::Prev]);
    assert_eq!(plan.followup, Followup::Refresh);
}

#[test]
fn digit_keys_seek_to_tenths() {
    let mut app = player(PlayState::Play, Some(1), 3);
    let plan = handle_key_press(&mut app, key(Key::Char('5')), Span::from_secs(100));
    assert_eq!(plan.commands, vec![Command::Seek(Span::from_secs(100))]);
    assert_eq!(plan.followup, Followup::Seeked(Span::from_secs(100)));
    let plan = handle_key_press(&mut app, key(Key::Char('0')), Span::from_secs(100));
    assert_eq!(plan.commands, vec![Command::Seek(Span::zero())]);
    app.data.commands_done(Followup::Seeked(Span::from_secs(30)), Span::from_secs(120));
    assert_eq!(app.data.last_elapsed_time, Span::from_secs(30));
    assert_eq!(app.data.last_elapsed_time_change, Span::from_secs(120));
    assert!(app.data.redraw_time_bar);
    let mut stopped = player(PlayState::Stop, Some(1), 3);
    let plan = handle_key_press(&mut stopped, key(Key::Char('9')), Span::from_secs(100));
    assert!(plan.commands.is_empty());
}

#[test]
fn arrow_keys_seek_and_scroll() {
    let mut app = player(PlayState::Play, Some(1), 3);
    let plan = handle_key_press(&mut app, key(Key::Left), Span::from_secs(101));
    assert_eq!(plan.commands, vec![Command::Seek(Span::from_secs(1))]);
    let plan = handle_key_press(&mut app, key(Key::Right), Span::from_secs(101));
    assert_eq!(plan.commands, vec![Command::Seek(Span::from_secs(21))]);
    let mut paused = player(PlayState::Pause, Some(1), 3);
    let plan = handle_key_press(&mut paused, key(Key::Left), Span::from_secs(101));
    assert_eq!(plan.commands, vec![Command::Seek(Span::from_secs(0))]);
    app.data.index = 1;
    handle_key_press(&mut app, key(Key::Down), Span::from_secs(101));
    assert_eq!(app.data.index, 2);
    handle_key_press(&mut app, key(Key::Up), Span::from_secs(101));
    handle_key_press(&mut app, key(Key::Up), Span::from_secs(101));
    handle_key_press(&mut app, key(Key::Up), Span::from_secs(101));
    assert_eq!(app.data.index, 0);
}

#[test]
fn zero_move_seeks_in_place() {
    let app = player(PlayState::Pause, Some(1), 3);
    let plan = app.data.move_pos(0, Span::from_secs(150));
    assert_eq!(plan.commands, vec![Command::Seek(Span::from_secs(10))]);
}

#[test]
fn g_key_focuses_current_song() {
    let mut app = player(PlayState::Play, Some(40), 60);
    app.data.index = 0;
    handle_key_press(&mut app, key(Key::Char('g')), Span::from_secs(100));
    assert_eq!(app.data.index, 31);
}

#[test]
fn events_resize_and_release() {
    let mut app = player(PlayState::Play, Some(1), 3);
    app.data.redraw_screen = false;
    let plan = event_handler(&mut app, InputEvent::Resize(100, 50), Span::from_secs(100));
    assert!(plan.commands.is_empty());
    assert!(app.data.redraw_screen);
    let release = KeyEvent { code: Key::Char('q'), modifiers: 0, kind: KeyKind::Release };
    event_handler(&mut app, InputEvent::Key(release), Span::from_secs(100));
    assert!(!app.should_exit());
    event_handler(&mut app, InputEvent::Key(key(Key::Char('Q'))), Span::from_secs(100));
    assert!(app.should_exit());
}

#[test]
fn app_observes_quit_and_resize() {
    let mut app = App::new(0u8, (80, 24));
    assert!(!app.should_exit());
    let ctrl_c = KeyEvent { code: Key::Char('c'), modifiers: CONTROL, kind: KeyKind::Press };
    let ctrl_shift_c = KeyEvent { code: Key::Char('c'), modifiers: CONTROL | 1, kind: KeyKind::Press };
    let ctrl_c_up = KeyEvent { code: Key::Char('c'), modifiers: CONTROL, kind: KeyKind::Release };
    app.observe_event(&InputEvent::Key(ctrl_shift_c));
    app.observe_event(&InputEvent::Key(ctrl_c_up));
    assert!(!app.should_exit());
    app.observe_event(&InputEvent::Resize(120, 30));
    assert_eq!(app.term_size, (120, 30));
    app.observe_event(&InputEvent::Key(ctrl_c));
    assert!(app.should_exit());
    app.observe_event(&InputEvent::Other);
    assert!(app.should_exit());
    let mut other = App::new(0u8, (80, 24));
    other.exit();
    assert!(other.should_exit());
    assert_eq!(other.term_size, (80, 24));
}

#[test]
fn frame_pause_fills_the_frame() {
    assert_eq!(frame_pause(Span::from_millis(30)), Some(Span::from_millis(70)));
    assert_eq!(frame_pause(Span::from_millis(100)), None);
    assert_eq!(frame_pause(Span::from_millis(150)), None);
    assert_eq!(frame_pause(Span::zero()), Some(Span::from_millis(100)));
}

#[test]
fn following_the_song_moves_the_view() {
    let mut app = player(PlayState::Play, Some(5), 30);
    app.data.index = 10;
    app.data.redraw_queue = false;
    app.data.follow_song(Some(place(3)));
    assert_eq!(app.data.index, 12);
    assert!(app.data.redraw_status_line && app.data.redraw_time_bar && app.data.redraw_queue);
    let mut same = player(PlayState::Play, Some(5), 30);
    same.data.index = 10;
    same.data.redraw_queue = false;
    same.data.follow_song(Some(place(5)));
    assert_eq!(same.data.index, 10);
    assert!(!same.data.redraw_queue);
    let mut fresh = player(PlayState::Play, Some(25), 30);
    fresh.data.index = 0;
    fresh.data.follow_song(None);
    assert_eq!(fresh.data.index, 16);
}

#[test]
fn current_song_is_looked_up_by_position() {
    let app = player(PlayState::Play, Some(2), 3);
    assert_eq!(app.data.get_current_song().map(|s| s.file.clone()), Some(String::from("music/2.flac")));
    let none = player(PlayState::Stop, None, 3);
    assert!(none.data.get_current_song().is_none());
}

#[test]
fn refresh_waits_after_a_fetch() {
    let mut app = player(PlayState::Pause, Some(1), 3);
    app.data.refresh_mpd = true;
    app.data.fetch_status(status(PlayState::Pause, Some(1), 3), Span::from_secs(300));
    app.data.fetch_done();
    assert!(!app.data.needs_refresh(Span::from_secs(304)));
    assert!(!app.data.needs_refresh(Span::from_secs(305)));
    assert!(app.data.needs_refresh(Span::from_millis(305_001)));
}

#[test]
fn complete_refresh_reads_queue_and_follows_song() {
    let mut app = player(PlayState::Play, Some(5), 30);
    app.data.index = 10;
    app.data.refresh_mpd = true;
    let mut st = status(PlayState::Play, Some(3), 20);
    st.queue_version = 8;
    assert!(app.data.queue_outdated(&st));
    let queue = Some(queue_of(20));
    assert!(app.data.refresh_fits_at(&st, &queue));
    app.data.complete_refresh(st, queue, Span::from_secs(400));
    assert_eq!(app.data.queue.len(), 20);
    assert_eq!(app.data.last_queue_version, 8);
    assert_eq!(app.data.index, 8);
    assert!(!app.data.refresh_mpd);
    assert_eq!(app.data.last_status_update, Span::from_secs(400));
    assert!(app.data.redraw_status_line && app.data.redraw_queue);
}

#[test]
fn complete_refresh_without_queue_change() {
    let mut app = player(PlayState::Play, Some(5), 30);
    let st = status(PlayState::Pause, Some(5), 30);
    assert!(!app.data.queue_outdated(&st));
    assert!(!app.data.refresh_fits_at(&st, &Some(queue_of(30))));
    assert!(app.data.refresh_fits_at(&st, &None));
    app.data.complete_refresh(st, None, Span::from_secs(400));
    assert_eq!(app.data.status.state, PlayState::Pause);
    assert_eq!(app.data.queue.len(), 30);
}

#[test]
fn song_end_check_skips_unknown_length() {
    let mut data = AppData::new(
        Status { time: Some((Span::new(u64::MAX, 0), Span::zero())), ..status(PlayState::Play, Some(1), 3) },
        queue_of(3),
        40,
        Span::zero(),
    );
    let now = Span::from_secs(2);
    assert!(!data.elapsed_fits_at(now));
    assert!(data.end_check_fits_at(now));
    assert!(!data.is_song_ended(now));
    assert!(!data.needs_refresh(now));
}

#[test]
fn elapsed_never_goes_back_while_playing() {
    let app = player(PlayState::Play, Some(1), 3);
    let mut last = Span::zero();
    for t in [100u64, 100, 101, 103, 200] {
        let e = app.data.compute_elapsed(Span::from_secs(t));
        assert!(!e.shorter_than(&last));
        assert!(!app.data.get_total().shorter_than(&e));
        last = e;
    }
}
