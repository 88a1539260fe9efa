use mpd_tui::app::App;
use mpd_tui::model::{PlayState, QueuePlace, Song, Status};
use mpd_tui::player::AppData;
use mpd_tui::render::{
    can_render, draw_queue, draw_status_line, draw_time_bar, draw_volume_bar, render_block,
    try_render,
};
use mpd_tui::screen::{Attr, Color, DrawOp};
use mpd_tui::time::Span;

fn place(pos: u32) -> QueuePlace {
    QueuePlace { id: pos, pos, prio: 0 }
}

fn song(pos: u32, artist: Option<&str>, title: Option<&str>) -> Song {
    Song {
        file: format!("f{}.mp3", pos),
        title: title.map(String::from),
        artist: artist.map(String::from),
        duration: Some(Span::from_secs(65)),
        place: Some(place(pos)),
    }
}

fn app_with(queue: Vec<Song>, current: Option<u32>, width: u16, height: u16) -> App<AppData> {
    let status = Status {
        volume: 50,
        queue_version: 1,
        queue_len: queue.len() as u32,
        state: PlayState::Play,
        song: current.map(place),
        time: current.map(|_| (Span::from_secs(30), Span::from_secs(120))),
        duration: current.map(|_| Span::from_secs(120)),
    };
    App::new(AppData::new(status, queue, height, Span::from_secs(1000)), (width, height))
}

fn texts(ops: &[DrawOp]) -> Vec<String> {
    ops.iter()
        .filter_map(|o| match o {
            DrawOp::Print(s) => Some(s.clone()),
            _ => None,
        })
        .collect()
}

#[test]
fn small_terminal_gets_a_note() {
    let mut app = app_with(vec![song(0, None, None)], Some(0), 60, 24);
    let frame = try_render(&mut app, Span::from_secs(1000)).unwrap();
    assert!(frame.flush);
    assert_eq!(
        frame.ops,
        vec![DrawOp::ClearAll, DrawOp::MoveTo(0, 0), DrawOp::Print(String::from("Terminal is too small!"))]
    );
    assert!(app.data.redraw_screen);
}

#[test]
fn block_has_corners_and_sides() {
    let mut out = Vec::new();
    render_block(&mut out, 5, 4, 6, 4);
    assert_eq!(out[0], DrawOp::MoveTo(5, 4));
    assert_eq!(texts(&out), vec!["┌", "╌╌╌╌", "┐", "╎", "╎", "╎", "╎", "└", "╌╌╌╌", "┘"]);
    assert!(out.contains(&DrawOp::MoveTo(10, 6)));
    assert_eq!(out[out.len() - 4], DrawOp::MoveTo(5, 7));
}

#[test]
fn whole_screen_then_nothing() {
    let queue: Vec<Song> = (0..5).map(|i| song(i, Some("A"), Some("T"))).collect();
    let mut app = app_with(queue, Some(2), 80, 24);
    let now = Span::from_secs(1000);
    let frame = try_render(&mut app, now).unwrap();
    assert!(frame.flush);
    assert_eq!(frame.ops[0], DrawOp::ClearAll);
    assert!(!app.data.redraw_screen);
    assert!(!app.data.redraw_status_line && !app.data.redraw_volume_bar);
    assert!(!app.data.redraw_time_bar && !app.data.redraw_queue);
    assert_eq!(app.data.queue_view_size, 7);
    assert_eq!(app.data.last_time_bar_redraw, now);
    let again = try_render(&mut app, now).unwrap();
    assert!(again.ops.is_empty());
    assert!(!again.flush);
}

#[test]
fn time_bar_is_due_every_half_second_while_playing() {
    let queue: Vec<Song> = (0..5).map(|i| song(i, Some("A"), Some("T"))).collect();
    let mut app = app_with(queue, Some(2), 80, 24);
    try_render(&mut app, Span::from_secs(1000)).unwrap();
    let later = try_render(&mut app, Span::from_millis(1_000_600)).unwrap();
    assert!(later.flush);
    assert_eq!(later.ops[0], DrawOp::MoveTo(7, 10));
}

#[test]
fn status_line_uses_display_width() {
    let queue = vec![song(0, Some("日本"), Some("x"))];
    let mut app = app_with(queue, Some(0), 80, 24);
    let mut out = Vec::new();
    draw_status_line(&mut app, &mut out);
    assert_eq!(out[1], DrawOp::PrintColored(String::from(" \u{f04b} Playing "), Color::Green));
    assert_eq!(out[3], DrawOp::Attribute(Attr::Bold));
    let last = texts(&out).pop().unwrap();
    assert_eq!(last, " ".repeat(65 - 8));
    assert!(!app.data.redraw_status_line);
}

#[test]
fn status_line_without_song() {
    let mut app = app_with(vec![], None, 80, 24);
    let mut out = Vec::new();
    draw_status_line(&mut app, &mut out);
    assert_eq!(texts(&out), vec![" No song".to_string(), " ".repeat(57)]);
}

#[test]
fn status_line_falls_back_to_unknown_artist_and_file() {
    let queue = vec![song(0, None, None)];
    let mut app = app_with(queue, Some(0), 80, 24);
    let mut out = Vec::new();
    draw_status_line(&mut app, &mut out);
    let t = texts(&out);
    assert_eq!(t[0], "[Unknown]");
    assert_eq!(t[2], "f0.mp3");
}

#[test]
fn volume_bar_is_proportional() {
    let mut app = app_with(vec![], None, 80, 24);
    let mut out = Vec::new();
    draw_volume_bar(&mut app, &mut out);
    assert_eq!(out[0], DrawOp::MoveTo(9, 8));
    assert_eq!(texts(&out), vec![" 50% ".to_string(), "[".to_string(), "#".repeat(27), "-".repeat(28), "]".to_string()]);
    app.data.volume = 100;
    let mut full = Vec::new();
    draw_volume_bar(&mut app, &mut full);
    assert_eq!(texts(&full)[2], "#".repeat(55));
    assert_eq!(texts(&full)[3], "");
}

#[test]
fn negative_volume_cannot_be_drawn() {
    let mut app = app_with(vec![], None, 80, 24);
    app.data.volume = -1;
    app.data.redraw_volume_bar = true;
    assert!(!can_render(&app, Span::from_secs(1000)));
    assert!(try_render(&mut app, Span::from_secs(1000)).is_none());
    assert!(app.data.redraw_screen);
}

#[test]
fn time_bar_shows_clock_and_percent() {
    let mut app = app_with(vec![song(0, None, None)], Some(0), 80, 24);
    let mut out = Vec::new();
    draw_time_bar(&mut app, &mut out, Span::from_secs(1030));
    let t = texts(&out);
    assert_eq!(t[0], " ⏱ ");
    assert_eq!(t[1], "01:00");
    assert_eq!(t[3], "02:00");
    assert_eq!(t[4], " 49% ");
    assert_eq!(t[6], "#".repeat(27));
    assert_eq!(t[7], "-".repeat(28));
    assert_eq!(app.data.last_time_bar_redraw, Span::from_secs(1030));
}

#[test]
fn queue_marks_current_song_and_blanks_the_rest() {
    let queue: Vec<Song> = (0..3).map(|i| song(i, Some("A"), Some("T"))).collect();
    let mut app = app_with(queue, Some(1), 80, 24);
    app.data.queue_view_size = 5;
    let mut out = Vec::new();
    draw_queue(&mut app, &mut out);
    assert_eq!(out[0], DrawOp::MoveTo(9, 14));
    let marks = out.iter().filter(|o| **o == DrawOp::BoldUnderlined).count();
    assert_eq!(marks, 1);
    let t = texts(&out);
    assert!(t.contains(&"01:05".to_string()));
    assert!(t.contains(&" ".repeat(65 - 13 - 3)));
    assert!(t.contains(&" ".repeat(65 - 13)));
    assert_eq!(out[out.len() - 2], DrawOp::MoveTo(9, 18));
    assert_eq!(out[out.len() - 1], DrawOp::Print(" ".repeat(65)));
    assert!(!app.data.redraw_queue);
}

#[test]
fn paused_label_has_its_icon_first() {
    let mut app = app_with(vec![song(0, None, None)], Some(0), 80, 24);
    app.data.status.state = PlayState::Pause;
    let mut out = Vec::new();
    draw_status_line(&mut app, &mut out);
    assert_eq!(out[1], DrawOp::PrintColored(String::from(" \u{f04c}  Paused "), Color::Yellow));
    app.data.status.state = PlayState::Stop;
    let mut stopped = Vec::new();
    draw_status_line(&mut app, &mut stopped);
    assert_eq!(stopped[1], DrawOp::PrintColored(String::from(" \u{f04d} Stopped "), Color::Red));
}

#[test]
fn status_line_with_song_on_narrow_width() {
    let mut app = app_with(vec![song(0, Some("A"), Some("T"))], Some(0), 20, 24);
    let mut out = Vec::new();
    draw_status_line(&mut app, &mut out);
    assert_eq!(texts(&out).pop().unwrap(), "");
    let mut empty = app_with(vec![], None, 20, 24);
    empty.data.redraw_screen = false;
    empty.data.redraw_status_line = true;
    empty.data.redraw_volume_bar = false;
    assert!(mpd_tui::render::status_line_fits_at(&empty.data, 20) == false);
    assert!(mpd_tui::render::status_line_fits_at(&app.data, 20));
}
