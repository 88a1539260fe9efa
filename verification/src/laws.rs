use vstd::prelude::*;

use crate::model::{Command, Followup, Key, PlayState, Song, Status};
use crate::player::{
    key_press_outcome,
    focus_index, scroll_index, total_part, AppData, FULL_REFRESH_INTERVAL_SECS,
};
use crate::render::{
    artist_text, status_line_ops, title_text,
    lemma_bar_fill, queue_fits, rendered, shown_count, time_bar_filled, too_small, volume_bar_filled,
};
use crate::text::{clock_text, decimal, digit_char, pad_left};
use crate::time::{min_int, secs_of, sub_or_zero, Span};
use crate::app::App;
use crate::screen::Op;

verus! {

/// Whatever volume is asked for, the player keeps and sends one in `0..=100`;
/// asking again for the volume it kept changes nothing.
pub proof fn volume_stays_in_range(d: AppData, volume: int)
    ensures
        0 <= d.with_volume(volume).volume <= 100,
        d.with_volume(volume).with_volume(d.with_volume(volume).volume as int) == d.with_volume(
            volume,
        ),
{
}

/// Moving the queue view never takes its top below the first song nor past
/// the queue's length.
pub proof fn scroll_stays_in_queue(d: AppData, amount: int)
    ensures
        0 <= d.scrolled(amount).index <= d.status.queue_len,
{
}

/// Moving the queue view by some rows and back again returns it to where it
/// was, where neither move met an end of the queue.
pub proof fn scroll_back_restores(d: AppData, amount: int)
    requires
        d.index <= i32::MAX,
        0 <= d.index + amount <= d.status.queue_len,
        d.index + amount <= i32::MAX,
        d.index <= d.status.queue_len,
    ensures
        d.scrolled(amount).scrolled(-amount).index == d.index,
{
    let moved = d.index + amount;
    assert((d.index as i32) as int == d.index);
    assert(scroll_index(d.index, amount, d.status.queue_len as int) == moved);
    let e = d.scrolled(amount);
    assert(e.index == moved);
    assert((e.index as i32) as int == e.index);
}

/// After the queue is read again, the queue view starts at a song of the
/// queue, or at its start where the queue is empty.
pub proof fn queue_read_keeps_view_in_queue(d: AppData, queue: Vec<Song>)
    requires
        queue@.len() <= u32::MAX,
    ensures
        queue@.len() == 0 ==> d.with_queue(queue).index == 0,
        queue@.len() > 0 ==> d.with_queue(queue).index < queue@.len(),
        d.index < queue@.len() ==> d.with_queue(queue).index == d.index,
{
}

/// After bringing a song into the queue view, it is on the screen: the view
/// starts at or before it and holds it, where the view has at least four rows.
pub proof fn focus_shows_song(d: AppData, pos: u32)
    requires
        d.queue_view_size >= 4,
    ensures
        d.focused(pos).index <= pos,
        pos < d.focused(pos).index + d.queue_view_size,
{
    assert(focus_index(pos as int, d.queue_view_size as int) >= pos - (d.queue_view_size / 2 - 2));
}

/// While a song plays, the time into it is never more than its length; while
/// it does not, the time stands still.
pub proof fn elapsed_within_song(d: AppData, now: int, later: int)
    ensures
        d.status.state == PlayState::Play ==> d.elapsed_at(now) <= total_part(d.status.time),
        d.status.state != PlayState::Play ==> d.elapsed_at(now) == d.elapsed_at(later),
{
}

/// A song that has ended stays ended as time goes on, and the time into it is
/// then its whole length.
pub proof fn ended_song_stays_ended(d: AppData, now: int, later: int)
    requires
        now <= later,
        d.song_ended_at(now),
    ensures
        d.song_ended_at(later),
        d.elapsed_at(later) == total_part(d.status.time),
{
    assert(sub_or_zero(later, d.last_elapsed_time_change@) >= sub_or_zero(
        now,
        d.last_elapsed_time_change@,
    ));
}

/// Once the server's state has been read at `now`, it is not read again
/// before the refresh interval has passed, unless the song ends or a command
/// asks for it.
pub proof fn refresh_waits_for_interval(d: AppData, status: Status, now: Span, later: int)
    requires
        now@ <= later <= now@ + (FULL_REFRESH_INTERVAL_SECS as int) * 1_000_000_000,
    ensures
        ({
            let fetched = AppData { refresh_mpd: false, ..d.with_status(status, now) };
            fetched.refresh_due(later) == fetched.song_ended_at(later)
        }),
{
}

/// Following the current song when it has not moved changes nothing.
pub proof fn unmoved_song_keeps_view(d: AppData)
    ensures
        d.followed(d.status.song) == d,
{
}

/// The queue view shows at most as many songs as it has rows, and never a
/// negative number of them.
pub proof fn queue_view_rows(d: AppData, width: u16)
    requires
        queue_fits(d, width),
    ensures
        0 <= shown_count(d) <= d.queue_view_size,
{
}

/// Moving zero seconds seeks to where the song stands.
pub proof fn zero_move_stays(d: AppData, now: int)
    ensures
        d.moved_pos(0, now) == d.elapsed_at(now),
{
}

/// Drawing a screen large enough leaves no part of it asked for; drawing it
/// again at the same time then draws nothing and needs no flush.
pub proof fn render_settles(d: AppData, width: u16, height: u16, now: Span)
    requires
        !too_small(width, height),
    ensures
        !rendered(d, width, height, now).0.redraw_screen,
        !rendered(d, width, height, now).0.redraw_status_line,
        !rendered(d, width, height, now).0.redraw_volume_bar,
        !rendered(d, width, height, now).0.redraw_time_bar,
        !rendered(d, width, height, now).0.redraw_queue,
        rendered(rendered(d, width, height, now).0, width, height, now).1 == Seq::<
            crate::screen::Op,
        >::empty(),
        !rendered(rendered(d, width, height, now).0, width, height, now).2,
{
    let e = rendered(d, width, height, now).0;
    assert(rendered(e, width, height, now).1 =~= Seq::<crate::screen::Op>::empty());
}

/// The volume bar is never filled past its end while the volume is within
/// `0..=100`.
pub proof fn volume_bar_within_box(d: AppData, width: u16)
    requires
        width >= 25,
        0 <= d.volume <= 100,
    ensures
        0 <= volume_bar_filled(d, width) <= width - 25,
{
    let total = width - 25;
    assert(0 <= total * d.volume / 100 <= total) by (nonlinear_arith)
        requires
            total >= 0,
            0 <= d.volume <= 100,
    ;
}

/// The time bar is never filled past its end, and the percentage it shows is
/// at most a hundred.
pub proof fn time_bar_within_box(d: AppData, width: u16, now: int)
    requires
        width > 25,
    ensures
        0 <= time_bar_filled(d, width, now) <= width - 25,
        time_bar_filled(d, width, now) * 100 / (width - 25) <= 100,
{
    let total_time = total_part(d.status.time);
    let elapsed = min_int(d.elapsed_at(now), total_time);
    d.last_elapsed_time.lemma_nonnegative();
    match d.status.time {
        Some((_, t)) => t.lemma_nonnegative(),
        None => {},
    }
    assert(0 <= elapsed <= total_time);
    vstd::arithmetic::div_mod::lemma_div_is_ordered(elapsed, total_time, 1_000_000_000int);
    lemma_bar_fill((width - 25) as int, secs_of(elapsed), secs_of(total_time));
    let f = time_bar_filled(d, width, now);
    let total = width - 25;
    assert(f * 100 / total <= 100) by (nonlinear_arith)
        requires
            0 <= f <= total,
            total >= 1,
    ;
}

/// Whether `c` is one of the decimal digits `0` to `9`.
pub open spec fn is_digit_char(c: char) -> bool {
    '0' <= c <= '9'
}

/// The number that a string of decimal digits writes, most significant
/// first; zero for the empty string.
pub open spec fn digits_value(s: Seq<char>) -> int
    decreases s.len(),
{
    if s.len() == 0 {
        0
    } else {
        digits_value(s.drop_last()) * 10 + (s.last() as int - 48)
    }
}

proof fn decimal_facts(n: nat)
    ensures
        forall|i: int| 0 <= i < decimal(n).len() ==> is_digit_char(#[trigger] decimal(n)[i]),
        digits_value(decimal(n)) == n,
        decimal(n).len() >= 1,
        n < 100 <==> decimal(n).len() <= 2,
        n < 10 ==> decimal(n).len() == 1,
        n >= 10 ==> decimal(n).len() >= 2,
    decreases n,
{
    if n < 10 {
        assert(decimal(n) == seq![digit_char(n as int)]);
        assert(decimal(n).drop_last() =~= Seq::<char>::empty());
        assert(digits_value(Seq::<char>::empty()) == 0);
        assert(decimal(n).last() as int - 48 == n);
    } else {
        decimal_facts(n / 10);
        let d = decimal(n / 10).push(digit_char((n % 10) as int));
        assert(decimal(n) == d);
        assert(d.drop_last() =~= decimal(n / 10));
        assert(d.last() as int - 48 == n % 10);
        assert(digits_value(d) == (n / 10) * 10 + n % 10);
        assert(n < 100 <==> n / 10 < 10);
        assert forall|i: int| 0 <= i < d.len() implies is_digit_char(#[trigger] d[i]) by {
            if i < d.len() - 1 {
                assert(d[i] == decimal(n / 10)[i]);
            }
        }
    }
}

proof fn zeros_value(k: nat)
    ensures
        digits_value(Seq::new(k, |_i: int| '0')) == 0,
    decreases k,
{
    if k > 0 {
        zeros_value((k - 1) as nat);
        assert(Seq::new(k, |_i: int| '0').drop_last() =~= Seq::new((k - 1) as nat, |_i: int| '0'));
    }
}

proof fn zero_pad_value(k: nat, s: Seq<char>)
    ensures
        digits_value(Seq::new(k, |_i: int| '0') + s) == digits_value(s),
    decreases s.len(),
{
    let z = Seq::new(k, |_i: int| '0');
    if s.len() == 0 {
        assert(z + s =~= z);
        zeros_value(k);
    } else {
        zero_pad_value(k, s.drop_last());
        assert((z + s).drop_last() =~= z + s.drop_last());
        assert((z + s).last() == s.last());
    }
}

proof fn padded_decimal_facts(n: nat)
    ensures
        ({
            let p = pad_left(decimal(n), 2, '0');
            &&& forall|i: int| 0 <= i < p.len() ==> is_digit_char(#[trigger] p[i])
            &&& digits_value(p) == n
            &&& p.len() >= 2
            &&& (p.len() == 2 <==> n < 100)
        }),
{
    decimal_facts(n);
    let s = decimal(n);
    let p = pad_left(s, 2, '0');
    if s.len() < 2 {
        let k = (2 - s.len()) as nat;
        assert(p == Seq::new(k, |_i: int| '0') + s);
        zero_pad_value(k, s);
        assert forall|i: int| 0 <= i < p.len() implies is_digit_char(#[trigger] p[i]) by {
            if i >= k {
                assert(p[i] == s[i - k]);
            }
        }
    }
}

/// A length of time always reads as `m:ss`: digits of the minutes, at least
/// two of them, a colon, then exactly two digits of the seconds below sixty,
/// which together give back the whole seconds; the text is five characters
/// long exactly below a hundred minutes.
pub proof fn clock_text_reads_back(total_secs: nat)
    ensures
        ({
            let text = clock_text(total_secs);
            let n = text.len() as int;
            &&& n >= 5
            &&& text[n - 3] == ':'
            &&& forall|i: int| 0 <= i < n - 3 ==> is_digit_char(#[trigger] text[i])
            &&& is_digit_char(text[n - 2]) && is_digit_char(text[n - 1])
            &&& digits_value(text.subrange(n - 2, n)) < 60
            &&& digits_value(text.take(n - 3)) * 60 + digits_value(text.subrange(n - 2, n))
                == total_secs
            &&& (n == 5 <==> total_secs < 6000)
        }),
{
    let m = total_secs / 60;
    let sec = total_secs % 60;
    padded_decimal_facts(m);
    padded_decimal_facts(sec);
    let mt = pad_left(decimal(m), 2, '0');
    let st = pad_left(decimal(sec), 2, '0');
    let text = clock_text(total_secs);
    let n = text.len() as int;
    assert(text == mt + seq![':'] + st);
    assert(text.take(n - 3) =~= mt);
    assert(text.subrange(n - 2, n) =~= st);
    assert(text[n - 2] == st[0]);
    assert(text[n - 1] == st[1]);
    assert forall|i: int| 0 <= i < n - 3 implies is_digit_char(#[trigger] text[i]) by {
        assert(text[i] == mt[i]);
    }
}

/// Two lengths of time read the same as `m:ss` exactly where they have the
/// same whole seconds.
pub proof fn clock_text_tells_seconds_apart(a: nat, b: nat)
    ensures
        clock_text(a) == clock_text(b) <==> a == b,
{
    clock_text_reads_back(a);
    clock_text_reads_back(b);
}

/// While a song plays, the time into it never goes back as time goes on,
/// and never passes its length.
pub proof fn elapsed_moves_forward(d: AppData, now: int, later: int)
    requires
        d.status.state == PlayState::Play,
        now <= later,
    ensures
        d.elapsed_at(now) <= d.elapsed_at(later),
        d.elapsed_at(later) <= total_part(d.status.time),
{
    assert(sub_or_zero(now, d.last_elapsed_time_change@) <= sub_or_zero(
        later,
        d.last_elapsed_time_change@,
    ));
}

/// A song that has ended was playing, has a length, and stands at its end;
/// nothing ends while the server does not play.
pub proof fn ended_song_is_at_its_end(d: AppData, now: int)
    ensures
        d.song_ended_at(now) ==> d.elapsed_at(now) == total_part(d.status.time) && total_part(
            d.status.time,
        ) > 0,
        d.status.state != PlayState::Play ==> !d.song_ended_at(now),
{
    match d.status.time {
        Some((_, t)) => t.lemma_nonnegative(),
        None => {},
    }
}

/// A fetch of the server's state that was asked for is never dropped: it is
/// due whatever the time, and once a play, pause or skip command has
/// succeeded, the next decision reads the server again.
pub proof fn asked_refresh_is_due(d: AppData, now: Span, later: int)
    ensures
        d.refresh_mpd ==> d.refresh_due(later),
        d.after_commands(Followup::Refresh, now).refresh_mpd,
        d.after_commands(Followup::Refresh, now).refresh_due(later),
{
}

/// Right after a status is recorded, the time into the song is the time the
/// status gives (zero where it gives none): at the moment of recording, the
/// player shows that time, capped by the song's length while it plays.
pub proof fn recorded_status_sets_the_clock(d: AppData, status: Status, now: Span)
    ensures
        d.with_status(status, now).last_elapsed_time@ == (match status.time {
            Some((elapsed, _)) => elapsed@,
            None => 0,
        }),
        d.with_status(status, now).elapsed_at(now@) == (match status.time {
            Some((elapsed, total)) => if status.state == PlayState::Play {
                min_int(elapsed@, total@)
            } else {
                elapsed@
            },
            None => 0,
        }),
{
    Span::lemma_zero_view();
}

/// The two volume-down keys do the same, and so do the two volume-up keys:
/// each moves the kept volume by five within `0..=100` and sends it.
pub proof fn volume_keys_move_by_five(
    before: App<AppData>,
    now: Span,
    after: App<AppData>,
    commands: Seq<Command>,
    followup: Followup,
)
    ensures
        key_press_outcome(before, Key::Char('-'), now, after, commands, followup)
            <==> key_press_outcome(before, Key::Char('_'), now, after, commands, followup),
        key_press_outcome(before, Key::Char('+'), now, after, commands, followup)
            <==> key_press_outcome(before, Key::Char('='), now, after, commands, followup),
        key_press_outcome(before, Key::Char('-'), now, after, commands, followup) ==> {
            let v = before.data.volume - 5;
            let kept = if v < 0 {
                0
            } else if v > 100 {
                100
            } else {
                v
            };
            &&& after.data.volume == kept
            &&& commands == seq![Command::SetVolume(kept as i8)]
            &&& !after.should_exit || before.should_exit
        },
        key_press_outcome(before, Key::Char('+'), now, after, commands, followup) ==> {
            let v = before.data.volume + 5;
            let kept = if v < 0 {
                0
            } else if v > 100 {
                100
            } else {
                v
            };
            &&& after.data.volume == kept
            &&& commands == seq![Command::SetVolume(kept as i8)]
        },
{
}

/// Skipping sends `Play` first exactly where the server stands stopped; while
/// it plays or pauses, only the skip is sent; on an empty queue, nothing.
pub proof fn skip_plays_only_when_stopped(d: AppData, skip: Command)
    requires
        skip == Command::Next || skip == Command::Prev,
    ensures
        d.queue@.len() == 0 ==> d.skip_commands(skip) == Seq::<Command>::empty(),
        d.queue@.len() > 0 && d.status.state != PlayState::Stop ==> d.skip_commands(skip)
            == seq![skip],
        d.queue@.len() > 0 && d.status.state == PlayState::Stop ==> d.skip_commands(skip)
            == seq![Command::Play, skip],
        d.skip_commands(skip).contains(Command::Play) <==> (d.queue@.len() > 0 && d.status.state
            == PlayState::Stop),
        d.queue@.len() > 0 ==> d.skip_commands(skip).last() == skip,
{
    if d.queue@.len() > 0 && d.status.state == PlayState::Stop {
        assert(d.skip_commands(skip)[0] == Command::Play);
    }
    if d.queue@.len() > 0 && d.status.state != PlayState::Stop {
        assert(d.skip_commands(skip) =~= seq![skip]);
        assert(!seq![skip].contains(Command::Play)) by {
            if seq![skip].contains(Command::Play) {
                let i = choose|i: int| 0 <= i < 1 && seq![skip][i] == Command::Play;
                assert(seq![skip][i] == skip);
            }
        }
    }
    if d.queue@.len() == 0 {
        assert(d.skip_commands(skip) =~= Seq::<Command>::empty());
    }
}

/// The status line prints the artist and title of the song that plays: the
/// song at the current place in the queue, the one `get_current_song` gives.
pub proof fn status_line_shows_current_song(d: AppData, width: u16)
    requires
        d.status.song is Some,
    ensures
        ({
            let song = d.queue@[d.status.song->0.pos as int];
            let ops = status_line_ops(d, width);
            &&& ops[5] == Op::Print(artist_text(song))
            &&& ops[9] == Op::Print(title_text(song))
            &&& ops[5] == Op::Print(match song.artist {
                Some(a) => a@,
                None => "[Unknown]"@,
            })
            &&& ops[9] == Op::Print(match song.title {
                Some(t) => t@,
                None => song.file@,
            })
        }),
{
}

} // verus!
