use vstd::prelude::*;

use crate::app::App;
use crate::player::{song_in_queue, total_part, AppData, RESERVED_ROWS};
use crate::screen::{ops_view, put, put_color, put_move, put_text, Attr, Color, DrawOp, Op};
use crate::text::{
    clock_text, display_width, fmt_duration, pad_left, padded_left, repeat_char, repeated,
    signed_decimal, signed_decimal_text, text_width,
};
use crate::time::{min_int, secs_of, sub_or_zero, Span};
use crate::model::{PlayState, QueuePlace, Song};

verus! {

/// Pairs of texts on the rows `from..to`: `left` at column `left_x` and
/// `right` at column `right_x` of each row.
pub open spec fn row_ops(left_x: u16, left: Seq<char>, right_x: u16, right: Seq<char>, from: int, to: int) -> Seq<Op>
    decreases to - from,
{
    if to <= from {
        seq![]
    } else {
        row_ops(left_x, left, right_x, right, from, to - 1) + seq![
            Op::MoveTo(left_x, (to - 1) as u16),
            Op::Print(left),
            Op::MoveTo(right_x, (to - 1) as u16),
            Op::Print(right),
        ]
    }
}

/// Draws `left` and `right` on each of the rows `from..to`.
fn put_rows(out: &mut Vec<DrawOp>, left_x: u16, left: &str, right_x: u16, right: &str, from: u16, to: u16)
    ensures
        ops_view(final(out)@) == ops_view(old(out)@) + row_ops(left_x, left@, right_x, right@, from as int, to as int),
{
    let mut y = from;
    assert(ops_view(out@) =~= ops_view(old(out)@) + row_ops(left_x, left@, right_x, right@, from as int, from as int));
    while y < to
        invariant
            from <= y,
            y <= to || to < from,
            to < from ==> y == from,
            ops_view(out@) == ops_view(old(out)@) + row_ops(left_x, left@, right_x, right@, from as int, y as int),
        decreases to - y,
    {
        put_move(out, left_x, y);
        put_text(out, left);
        put_move(out, right_x, y);
        put_text(out, right);
        y = y + 1;
        assert(ops_view(out@) =~= ops_view(old(out)@) + row_ops(left_x, left@, right_x, right@, from as int, y as int));
    }
    proof {
        if to < from {
            assert(row_ops(left_x, left@, right_x, right@, from as int, to as int) =~= seq![]);
            assert(row_ops(left_x, left@, right_x, right@, from as int, from as int) =~= seq![]);
        }
    }
}

/// The dashed box of `width` columns and `height` rows whose corner is at
/// column `x0`, row `y0`.
pub open spec fn block_ops(x0: u16, y0: u16, width: u16, height: u16) -> Seq<Op> {
    let x1 = x0 + width;
    let y1 = y0 + height;
    seq![
        Op::MoveTo(x0, y0),
        Op::Print("┌"@),
        Op::Print(repeat_char('╌', (width - 2) as nat)),
        Op::Print("┐"@),
    ] + row_ops(x0, "╎"@, (x1 - 1) as u16, "╎"@, y0 + 1, y1 - 1) + seq![
        Op::MoveTo(x0, (y1 - 1) as u16),
        Op::Print("└"@),
        Op::Print(repeat_char('╌', (width - 2) as nat)),
        Op::Print("┘"@),
    ]
}

/// Whether a box fits the terminal's coordinates.
pub open spec fn block_fits(x0: u16, y0: u16, width: u16, height: u16) -> bool {
    &&& width >= 2
    &&& x0 + width <= u16::MAX
    &&& 1 <= y0 + height <= u16::MAX
    &&& y0 < u16::MAX
}

/// Draws a dashed box.
pub fn render_block(out: &mut Vec<DrawOp>, x0: u16, y0: u16, width: u16, height: u16)
    requires
        block_fits(x0, y0, width, height),
    ensures
        ops_view(final(out)@) == ops_view(old(out)@) + block_ops(x0, y0, width, height),
{
    let x1 = x0 + width;
    let y1 = y0 + height;
    proof {
        reveal_strlit("╌");
    }
    put_move(out, x0, y0);
    put_text(out, "┌");
    put(out, DrawOp::Print(repeated("╌", width as usize - 2)));
    put_text(out, "┐");
    put_rows(out, x0, "╎", x1 - 1, "╎", y0 + 1, y1 - 1);
    put_move(out, x0, y1 - 1);
    put_text(out, "└");
    put(out, DrawOp::Print(repeated("╌", width as usize - 2)));
    put_text(out, "┘");
    assert(ops_view(out@) =~= ops_view(old(out)@) + block_ops(x0, y0, width, height));
}

/// The top of the outer frame and of the inner frame.
pub open spec fn frame_top_ops(width: u16) -> Seq<Op> {
    seq![
        Op::ClearAll,
        Op::MoveTo(1, 0),
        Op::Foreground(Color::Ansi(92)),
        Op::Print("╓"@),
        Op::Print(repeat_char('─', (width - 4) as nat)),
        Op::Print("╖"@),
        Op::MoveTo(1, 1),
        Op::Print("║"@),
        Op::MoveTo((width - 2) as u16, 1),
        Op::Print("║"@),
        Op::MoveTo(1, 2),
        Op::Print("╠"@),
        Op::Print(repeat_char('═', (width - 4) as nat)),
        Op::Print("╣"@),
        Op::MoveTo(1, 3),
        Op::Print("║ ┌"@),
        Op::Print(repeat_char('─', (width - 8) as nat)),
        Op::Print("┐ ║"@),
    ]
}

/// The bottom of the inner frame and of the outer frame.
pub open spec fn frame_bottom_ops(width: u16, height: u16) -> Seq<Op> {
    seq![
        Op::MoveTo(1, (height - 2) as u16),
        Op::Print("║ └"@),
        Op::Print(repeat_char('─', (width - 8) as nat)),
        Op::Print("┘ ║"@),
        Op::MoveTo(1, (height - 1) as u16),
        Op::Print("╚"@),
        Op::Print(repeat_char('═', (width - 4) as nat)),
        Op::Print("╝"@),
        Op::Foreground(Color::Ansi(248)),
    ]
}

/// The four boxes of the screen.
pub open spec fn boxes_ops(width: u16, height: u16) -> Seq<Op> {
    block_ops(5, 4, (width - 10) as u16, 3) + block_ops(5, 7, (width - 10) as u16, 3) + block_ops(
        5,
        10,
        (width - 10) as u16,
        3,
    ) + block_ops(5, 13, (width - 10) as u16, (height - 15) as u16)
}

/// The titles of the volume box and of the queue box.
pub open spec fn titles_ops() -> Seq<Op> {
    seq![
        Op::MoveTo(7, 7),
        Op::Foreground(Color::Green),
        Op::Print("  Volume "@),
        Op::MoveTo(7, 13),
        Op::Foreground(Color::White),
        Op::Print(" 󰕲 Queue "@),
    ]
}

/// The outer frame, the four boxes and their titles of a terminal of
/// `width` columns and `height` rows.
pub open spec fn borders_ops(width: u16, height: u16) -> Seq<Op> {
    frame_top_ops(width) + row_ops(1, "║ │"@, (width - 4) as u16, "│ ║"@, 4, height - 2)
        + frame_bottom_ops(width, height) + boxes_ops(width, height) + titles_ops()
}

fn draw_frame_top(out: &mut Vec<DrawOp>, width: u16)
    requires
        width >= 8,
    ensures
        ops_view(final(out)@) == ops_view(old(out)@) + frame_top_ops(width),
{
    proof {
        reveal_strlit("─");
        reveal_strlit("═");
    }
    put(out, DrawOp::ClearAll);
    put_move(out, 1, 0);
    put_color(out, Color::Ansi(92));
    put_text(out, "╓");
    put(out, DrawOp::Print(repeated("─", width as usize - 4)));
    put_text(out, "╖");
    put_move(out, 1, 1);
    put_text(out, "║");
    put_move(out, width - 2, 1);
    put_text(out, "║");
    put_move(out, 1, 2);
    put_text(out, "╠");
    put(out, DrawOp::Print(repeated("═", width as usize - 4)));
    put_text(out, "╣");
    put_move(out, 1, 3);
    put_text(out, "║ ┌");
    put(out, DrawOp::Print(repeated("─", width as usize - 8)));
    put_text(out, "┐ ║");
    assert(ops_view(out@) =~= ops_view(old(out)@) + frame_top_ops(width));
}

fn draw_frame_bottom(out: &mut Vec<DrawOp>, width: u16, height: u16)
    requires
        width >= 8,
        height >= 2,
    ensures
        ops_view(final(out)@) == ops_view(old(out)@) + frame_bottom_ops(width, height),
{
    proof {
        reveal_strlit("─");
        reveal_strlit("═");
    }
    put_move(out, 1, height - 2);
    put_text(out, "║ └");
    put(out, DrawOp::Print(repeated("─", width as usize - 8)));
    put_text(out, "┘ ║");
    put_move(out, 1, height - 1);
    put_text(out, "╚");
    put(out, DrawOp::Print(repeated("═", width as usize - 4)));
    put_text(out, "╝");
    put_color(out, Color::Ansi(248));
    assert(ops_view(out@) =~= ops_view(old(out)@) + frame_bottom_ops(width, height));
}

fn draw_boxes(out: &mut Vec<DrawOp>, width: u16, height: u16)
    requires
        width >= 12,
        height >= 17,
    ensures
        ops_view(final(out)@) == ops_view(old(out)@) + boxes_ops(width, height),
{
    render_block(out, 5, 4, width - 10, 3);
    render_block(out, 5, 7, width - 10, 3);
    render_block(out, 5, 10, width - 10, 3);
    render_block(out, 5, 13, width - 10, height - 15);
    assert(ops_view(out@) =~= ops_view(old(out)@) + boxes_ops(width, height));
}

fn draw_titles(out: &mut Vec<DrawOp>)
    ensures
        ops_view(final(out)@) == ops_view(old(out)@) + titles_ops(),
{
    put_move(out, 7, 7);
    put_color(out, Color::Green);
    put_text(out, "  Volume ");
    put_move(out, 7, 13);
    put_color(out, Color::White);
    put_text(out, " 󰕲 Queue ");
    assert(ops_view(out@) =~= ops_view(old(out)@) + titles_ops());
}

/// The data after the whole screen is drawn on a terminal of `height` rows:
/// the queue view fills the rows left.
pub open spec fn after_borders(d: AppData, height: u16) -> AppData {
    AppData { queue_view_size: (height - RESERVED_ROWS) as u16, redraw_screen: false, ..d }
}

/// Draws the frame and the boxes of the screen.
pub fn draw_borders(app: &mut App<AppData>, out: &mut Vec<DrawOp>)
    requires
        old(app).term_size.0 >= 12,
        old(app).term_size.1 >= RESERVED_ROWS,
    ensures
        ops_view(final(out)@) == ops_view(old(out)@) + borders_ops(old(app).term_size.0, old(app).term_size.1),
        final(app).data == after_borders(old(app).data, old(app).term_size.1),
        final(app).term_size == old(app).term_size,
        final(app).should_exit == old(app).should_exit,
{
    let (width, height) = app.term_size;
    let ghost start = ops_view(out@);
    draw_frame_top(out, width);
    put_rows(out, 1, "║ │", width - 4, "│ ║", 4, height - 2);
    draw_frame_bottom(out, width, height);
    draw_boxes(out, width, height);
    draw_titles(out);
    app.data.queue_view_size = height - RESERVED_ROWS;
    app.data.redraw_screen = false;
    assert(ops_view(out@) =~= start + borders_ops(width, height));
}

/// The label and colour of a play state.
pub open spec fn state_label(state: PlayState) -> (Seq<char>, Color) {
    match state {
        PlayState::Stop => ("  Stopped "@, Color::Red),
        PlayState::Pause => ("   Paused "@, Color::Yellow),
        PlayState::Play => ("  Playing "@, Color::Green),
    }
}

/// The artist of a song as shown: `[Unknown]` where it has none.
pub open spec fn artist_text(song: Song) -> Seq<char> {
    match song.artist {
        Some(a) => a@,
        None => "[Unknown]"@,
    }
}

/// The title of a song as shown: its file where it has none.
pub open spec fn title_text(song: Song) -> Seq<char> {
    match song.title {
        Some(t) => t@,
        None => song.file@,
    }
}

fn artist_of(song: &Song) -> (r: &str)
    ensures
        r@ == artist_text(*song),
{
    match &song.artist {
        Some(a) => a.as_str(),
        None => "[Unknown]",
    }
}

fn title_of(song: &Song) -> (r: &str)
    ensures
        r@ == title_text(*song),
{
    match &song.title {
        Some(t) => t.as_str(),
        None => song.file.as_str(),
    }
}

/// The status line: the play state, then the current song's artist and title
/// or a note that there is none, cleared to the end of the box.
pub open spec fn status_line_ops(d: AppData, width: u16) -> Seq<Op> {
    let line_width = width - 15;
    let label = state_label(d.status.state);
    seq![Op::MoveTo(7, 4), Op::PrintColored(label.0, label.1), Op::MoveTo(9, 5)] + match d.status.song {
        Some(place) => {
            let song = d.queue@[place.pos as int];
            let artist = artist_text(song);
            let title = title_text(song);
            let clear = sub_or_zero(line_width, (display_width(artist) + 3 + display_width(title)) as int);
            seq![
                Op::Attribute(Attr::Bold),
                Op::Foreground(Color::Yellow),
                Op::Print(artist),
                Op::Foreground(Color::White),
                Op::Print(" - "@),
                Op::Foreground(Color::Ansi(117)),
                Op::Print(title),
                Op::Attribute(Attr::Reset),
                Op::Print(repeat_char(' ', clear as nat)),
            ]
        },
        None => seq![
            Op::Attribute(Attr::Italic),
            Op::Foreground(Color::White),
            Op::Print(" No song"@),
            Op::Attribute(Attr::Reset),
            Op::Print(repeat_char(' ', (line_width - 8) as nat)),
        ],
    }
}

/// Whether the status line can be drawn: the terminal is wide enough (15
/// columns, 23 where there is no song), the current song is in the queue, and
/// the width of its text fits a `usize`.
pub open spec fn status_line_fits(d: AppData, width: u16) -> bool {
    &&& width >= 15
    &&& d.status.song is None ==> width >= 23
    &&& song_in_queue(d)
    &&& match d.status.song {
        Some(place) => display_width(artist_text(d.queue@[place.pos as int])) + 3 + display_width(
            title_text(d.queue@[place.pos as int]),
        ) <= usize::MAX,
        None => true,
    }
}

/// Draws the status line.
pub fn draw_status_line(app: &mut App<AppData>, out: &mut Vec<DrawOp>)
    requires
        status_line_fits(old(app).data, old(app).term_size.0),
    ensures
        ops_view(final(out)@) == ops_view(old(out)@) + status_line_ops(old(app).data, old(app).term_size.0),
        final(app).data == (AppData { redraw_status_line: false, ..old(app).data }),
        final(app).term_size == old(app).term_size,
        final(app).should_exit == old(app).should_exit,
{
    let ghost start = ops_view(out@);
    let (label, color) = match app.data.status.state {
        PlayState::Stop => ("  Stopped ", Color::Red),
        PlayState::Pause => ("   Paused ", Color::Yellow),
        PlayState::Play => ("  Playing ", Color::Green),
    };
    put_move(out, 7, 4);
    put(out, DrawOp::PrintColored(String::from_str(label), color));
    put_move(out, 9, 5);
    let width = app.term_size.0 - 15;
    proof {
        reveal_strlit(" ");
    }
    match app.data.get_current_song() {
        Some(song) => {
            let artist = artist_of(song);
            let title = title_of(song);
            let text_width = text_width(artist) + 3 + text_width(title);
            let clear_count = (width as usize).saturating_sub(text_width);
            put(out, DrawOp::Attribute(Attr::Bold));
            put_color(out, Color::Yellow);
            put_text(out, artist);
            put_color(out, Color::White);
            put_text(out, " - ");
            put_color(out, Color::Ansi(117));
            put_text(out, title);
            put(out, DrawOp::Attribute(Attr::Reset));
            put(out, DrawOp::Print(repeated(" ", clear_count)));
        },
        None => {
            let clear_count = width as usize - 8;
            put(out, DrawOp::Attribute(Attr::Italic));
            put_color(out, Color::White);
            put_text(out, " No song");
            put(out, DrawOp::Attribute(Attr::Reset));
            put(out, DrawOp::Print(repeated(" ", clear_count)));
        },
    }
    app.data.redraw_status_line = false;
    assert(ops_view(out@) =~= start + status_line_ops(old(app).data, old(app).term_size.0));
}

/// A bar on row `row`: a label, then `filled` marks and `unfilled` dashes
/// between brackets in `color`.
pub open spec fn bar_ops(row: u16, label: Seq<char>, color: Color, filled: nat, unfilled: nat) -> Seq<Op> {
    seq![
        Op::MoveTo(9, row),
        Op::Foreground(Color::White),
        Op::Print(label),
        Op::Foreground(color),
        Op::Print("["@),
        Op::Print(repeat_char('#', filled)),
        Op::Print(repeat_char('-', unfilled)),
        Op::Print("]"@),
    ]
}

fn put_bar(out: &mut Vec<DrawOp>, row: u16, label: String, color: Color, filled: usize, unfilled: usize)
    ensures
        ops_view(final(out)@) == ops_view(old(out)@) + bar_ops(row, label@, color, filled as nat, unfilled as nat),
{
    let ghost start = ops_view(out@);
    let ghost label_view = label@;
    proof {
        reveal_strlit("#");
        reveal_strlit("-");
    }
    put_move(out, 9, row);
    put_color(out, Color::White);
    put(out, DrawOp::Print(label));
    put_color(out, color);
    put_text(out, "[");
    put(out, DrawOp::Print(repeated("#", filled)));
    put(out, DrawOp::Print(repeated("-", unfilled)));
    put_text(out, "]");
    assert(ops_view(out@) =~= start + bar_ops(row, label_view, color, filled as nat, unfilled as nat));
}

/// A number right-aligned in three columns, then a percent sign and a space.
pub open spec fn percent_label(v: int) -> Seq<char> {
    pad_left(signed_decimal(v), 3, ' ') + "% "@
}

fn percent_text(v: i64) -> (r: String)
    ensures
        r@ == percent_label(v as int),
{
    proof {
        reveal_strlit(" ");
    }
    let mut s = padded_left(signed_decimal_text(v), 3, " ");
    s.append("% ");
    s
}

/// The columns of the volume bar's `width - 25` that the volume fills.
pub open spec fn volume_bar_filled(d: AppData, width: u16) -> int {
    (width - 25) * d.volume / 100
}

/// The volume bar: the volume and a bar of `width - 25` columns filled in
/// proportion to it.
pub open spec fn volume_bar_ops(d: AppData, width: u16) -> Seq<Op> {
    let total = width - 25;
    let filled = volume_bar_filled(d, width);
    bar_ops(8, percent_label(d.volume as int), Color::Green, filled as nat, (total - filled) as nat)
}

/// Whether the volume bar can be drawn: the terminal is wide enough, and the
/// volume is not negative and fills no more than the bar.
pub open spec fn volume_bar_fits(d: AppData, width: u16) -> bool {
    &&& width >= 25
    &&& d.volume >= 0
    &&& (width - 25) * d.volume / 100 <= width - 25
}

/// Draws the volume bar.
pub fn draw_volume_bar(app: &mut App<AppData>, out: &mut Vec<DrawOp>)
    requires
        volume_bar_fits(old(app).data, old(app).term_size.0),
    ensures
        ops_view(final(out)@) == ops_view(old(out)@) + volume_bar_ops(old(app).data, old(app).term_size.0),
        final(app).data == (AppData { redraw_volume_bar: false, ..old(app).data }),
        final(app).term_size == old(app).term_size,
        final(app).should_exit == old(app).should_exit,
{
    let total = app.term_size.0 as usize - 25;
    assert(total * (app.data.volume as usize) <= 65535 * 127) by (nonlinear_arith)
        requires
            total <= 65535,
            0 <= app.data.volume <= 127,
    ;
    let filled = total * (app.data.volume as usize) / 100;
    let unfilled = total - filled;
    let label = percent_text(app.data.volume as i64);
    put_bar(out, 8, label, Color::Green, filled, unfilled);
    app.data.redraw_volume_bar = false;
}

/// The columns of the time bar's `width - 25` that are filled at `now`: in
/// proportion to the whole seconds played of the song's whole seconds.
pub open spec fn time_bar_filled(d: AppData, width: u16, now: int) -> int {
    let total_time = total_part(d.status.time);
    let elapsed = min_int(d.elapsed_at(now), total_time);
    (width - 25) * secs_of(elapsed) / (if secs_of(total_time) >= 1 {
        secs_of(total_time)
    } else {
        1
    })
}

/// The time bar: the time into the current song and its length, and a bar
/// of `width - 25` columns filled in proportion to the whole seconds played.
pub open spec fn time_bar_ops(d: AppData, width: u16, now: int) -> Seq<Op> {
    let total_time = total_part(d.status.time);
    let elapsed = min_int(d.elapsed_at(now), total_time);
    let total = width - 25;
    let filled = time_bar_filled(d, width, now);
    seq![
        Op::MoveTo(7, 10),
        Op::Foreground(Color::White),
        Op::Print(" ⏱ "@),
        Op::Foreground(Color::Magenta),
        Op::Print(clock_text(secs_of(elapsed) as nat)),
        Op::Foreground(Color::White),
        Op::Print(" / "@),
        Op::Foreground(Color::Magenta),
        Op::Print(clock_text(secs_of(total_time) as nat)),
    ] + bar_ops(
        11,
        percent_label(filled * 100 / total),
        Color::Magenta,
        filled as nat,
        (total - filled) as nat,
    )
}

/// Whether the time bar can be drawn at `now`: the terminal is wide enough,
/// the time into the song can be computed, and the bar's arithmetic fits a
/// `usize`.
pub open spec fn time_bar_fits(d: AppData, width: u16, now: int) -> bool {
    &&& width > 25
    &&& d.elapsed_fits(now)
    &&& (width - 25) * secs_of(min_int(d.elapsed_at(now), total_part(d.status.time)))
        <= usize::MAX
    &&& secs_of(total_part(d.status.time)) <= usize::MAX
}

pub(crate) proof fn lemma_bar_fill(total: int, e: int, t: int)
    requires
        0 <= e <= t,
        total >= 0,
    ensures
        0 <= total * e / (if t >= 1 {
            t
        } else {
            1
        }) <= total,
{
    if t >= 1 {
        assert(total * e <= total * t) by (nonlinear_arith)
            requires
                0 <= e <= t,
                total >= 0,
        ;
        assert(total * e / t <= total * t / t) by (nonlinear_arith)
            requires
                total * e <= total * t,
                t >= 1,
                total * e >= 0,
        ;
        assert(total * t / t == total) by (nonlinear_arith)
            requires
                t >= 1,
        ;
        assert(0 <= total * e / t) by (nonlinear_arith)
            requires
                total * e >= 0,
                t >= 1,
        ;
    } else {
        assert(e == 0);
        assert(total * e == 0) by (nonlinear_arith)
            requires
                e == 0,
        ;
    }
}

/// Draws the time bar at `now`, and records when it was drawn.
pub fn draw_time_bar(app: &mut App<AppData>, out: &mut Vec<DrawOp>, now: Span)
    requires
        time_bar_fits(old(app).data, old(app).term_size.0, now@),
    ensures
        ops_view(final(out)@) == ops_view(old(out)@) + time_bar_ops(old(app).data, old(app).term_size.0, now@),
        final(app).data == (AppData {
            last_time_bar_redraw: now,
            redraw_time_bar: false,
            ..old(app).data
        }),
        final(app).term_size == old(app).term_size,
        final(app).should_exit == old(app).should_exit,
{
    let ghost start = ops_view(out@);
    let total_time = app.data.get_total();
    let elapsed = app.data.compute_elapsed(now).min(total_time);
    put_move(out, 7, 10);
    put_color(out, Color::White);
    put_text(out, " ⏱ ");
    put_color(out, Color::Magenta);
    put(out, DrawOp::Print(fmt_duration(elapsed)));
    put_color(out, Color::White);
    put_text(out, " / ");
    put_color(out, Color::Magenta);
    put(out, DrawOp::Print(fmt_duration(total_time)));
    let total = app.term_size.0 as usize - 25;
    let elapsed_secs = elapsed.as_secs();
    let total_secs = total_time.as_secs();
    proof {
        vstd::arithmetic::div_mod::lemma_div_is_ordered(elapsed@, total_time@, 1_000_000_000int);
        assert(elapsed_secs <= usize::MAX) by (nonlinear_arith)
            requires
                total * elapsed_secs <= usize::MAX,
                total >= 1,
                elapsed_secs >= 0,
        ;
        lemma_bar_fill(total as int, elapsed_secs as int, total_secs as int);
    }
    let divisor: usize = (if total_secs >= 1 {
        total_secs
    } else {
        1
    }) as usize;
    let filled = total * (elapsed_secs as usize) / divisor;
    assert(filled * 100 <= 65535 * 100) by (nonlinear_arith)
        requires
            filled <= 65535,
    ;
    let percent = filled * 100 / total;
    let unfilled = total - filled;
    let label = percent_text(percent as i64);
    put_bar(out, 11, label, Color::Magenta, filled, unfilled);
    app.data.last_time_bar_redraw = now;
    app.data.redraw_time_bar = false;
    assert(ops_view(out@) =~= start + time_bar_ops(old(app).data, old(app).term_size.0, now@));
}

/// The length in whole seconds of a song, zero where it is not known.
pub open spec fn song_secs(song: Song) -> int {
    match song.duration {
        Some(length) => secs_of(length@),
        None => 0,
    }
}

/// The row of the queue view for `song` on its `line`: a mark where it is the
/// current song, its artist, title and length, cleared to the end of the box.
pub open spec fn queue_row_ops(current_place: Option<QueuePlace>, width: u16, song: Song, line: int) -> Seq<Op> {
    let artist = artist_text(song);
    let title = title_text(song);
    let clear = sub_or_zero(width - 15, (display_width(artist) + display_width(title) + 11) as int);
    let current = current_place == song.place;
    seq![Op::MoveTo(9, (14 + line) as u16)] + (if current {
        seq![Op::BoldUnderlined, Op::Foreground(Color::White), Op::Print(" 󰶻 "@)]
    } else {
        seq![]
    }) + seq![
        Op::Foreground(Color::Yellow),
        Op::Print(artist),
        Op::Foreground(Color::White),
        Op::Print(" - "@),
        Op::Foreground(Color::Ansi(117)),
        Op::Print(title),
        Op::Foreground(Color::White),
        Op::Print(" ["@),
        Op::Foreground(Color::Magenta),
        Op::Print(clock_text(song_secs(song) as nat)),
        Op::Foreground(Color::White),
        Op::Print("]"@),
        Op::Attribute(Attr::Reset),
        Op::Print(repeat_char(' ', (if current {
            sub_or_zero(clear, 3)
        } else {
            clear
        }) as nat)),
    ]
}

/// The rows of the `count` songs of `songs` from `first` on, in the queue
/// view whose current song is at `current_place`.
pub open spec fn queue_songs_ops(
    songs: Seq<Song>,
    first: int,
    current_place: Option<QueuePlace>,
    width: u16,
    count: int,
) -> Seq<Op>
    decreases count,
{
    if count <= 0 {
        seq![]
    } else {
        queue_songs_ops(songs, first, current_place, width, count - 1) + queue_row_ops(
            current_place,
            width,
            songs[first + count - 1],
            count - 1,
        )
    }
}

/// Blank rows of the queue view on the lines `from..to`.
pub open spec fn queue_blank_ops(width: u16, from: int, to: int) -> Seq<Op>
    decreases to - from,
{
    if to <= from {
        seq![]
    } else {
        queue_blank_ops(width, from, to - 1) + seq![
            Op::MoveTo(9, (14 + to - 1) as u16),
            Op::Print(repeat_char(' ', (width - 15) as nat)),
        ]
    }
}

/// The number of songs in the queue view: from the top of the view to the end
/// of the view or of the queue.
pub open spec fn shown_count(d: AppData) -> int {
    min_int(d.index + d.queue_view_size, d.queue@.len() as int) - d.index
}

/// The queue view: the songs from its top, then blank rows to its end.
pub open spec fn queue_ops(d: AppData, width: u16) -> Seq<Op> {
    queue_songs_ops(d.queue@, d.index as int, d.status.song, width, shown_count(d)) + queue_blank_ops(
        width,
        shown_count(d),
        d.queue_view_size as int,
    )
}

/// Whether the width of a song's row in the queue view fits a `usize`.
pub open spec fn row_width_fits(song: Song) -> bool {
    display_width(artist_text(song)) + display_width(title_text(song)) + 11 <= usize::MAX
}

/// Whether the queue view can be drawn: the terminal is wide enough, the view
/// starts within the queue, its rows fit the terminal's coordinates, and the
/// width of each row shown fits a `usize`.
pub open spec fn queue_fits(d: AppData, width: u16) -> bool {
    &&& width >= 15
    &&& d.index <= d.queue@.len()
    &&& d.index + d.queue_view_size <= usize::MAX
    &&& d.queue_view_size + 14 <= u16::MAX + 1
    &&& forall|i: int| d.index <= i < d.index + shown_count(d) ==> #[trigger] row_width_fits(d.queue@[i])
}

fn put_queue_row(out: &mut Vec<DrawOp>, current_place: Option<QueuePlace>, width: u16, song: &Song, line: u16)
    requires
        width >= 15,
        14 + line <= u16::MAX,
        row_width_fits(*song),
    ensures
        ops_view(final(out)@) == ops_view(old(out)@) + queue_row_ops(current_place, width, *song, line as int),
{
    let ghost start = ops_view(out@);
    let artist = artist_of(song);
    let title = title_of(song);
    let duration = match song.duration {
        Some(length) => length,
        None => Span::zero(),
    };
    let text_width = text_width(artist) + text_width(title) + 11;
    let mut clear_count = ((width - 15) as usize).saturating_sub(text_width);
    put_move(out, 9, 14 + line);
    let current = crate::model::same_place(current_place, song.place);
    if current {
        clear_count = clear_count.saturating_sub(3);
        put(out, DrawOp::BoldUnderlined);
        put_color(out, Color::White);
        put_text(out, " 󰶻 ");
    }
    proof {
        reveal_strlit(" ");
    }
    put_color(out, Color::Yellow);
    put_text(out, artist);
    put_color(out, Color::White);
    put_text(out, " - ");
    put_color(out, Color::Ansi(117));
    put_text(out, title);
    put_color(out, Color::White);
    put_text(out, " [");
    put_color(out, Color::Magenta);
    put(out, DrawOp::Print(fmt_duration(duration)));
    put_color(out, Color::White);
    put_text(out, "]");
    put(out, DrawOp::Attribute(Attr::Reset));
    put(out, DrawOp::Print(repeated(" ", clear_count)));
    assert(ops_view(out@) =~= start + queue_row_ops(current_place, width, *song, line as int));
}

/// Draws the queue view.
pub fn draw_queue(app: &mut App<AppData>, out: &mut Vec<DrawOp>)
    requires
        queue_fits(old(app).data, old(app).term_size.0),
    ensures
        ops_view(final(out)@) == ops_view(old(out)@) + queue_ops(old(app).data, old(app).term_size.0),
        final(app).data == (AppData { redraw_queue: false, ..old(app).data }),
        final(app).term_size == old(app).term_size,
        final(app).should_exit == old(app).should_exit,
{
    let ghost start_ops = ops_view(out@);
    let queue_len = app.data.queue.len();
    let start = app.data.index as usize;
    let view_end = start + app.data.queue_view_size as usize;
    let end = if view_end < queue_len {
        view_end
    } else {
        queue_len
    };
    let width = app.term_size.0;
    let count = end - start;
    let mut line: usize = 0;
    while line < count
        invariant
            0 <= line <= count,
            count == shown_count(app.data),
            start == app.data.index,
            start + count <= app.data.queue@.len(),
            width == app.term_size.0,
            queue_fits(app.data, width),
            ops_view(out@) == start_ops + queue_songs_ops(
                app.data.queue@,
                start as int,
                app.data.status.song,
                width,
                line as int,
            ),
        decreases count - line,
    {
        let song = &app.data.queue[start + line];
        assert(row_width_fits(app.data.queue@[start + line]));
        put_queue_row(out, app.data.status.song, width, song, line as u16);
        line = line + 1;
        assert(ops_view(out@) =~= start_ops + queue_songs_ops(
            app.data.queue@,
            start as int,
            app.data.status.song,
            width,
            line as int,
        ));
    }
    let ghost shown = ops_view(out@);
    proof {
        reveal_strlit(" ");
    }
    let clear_str = repeated(" ", (width - 15) as usize);
    let view_size = app.data.queue_view_size as usize;
    let mut blank = count;
    while blank < view_size
        invariant
            count <= blank,
            blank <= view_size || view_size < count,
            view_size < count ==> blank == count,
            view_size == app.data.queue_view_size,
            queue_fits(app.data, width),
            width == app.term_size.0,
            clear_str@ == repeat_char(' ', (width - 15) as nat),
            ops_view(out@) == shown + queue_blank_ops(width, count as int, blank as int),
        decreases view_size - blank,
    {
        put_move(out, 9, 14 + blank as u16);
        put(out, DrawOp::Print(clear_str.clone()));
        blank = blank + 1;
        assert(ops_view(out@) =~= shown + queue_blank_ops(width, count as int, blank as int));
    }
    proof {
        if view_size < count {
            assert(queue_blank_ops(width, count as int, view_size as int) =~= seq![]);
        }
    }
    app.data.redraw_queue = false;
    assert(ops_view(out@) =~= start_ops + queue_ops(old(app).data, old(app).term_size.0));
}

/// What is drawn on a terminal that is too small for the screen.
pub open spec fn small_ops() -> Seq<Op> {
    seq![Op::ClearAll, Op::MoveTo(0, 0), Op::Print("Terminal is too small!"@)]
}

/// Whether a terminal of `width` columns and `height` rows is too small for
/// the screen.
pub open spec fn too_small(width: u16, height: u16) -> bool {
    width < 69 || height < 18
}

/// Whether the time bar is to be drawn at `now`: when asked for, or every
/// half second while the song plays.
pub open spec fn time_bar_due(d: AppData, now: int) -> bool {
    ||| d.redraw_time_bar
    ||| (d.status.state == PlayState::Play && sub_or_zero(now, d.last_time_bar_redraw@)
        > 500_000_000)
}

/// The whole screen drawn anew, where it is asked for, with the data after it.
pub open spec fn screen_step(d: AppData, width: u16, height: u16, now: Span) -> (AppData, Seq<Op>) {
    if d.redraw_screen {
        let framed = after_borders(d, height);
        (
            AppData {
                redraw_status_line: false,
                redraw_volume_bar: false,
                last_time_bar_redraw: now,
                redraw_time_bar: false,
                redraw_queue: false,
                ..framed
            },
            borders_ops(width, height) + status_line_ops(framed, width) + volume_bar_ops(
                framed,
                width,
            ) + time_bar_ops(framed, width, now@) + queue_ops(framed, width),
        )
    } else {
        (d, seq![])
    }
}

/// The status line drawn again, where it is asked for.
pub open spec fn status_step(d: AppData, width: u16) -> (AppData, Seq<Op>) {
    if d.redraw_status_line {
        (AppData { redraw_status_line: false, ..d }, status_line_ops(d, width))
    } else {
        (d, seq![])
    }
}

/// The volume bar drawn again, where it is asked for.
pub open spec fn volume_step(d: AppData, width: u16) -> (AppData, Seq<Op>) {
    if d.redraw_volume_bar {
        (AppData { redraw_volume_bar: false, ..d }, volume_bar_ops(d, width))
    } else {
        (d, seq![])
    }
}

/// The time bar drawn again, where it is due.
pub open spec fn time_step(d: AppData, width: u16, now: Span) -> (AppData, Seq<Op>) {
    if time_bar_due(d, now@) {
        (
            AppData { last_time_bar_redraw: now, redraw_time_bar: false, ..d },
            time_bar_ops(d, width, now@),
        )
    } else {
        (d, seq![])
    }
}

/// The queue view drawn again, where it is asked for.
pub open spec fn queue_step(d: AppData, width: u16) -> (AppData, Seq<Op>) {
    if d.redraw_queue {
        (AppData { redraw_queue: false, ..d }, queue_ops(d, width))
    } else {
        (d, seq![])
    }
}

/// The data after drawing at `now`, the steps drawn, and whether the terminal
/// is to be flushed: on a terminal too small, a note that it is; otherwise
/// each part of the screen that is asked for or due, in a fixed order, each
/// drawn once.
pub open spec fn rendered(d: AppData, width: u16, height: u16, now: Span) -> (AppData, Seq<Op>, bool) {
    if too_small(width, height) {
        (d, small_ops(), true)
    } else {
        let s1 = screen_step(d, width, height, now);
        let s2 = status_step(s1.0, width);
        let s3 = volume_step(s2.0, width);
        let s4 = time_step(s3.0, width, now);
        let s5 = queue_step(s4.0, width);
        (
            s5.0,
            s1.1 + s2.1 + s3.1 + s4.1 + s5.1,
            d.redraw_screen || s1.0.redraw_status_line || s2.0.redraw_volume_bar || time_bar_due(
                s3.0,
                now@,
            ) || s4.0.redraw_queue,
        )
    }
}

/// Whether drawing at `now` stays within the machine's arithmetic and the
/// queue: each part that is to be drawn fits.
pub open spec fn render_fits(d: AppData, width: u16, height: u16, now: Span) -> bool {
    too_small(width, height) || {
        let framed = after_borders(d, height);
        let s1 = screen_step(d, width, height, now);
        let s2 = status_step(s1.0, width);
        let s3 = volume_step(s2.0, width);
        let s4 = time_step(s3.0, width, now);
        &&& d.redraw_screen ==> {
            &&& status_line_fits(framed, width)
            &&& volume_bar_fits(framed, width)
            &&& time_bar_fits(framed, width, now@)
            &&& queue_fits(framed, width)
        }
        &&& s1.0.redraw_status_line ==> status_line_fits(s1.0, width)
        &&& s2.0.redraw_volume_bar ==> volume_bar_fits(s2.0, width)
        &&& time_bar_due(s3.0, now@) ==> time_bar_fits(s3.0, width, now@)
        &&& s4.0.redraw_queue ==> queue_fits(s4.0, width)
    }
}

/// The drawing steps of a frame, and whether the terminal is to be flushed
/// after them.
pub struct Frame {
    pub ops: Vec<DrawOp>,
    pub flush: bool,
}

/// Draws at `now` what is asked for or due, and marks it drawn.
pub fn render(app: &mut App<AppData>, now: Span) -> (r: Frame)
    requires
        render_fits(old(app).data, old(app).term_size.0, old(app).term_size.1, now),
    ensures
        final(app).data == rendered(old(app).data, old(app).term_size.0, old(app).term_size.1, now).0,
        ops_view(r.ops@) == rendered(old(app).data, old(app).term_size.0, old(app).term_size.1, now).1,
        r.flush == rendered(old(app).data, old(app).term_size.0, old(app).term_size.1, now).2,
        final(app).term_size == old(app).term_size,
        final(app).should_exit == old(app).should_exit,
{
    let (width, height) = app.term_size;
    let mut out: Vec<DrawOp> = Vec::new();
    if width < 69 || height < 18 {
        put(&mut out, DrawOp::ClearAll);
        put_move(&mut out, 0, 0);
        put_text(&mut out, "Terminal is too small!");
        assert(ops_view(out@) =~= small_ops());
        return Frame { ops: out, flush: true };
    }
    let ghost d0 = app.data;
    let mut flush = false;
    if app.data.redraw_screen {
        draw_borders(app, &mut out);
        draw_status_line(app, &mut out);
        draw_volume_bar(app, &mut out);
        draw_time_bar(app, &mut out, now);
        draw_queue(app, &mut out);
        flush = true;
    }
    let ghost o1 = ops_view(out@);
    assert(o1 =~= seq![] + screen_step(d0, width, height, now).1);
    let ghost d1 = app.data;
    if app.data.redraw_status_line {
        draw_status_line(app, &mut out);
        flush = true;
    }
    let ghost o2 = ops_view(out@);
    assert(o2 =~= o1 + status_step(d1, width).1);
    let ghost d2 = app.data;
    if app.data.redraw_volume_bar {
        draw_volume_bar(app, &mut out);
        flush = true;
    }
    let ghost o3 = ops_view(out@);
    assert(o3 =~= o2 + volume_step(d2, width).1);
    let ghost d3 = app.data;
    let since = now.saturating_sub(app.data.last_time_bar_redraw);
    let playing = match app.data.status.state {
        PlayState::Play => true,
        _ => false,
    };
    if app.data.redraw_time_bar || (playing && Span::from_millis(500).shorter_than(&since)) {
        draw_time_bar(app, &mut out, now);
        flush = true;
    }
    let ghost o4 = ops_view(out@);
    assert(o4 =~= o3 + time_step(d3, width, now).1);
    let ghost d4 = app.data;
    if app.data.redraw_queue {
        draw_queue(app, &mut out);
        flush = true;
    }
    assert(ops_view(out@) =~= o4 + queue_step(d4, width).1);
    Frame { ops: out, flush }
}

/// Whether the status line of `d` can be drawn on a terminal `width` wide.
pub fn status_line_fits_at(d: &AppData, width: u16) -> (r: bool)
    ensures
        r == status_line_fits(*d, width),
{
    if width < 15 || (d.status.song.is_none() && width < 23) {
        return false;
    }
    match d.status.song {
        Some(place) => {
            if place.pos as usize >= d.queue.len() {
                return false;
            }
            let song = &d.queue[place.pos as usize];
            let artist_width = text_width(artist_of(song));
            let title_width = text_width(title_of(song));
            match artist_width.checked_add(3) {
                Some(w) => w.checked_add(title_width).is_some(),
                None => false,
            }
        },
        None => true,
    }
}

/// Whether the volume bar of `d` can be drawn on a terminal `width` wide.
pub fn volume_bar_fits_at(d: &AppData, width: u16) -> (r: bool)
    ensures
        r == volume_bar_fits(*d, width),
{
    if width < 25 || d.volume < 0 {
        return false;
    }
    let total = (width - 25) as u64;
    assert(total * (d.volume as u64) <= 65535 * 127) by (nonlinear_arith)
        requires
            total <= 65535,
            0 <= d.volume <= 127,
    ;
    total * (d.volume as u64) / 100 <= total
}

/// Whether the time bar of `d` can be drawn at `now` on a terminal `width`
/// wide.
pub fn time_bar_fits_at(d: &AppData, width: u16, now: Span) -> (r: bool)
    ensures
        r == time_bar_fits(*d, width, now@),
{
    if width <= 25 || !d.elapsed_fits_at(now) {
        return false;
    }
    let total_time = d.get_total();
    let elapsed = d.compute_elapsed(now).min(total_time);
    let secs = elapsed.as_secs();
    let total_secs = total_time.as_secs();
    if secs > usize::MAX as u64 || total_secs > usize::MAX as u64 {
        proof {
            if secs > usize::MAX {
                assert((width - 25) * secs > usize::MAX) by (nonlinear_arith)
                    requires
                        width - 25 >= 1,
                        secs > usize::MAX,
                ;
            }
        }
        return false;
    }
    ((width - 25) as usize).checked_mul(secs as usize).is_some()
}

/// Whether the queue view of `d`, with `view_size` rows, can be drawn on a
/// terminal `width` wide.
pub fn queue_fits_at(d: &AppData, width: u16, view_size: u16) -> (r: bool)
    ensures
        r == queue_fits(AppData { queue_view_size: view_size, ..*d }, width),
{
    let ghost v = AppData { queue_view_size: view_size, ..*d };
    if width < 15 || d.index as usize > d.queue.len() || view_size > u16::MAX - 13 {
        return false;
    }
    let start = d.index as usize;
    let view_end = match start.checked_add(view_size as usize) {
        Some(e) => e,
        None => {
            return false;
        },
    };
    let end = if view_end < d.queue.len() {
        view_end
    } else {
        d.queue.len()
    };
    let mut i = start;
    while i < end
        invariant
            start <= i <= end,
            end <= d.queue@.len(),
            v == (AppData { queue_view_size: view_size, ..*d }),
            start == v.index,
            end == v.index + shown_count(v),
            forall|j: int| start <= j < i ==> #[trigger] row_width_fits(d.queue@[j]),
        decreases end - i,
    {
        let song = &d.queue[i];
        let fits = match text_width(artist_of(song)).checked_add(text_width(title_of(song))) {
            Some(w) => w.checked_add(11).is_some(),
            None => false,
        };
        if !fits {
            assert(!row_width_fits(v.queue@[i as int]));
            return false;
        }
        i = i + 1;
    }
    true
}

/// Whether the screen of `app` can be drawn at `now`.
pub fn can_render(app: &App<AppData>, now: Span) -> (r: bool)
    ensures
        r == render_fits(app.data, app.term_size.0, app.term_size.1, now),
{
    let (width, height) = app.term_size;
    if width < 69 || height < 18 {
        return true;
    }
    let d = &app.data;
    let ghost framed = after_borders(*d, height);
    assert(status_line_fits(framed, width) == status_line_fits(*d, width));
    assert(volume_bar_fits(framed, width) == volume_bar_fits(*d, width));
    assert(time_bar_fits(framed, width, now@) == time_bar_fits(*d, width, now@));
    if d.redraw_screen {
        assert(framed == AppData { queue_view_size: (height - RESERVED_ROWS) as u16, ..AppData { redraw_screen: false, ..*d } });
        let queue_ok = queue_fits_at(d, width, height - RESERVED_ROWS);
        assert(queue_fits(framed, width) == queue_fits(AppData { queue_view_size: (height - RESERVED_ROWS) as u16, ..*d }, width));
        status_line_fits_at(d, width) && volume_bar_fits_at(d, width) && time_bar_fits_at(d, width, now) && queue_ok
    } else {
        let status_ok = !d.redraw_status_line || status_line_fits_at(d, width);
        let volume_ok = !d.redraw_volume_bar || volume_bar_fits_at(d, width);
        let since = now.saturating_sub(d.last_time_bar_redraw);
        let playing = match d.status.state {
            PlayState::Play => true,
            _ => false,
        };
        let due = d.redraw_time_bar || (playing && Span::from_millis(500).shorter_than(&since));
        let time_ok = !due || time_bar_fits_at(d, width, now);
        let queue_ok = !d.redraw_queue || queue_fits_at(d, width, d.queue_view_size);
        assert(AppData { queue_view_size: d.queue_view_size, ..*d } == *d);
        status_ok && volume_ok && time_ok && queue_ok
    }
}

/// Draws at `now` what is asked for or due, where it can be drawn; nothing,
/// and no change, where it cannot.
pub fn try_render(app: &mut App<AppData>, now: Span) -> (r: Option<Frame>)
    ensures
        r is Some <==> render_fits(old(app).data, old(app).term_size.0, old(app).term_size.1, now),
        r is None ==> *final(app) == *old(app),
        r matches Some(frame) ==> {
            &&& final(app).data == rendered(old(app).data, old(app).term_size.0, old(app).term_size.1, now).0
            &&& ops_view(frame.ops@) == rendered(old(app).data, old(app).term_size.0, old(app).term_size.1, now).1
            &&& frame.flush == rendered(old(app).data, old(app).term_size.0, old(app).term_size.1, now).2
            &&& final(app).term_size == old(app).term_size
            &&& final(app).should_exit == old(app).should_exit
        },
{
    if can_render(app, now) {
        Some(render(app, now))
    } else {
        None
    }
}

} // verus!
