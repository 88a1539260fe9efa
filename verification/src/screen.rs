use vstd::prelude::*;

verus! {

/// A colour of the terminal.
#[derive(Clone, Copy, Debug, PartialEq, Eq, Structural)]
pub enum Color {
    Red,
    Yellow,
    Green,
    White,
    Magenta,
    /// A colour of the terminal's 256-colour table.
    Ansi(u8),
}

/// A text attribute of the terminal.
#[derive(Clone, Copy, Debug, PartialEq, Eq, Structural)]
pub enum Attr {
    Bold,
    Italic,
    /// Back to plain text.
    Reset,
}

/// One step of drawing on the terminal.
#[derive(Clone, Debug, PartialEq, Eq)]
pub enum DrawOp {
    /// Clear the whole screen.
    ClearAll,
    /// Move the cursor to a column and a row.
    MoveTo(u16, u16),
    /// Set the colour of the text that follows.
    Foreground(Color),
    /// Set an attribute of the text that follows.
    Attribute(Attr),
    /// Make the text that follows bold and underlined.
    BoldUnderlined,
    /// Print text.
    Print(String),
    /// Print text in a colour, then go back to the default colour.
    PrintColored(String, Color),
}

/// A step of drawing, with its text as characters.
pub enum Op {
    ClearAll,
    MoveTo(u16, u16),
    Foreground(Color),
    Attribute(Attr),
    BoldUnderlined,
    Print(Seq<char>),
    PrintColored(Seq<char>, Color),
}

impl View for DrawOp {
    type V = Op;

    open spec fn view(&self) -> Op {
        match self {
            DrawOp::ClearAll => Op::ClearAll,
            DrawOp::MoveTo(x, y) => Op::MoveTo(*x, *y),
            DrawOp::Foreground(c) => Op::Foreground(*c),
            DrawOp::Attribute(a) => Op::Attribute(*a),
            DrawOp::BoldUnderlined => Op::BoldUnderlined,
            DrawOp::Print(s) => Op::Print(s@),
            DrawOp::PrintColored(s, c) => Op::PrintColored(s@, *c),
        }
    }
}

/// The steps of a list of drawing steps.
pub open spec fn ops_view(ops: Seq<DrawOp>) -> Seq<Op> {
    ops.map_values(|o: DrawOp| o@)
}

/// Appends one step.
pub fn put(out: &mut Vec<DrawOp>, op: DrawOp)
    ensures
        ops_view(final(out)@) == ops_view(old(out)@).push(op@),
{
    let ghost op_view = op@;
    out.push(op);
    assert(ops_view(out@) =~= ops_view(old(out)@).push(op_view));
}

/// Appends the printing of `text`.
pub fn put_text(out: &mut Vec<DrawOp>, text: &str)
    ensures
        ops_view(final(out)@) == ops_view(old(out)@).push(Op::Print(text@)),
{
    put(out, DrawOp::Print(String::from_str(text)));
}

/// Appends a cursor move.
pub fn put_move(out: &mut Vec<DrawOp>, x: u16, y: u16)
    ensures
        ops_view(final(out)@) == ops_view(old(out)@).push(Op::MoveTo(x, y)),
{
    put(out, DrawOp::MoveTo(x, y));
}

/// Appends a change of colour.
pub fn put_color(out: &mut Vec<DrawOp>, color: Color)
    ensures
        ops_view(final(out)@) == ops_view(old(out)@).push(Op::Foreground(color)),
{
    put(out, DrawOp::Foreground(color));
}

} // verus!
