use vstd::prelude::*;

use crate::time::Span;

verus! {

/// What the music server is doing.
#[derive(Clone, Copy, Debug, PartialEq, Eq, Structural)]
pub enum PlayState {
    Stop,
    Play,
    Pause,
}

/// Where a song stands in the play queue.
#[derive(Clone, Copy, Debug, PartialEq, Eq, Structural)]
pub struct QueuePlace {
    /// The song's id in the queue.
    pub id: u32,
    /// Its zero-based position.
    pub pos: u32,
    /// Its priority.
    pub prio: u8,
}

/// What the player reads of the server's status.
#[derive(Clone, Copy, Debug, PartialEq, Eq)]
pub struct Status {
    /// The volume, 0 to 100, or -1 where the server has none.
    pub volume: i8,
    /// The version of the queue, which changes with every change to it.
    pub queue_version: u32,
    /// The number of songs in the queue.
    pub queue_len: u32,
    /// Whether the server plays, pauses or stands stopped.
    pub state: PlayState,
    /// The place of the current song, where there is one.
    pub song: Option<QueuePlace>,
    /// The time into the current song and its length.
    pub time: Option<(Span, Span)>,
    /// The length of the current song.
    pub duration: Option<Span>,
}

/// What the player reads of a song in the queue.
#[derive(Clone, Debug, PartialEq, Eq)]
pub struct Song {
    /// The song's file.
    pub file: String,
    /// Its title, where it has one.
    pub title: Option<String>,
    /// Its artist, where it has one.
    pub artist: Option<String>,
    /// Its length, where it is known.
    pub duration: Option<Span>,
    /// Its place in the queue.
    pub place: Option<QueuePlace>,
}

/// Whether two optional queue places are the same.
pub fn same_place(a: Option<QueuePlace>, b: Option<QueuePlace>) -> (r: bool)
    ensures
        r == (a == b),
{
    match (a, b) {
        (None, None) => true,
        (Some(x), Some(y)) => x.id == y.id && x.pos == y.pos && x.prio == y.prio,
        _ => false,
    }
}

/// A key of the keyboard, as far as the player tells keys apart.
#[derive(Clone, Copy, Debug, PartialEq, Eq, Structural)]
pub enum Key {
    Char(char),
    Up,
    Down,
    Left,
    Right,
    Other,
}

/// Whether a key went down, repeats or went up.
#[derive(Clone, Copy, Debug, PartialEq, Eq, Structural)]
pub enum KeyKind {
    Press,
    Repeat,
    Release,
}

/// The bit of the control key among the modifier bits of a key event.
pub const CONTROL: u8 = 0b0000_0010;

/// A key event: the key, the modifier keys held as bits, and its kind.
#[derive(Clone, Copy, Debug, PartialEq, Eq, Structural)]
pub struct KeyEvent {
    pub code: Key,
    pub modifiers: u8,
    pub kind: KeyKind,
}

impl KeyEvent {
    /// Whether the key went down.
    pub fn is_press(&self) -> (r: bool)
        ensures
            r == (self.kind == KeyKind::Press),
    {
        match self.kind {
            KeyKind::Press => true,
            _ => false,
        }
    }
}

/// An event of the terminal.
#[derive(Clone, Copy, Debug, PartialEq, Eq, Structural)]
pub enum InputEvent {
    Key(KeyEvent),
    Resize(u16, u16),
    Other,
}

/// A request to the music server.
#[derive(Clone, Copy, Debug, PartialEq, Eq)]
pub enum Command {
    Play,
    TogglePause,
    Next,
    Prev,
    SetVolume(i8),
    Seek(Span),
}

/// What the player records once every command of a plan has succeeded.
#[derive(Clone, Copy, Debug, PartialEq, Eq)]
pub enum Followup {
    Nothing,
    /// The server's state has changed: fetch it again.
    Refresh,
    /// The song now stands at this time.
    Seeked(Span),
}

/// The commands that an input asks of the server, in order, and what to record
/// once all of them have succeeded.
#[derive(Clone, Debug)]
pub struct Plan {
    pub commands: Vec<Command>,
    pub followup: Followup,
}

impl Plan {
    /// A plan with no command.
    pub fn none() -> (r: Plan)
        ensures
            r.commands@.len() == 0,
            r.followup is Nothing,
    {
        Plan { commands: Vec::new(), followup: Followup::Nothing }
    }
}

} // verus!
