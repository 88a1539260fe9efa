use vstd::prelude::*;

use crate::model::{InputEvent, Key, KeyEvent, KeyKind, CONTROL};
use crate::time::Span;

verus! {

/// How many times a second the screen is brought up to date.
pub const UPDATES_PER_SECOND: u64 = 10;

/// The time of one frame: a second shared by the updates.
pub open spec fn frame_delay() -> int {
    1_000_000_000int / (UPDATES_PER_SECOND as int)
}

/// A terminal application around data of type `T`: whether it is to stop,
/// its data and the terminal's size in columns and rows.
pub struct App<T> {
    /// Set once the application is asked to stop; read through `should_exit`.
    pub should_exit: bool,
    pub data: T,
    pub term_size: (u16, u16),
}

/// Whether a key event asks to quit: control held alone with `c` or `q`,
/// on the key going down.
pub open spec fn is_quit_key(key: KeyEvent) -> bool {
    &&& key.kind == KeyKind::Press
    &&& key.modifiers == CONTROL
    &&& (key.code == Key::Char('c') || key.code == Key::Char('q'))
}

impl<T> App<T> {
    /// Whether the application is to stop.
    pub open spec fn exiting(&self) -> bool {
        self.should_exit
    }

    /// A running application around `data`, on a terminal of `term_size`.
    pub fn new(data: T, term_size: (u16, u16)) -> (r: App<T>)
        ensures
            !r.exiting(),
            r.data == data,
            r.term_size == term_size,
    {
        App { should_exit: false, data, term_size }
    }

    /// Asks the application to stop; nothing else changes.
    pub fn exit(&mut self)
        ensures
            final(self).exiting(),
            final(self).data == old(self).data,
            final(self).term_size == old(self).term_size,
    {
        self.should_exit = true;
    }

    /// Whether the application is to stop.
    pub fn should_exit(&self) -> (r: bool)
        ensures
            r == self.exiting(),
    {
        self.should_exit
    }

    /// What the application itself makes of a terminal event before the
    /// data's own handler sees it: a quit key stops it, a resize records the
    /// new size; nothing else changes.
    pub fn observe_event(&mut self, event: &InputEvent)
        ensures
            final(self).data == old(self).data,
            final(self).exiting() == (old(self).exiting() || (match *event {
                InputEvent::Key(k) => is_quit_key(k),
                _ => false,
            })),
            final(self).term_size == (match *event {
                InputEvent::Resize(w, h) => (w, h),
                _ => old(self).term_size,
            }),
    {
        match *event {
            InputEvent::Key(key) => {
                if key.is_press() && key.modifiers == CONTROL && (match key.code {
                    Key::Char(c) => c == 'c' || c == 'q',
                    _ => false,
                }) {
                    self.exit();
                }
            },
            InputEvent::Resize(w, h) => {
                self.term_size = (w, h);
            },
            InputEvent::Other => {},
        }
    }
}

/// How long to wait after a frame whose work took `elapsed`, so that a frame
/// lasts `frame_delay`; nothing where the work took that long already.
pub fn frame_pause(elapsed: Span) -> (r: Option<Span>)
    ensures
        elapsed@ < frame_delay() ==> (r matches Some(p) && p@ == frame_delay() - elapsed@),
        elapsed@ >= frame_delay() ==> r is None,
{
    let delay = Span::from_nanos(1_000_000_000u64 / UPDATES_PER_SECOND);
    if elapsed.shorter_than(&delay) {
        Some(delay.saturating_sub(elapsed))
    } else {
        None
    }
}

} // verus!
