use vstd::prelude::*;

use crate::app::App;
use crate::model::{
    same_place, Command, Followup, InputEvent, Key, KeyEvent, KeyKind, Plan, PlayState,
    QueuePlace, Song, Status,
};
use crate::time::{max_span, min_int, sub_or_zero, Span, NANOS_PER_SEC};

verus! {

/// After how many seconds the player fetches the server's state again
/// whatever happened.
pub const FULL_REFRESH_INTERVAL_SECS: u64 = 5;

/// The rows of the terminal that the rest of the screen takes; the queue view
/// has the others.
pub const RESERVED_ROWS: u16 = 17;

/// The player's state: what it last read of the server, when, what the
/// screen shows, and which parts of the screen are to be drawn again.
/// Points in time are spans from a fixed start.
pub struct AppData {
    pub status: Status,
    pub queue: Vec<Song>,
    pub last_queue_version: u32,
    pub last_status_update: Span,
    pub last_elapsed_time_change: Span,
    pub last_elapsed_time: Span,
    pub refresh_mpd: bool,
    /// The queue position at the top of the queue view.
    pub index: u32,
    pub volume: i8,
    pub redraw_screen: bool,
    pub redraw_status_line: bool,
    pub redraw_volume_bar: bool,
    pub redraw_time_bar: bool,
    pub last_time_bar_redraw: Span,
    pub redraw_queue: bool,
    /// The number of queue rows on the screen.
    pub queue_view_size: u16,
}

/// The time into the current song that a status gives, zero where it gives none.
pub open spec fn elapsed_part(time: Option<(Span, Span)>) -> Span {
    match time {
        Some((elapsed, _)) => elapsed,
        None => Span::empty(),
    }
}

/// The length of the current song that a status gives, zero where it gives none.
pub open spec fn total_part(time: Option<(Span, Span)>) -> int {
    match time {
        Some((_, total)) => total@,
        None => 0,
    }
}

/// `v` brought into `0..=100`.
pub open spec fn clamp_volume(v: int) -> int {
    if v < 0 {
        0
    } else if v > 100 {
        100
    } else {
        v
    }
}

/// The queue position to show at the top of a view of `view_size` rows so
/// that the song at `pos` stands a little above its middle.
pub open spec fn focus_index(pos: int, view_size: int) -> int {
    sub_or_zero(pos, view_size / 2 - 2)
}

/// The top of the queue view after moving `amount` rows from `index`, kept
/// within `0..=queue_len`; `index` is read as a signed 32-bit number.
pub open spec fn scroll_index(index: u32, amount: int, queue_len: int) -> int {
    let moved = (index as i32) as int + amount;
    let floor = if moved < 0 {
        0
    } else {
        moved
    };
    min_int(floor, queue_len)
}

/// Whether `scroll_index` can be computed in 32-bit arithmetic.
pub open spec fn scroll_fits(index: u32, amount: int) -> bool {
    i32::MIN <= (index as i32) as int + amount <= i32::MAX
}

/// Whether a view at `index` of `view_size` rows can follow the current song
/// from `previous` to `current` within the machine's arithmetic.
pub open spec fn follow_fits_with(
    index: u32,
    view_size: u16,
    current: Option<QueuePlace>,
    previous: Option<QueuePlace>,
) -> bool {
    previous != current ==> match (current, previous) {
        (Some(place), Some(prev)) => {
            let step = (place.pos as i32) as int - (prev.pos as i32) as int;
            &&& i32::MIN <= step <= i32::MAX
            &&& scroll_fits(index, step)
        },
        (Some(_), None) => view_size / 2 >= 2,
        _ => true,
    }
}

/// Whether a view at `index` can follow the current song from `previous` to
/// `current` with `view_size` rows.
pub fn follow_fits_check(
    index: u32,
    view_size: u16,
    current: Option<QueuePlace>,
    previous: Option<QueuePlace>,
) -> (r: bool)
    ensures
        r == follow_fits_with(index, view_size, current, previous),
{
    if same_place(previous, current) {
        return true;
    }
    match (current, previous) {
        (Some(place), Some(prev)) => match (place.pos as i32).checked_sub(prev.pos as i32) {
            Some(step) => (index as i32).checked_add(step).is_some(),
            None => false,
        },
        (Some(_), None) => view_size / 2 >= 2,
        _ => true,
    }
}

/// Whether the current song of `d` has a place within the queue.
pub open spec fn song_in_queue(d: AppData) -> bool {
    match d.status.song {
        Some(place) => place.pos < d.queue@.len(),
        None => true,
    }
}

/// Whether `c` is a key that quits the player.
pub open spec fn is_quit(c: char) -> bool {
    c == 'Q' || c == 'q'
}

impl AppData {
    /// The time into the current song at time `now`: while it plays, the
    /// last known time plus the time since it was learnt, at most the song's
    /// length; otherwise the last known time.
    pub open spec fn elapsed_at(self, now: int) -> int {
        if self.status.state == PlayState::Play {
            min_int(
                self.last_elapsed_time@ + sub_or_zero(now, self.last_elapsed_time_change@),
                total_part(self.status.time),
            )
        } else {
            self.last_elapsed_time@
        }
    }

    /// Whether the time into the current song can be computed at `now`
    /// without overflow.
    pub open spec fn elapsed_fits(self, now: int) -> bool {
        self.status.state == PlayState::Play ==> self.last_elapsed_time@ + sub_or_zero(
            now,
            self.last_elapsed_time_change@,
        ) <= max_span()
    }

    /// Whether the end of the current song can be checked at `now` without
    /// overflow: the time played is only summed while a song of known length
    /// plays.
    pub open spec fn end_check_fits(self, now: int) -> bool {
        (self.status.state == PlayState::Play && total_part(self.status.time) != 0)
            ==> self.last_elapsed_time@ + sub_or_zero(now, self.last_elapsed_time_change@)
            <= max_span()
    }

    /// Whether the current song has played to its end by `now`.
    pub open spec fn song_ended_at(self, now: int) -> bool {
        &&& self.status.state == PlayState::Play
        &&& total_part(self.status.time) != 0
        &&& self.last_elapsed_time@ + sub_or_zero(now, self.last_elapsed_time_change@)
            >= total_part(self.status.time)
    }

    /// The state after reading `status` from the server at `now`.
    pub open spec fn with_status(self, status: Status, now: Span) -> AppData {
        AppData {
            status,
            last_status_update: now,
            redraw_status_line: true,
            last_elapsed_time: elapsed_part(status.time),
            last_elapsed_time_change: now,
            volume: status.volume,
            redraw_volume_bar: self.redraw_volume_bar || self.volume != status.volume,
            ..self
        }
    }

    /// The state after reading the queue `queue` from the server: the view
    /// stays within the queue.
    pub open spec fn with_queue(self, queue: Vec<Song>) -> AppData {
        AppData {
            queue,
            last_queue_version: self.status.queue_version,
            redraw_queue: true,
            index: if queue@.len() == 0 {
                0
            } else {
                min_int(self.index as int, queue@.len() - 1) as u32
            },
            ..self
        }
    }

    /// The state after moving the queue view by `amount` rows.
    pub open spec fn scrolled(self, amount: int) -> AppData {
        AppData {
            index: scroll_index(self.index, amount, self.status.queue_len as int) as u32,
            redraw_queue: true,
            ..self
        }
    }

    /// The state after bringing the song at `pos` into the queue view.
    pub open spec fn focused(self, pos: u32) -> AppData {
        AppData {
            index: focus_index(pos as int, self.queue_view_size as int) as u32,
            redraw_queue: true,
            ..self
        }
    }

    /// The state after asking for volume `volume`.
    pub open spec fn with_volume(self, volume: int) -> AppData {
        AppData { volume: clamp_volume(volume) as i8, redraw_volume_bar: true, ..self }
    }

    /// The state after the current song moved from `previous` to where the
    /// status says.
    pub open spec fn followed(self, previous: Option<QueuePlace>) -> AppData {
        if previous == self.status.song {
            self
        } else {
            let marked = AppData {
                redraw_status_line: true,
                redraw_time_bar: true,
                redraw_queue: true,
                ..self
            };
            match (self.status.song, previous) {
                (Some(place), Some(prev)) => marked.scrolled(
                    (place.pos as i32) as int - (prev.pos as i32) as int,
                ),
                (Some(place), None) => marked.focused(place.pos),
                _ => marked,
            }
        }
    }

    /// Whether following the current song from `previous` stays within the
    /// machine's arithmetic.
    pub open spec fn follow_fits(self, previous: Option<QueuePlace>) -> bool {
        follow_fits_with(self.index, self.queue_view_size, self.status.song, previous)
    }

    /// The state after the server's state was read again at `now`: its
    /// status, its queue where that was read, no fetch asked for any more, and
    /// the view following the current song from where it was before.
    pub open spec fn refreshed(self, status: Status, queue: Option<Vec<Song>>, now: Span) -> AppData {
        let read = match queue {
            Some(q) => self.with_status(status, now).with_queue(q),
            None => self.with_status(status, now),
        };
        AppData { refresh_mpd: false, ..read }.followed(self.status.song)
    }

    /// Whether a refresh with `status` and `queue` is one the server's reads
    /// make, and stays within the machine's arithmetic: the queue was read
    /// exactly where its version changed, holds no more songs than a position
    /// can count, and the view can follow the song.
    pub open spec fn refresh_fits(self, status: Status, queue: Option<Vec<Song>>) -> bool {
        &&& (queue is Some <==> status.queue_version != self.last_queue_version)
        &&& match queue {
            Some(q) => q@.len() <= u32::MAX,
            None => true,
        }
        &&& follow_fits_with(
            match queue {
                Some(q) => (if q@.len() == 0 {
                    0
                } else {
                    min_int(self.index as int, q@.len() - 1)
                }) as u32,
                None => self.index,
            },
            self.queue_view_size,
            status.song,
            self.status.song,
        )
    }

    /// The state once every command of a plan has succeeded at `now`.
    pub open spec fn after_commands(self, followup: Followup, now: Span) -> AppData {
        match followup {
            Followup::Nothing => self,
            Followup::Refresh => AppData { refresh_mpd: true, ..self },
            Followup::Seeked(pos) => AppData {
                last_elapsed_time: pos,
                last_elapsed_time_change: now,
                redraw_time_bar: true,
                ..self
            },
        }
    }

    /// The player's state at `now`, from the server's status and queue and
    /// the height of the terminal.
    pub fn new(status: Status, queue: Vec<Song>, term_height: u16, now: Span) -> (r: AppData)
        ensures
            r.status == status,
            r.queue == queue,
            r.last_queue_version == status.queue_version,
            r.last_status_update == now,
            r.last_elapsed_time_change == now,
            r.last_elapsed_time == elapsed_part(status.time),
            !r.refresh_mpd,
            r.queue_view_size == sub_or_zero(term_height as int, RESERVED_ROWS as int),
            r.index == sub_or_zero(
                match status.song {
                    Some(place) => place.pos as int,
                    None => 0,
                },
                sub_or_zero(r.queue_view_size as int / 2, 2),
            ),
            r.volume == status.volume,
            r.redraw_screen,
            !r.redraw_status_line,
            !r.redraw_volume_bar,
            !r.redraw_time_bar,
            r.last_time_bar_redraw == now,
            !r.redraw_queue,
    {
        let queue_view_size = term_height.saturating_sub(RESERVED_ROWS);
        let pos = match status.song {
            Some(place) => place.pos,
            None => 0,
        };
        let index = pos.saturating_sub(((queue_view_size as u32) / 2).saturating_sub(2));
        let elapsed_time = match status.time {
            Some((elapsed, _)) => elapsed,
            None => Span::zero(),
        };
        AppData {
            status,
            queue,
            last_queue_version: status.queue_version,
            last_status_update: now,
            last_elapsed_time_change: now,
            last_elapsed_time: elapsed_time,
            refresh_mpd: false,
            index,
            volume: status.volume,
            redraw_screen: true,
            redraw_status_line: false,
            redraw_volume_bar: false,
            redraw_time_bar: false,
            last_time_bar_redraw: now,
            redraw_queue: false,
            queue_view_size,
        }
    }

    /// Records the status read from the server at `now`; returns whether the
    /// queue has changed since it was last read, so that it is to be read too.
    pub fn fetch_status(&mut self, status: Status, now: Span) -> (queue_changed: bool)
        ensures
            *final(self) == old(self).with_status(status, now),
            queue_changed == (status.queue_version != old(self).last_queue_version),
            final(self).status == status,
            final(self).last_elapsed_time@ == (match status.time {
                Some((elapsed, _)) => elapsed@,
                None => 0,
            }),
            final(self).last_elapsed_time_change == now,
            final(self).last_status_update == now,
    {
        self.status = status;
        self.last_status_update = now;
        self.redraw_status_line = true;
        self.last_elapsed_time = match status.time {
            Some((elapsed, _)) => elapsed,
            None => Span::zero(),
        };
        self.last_elapsed_time_change = now;
        if self.volume != status.volume {
            self.volume = status.volume;
            self.redraw_volume_bar = true;
        }
        status.queue_version != self.last_queue_version
    }

    /// Records the queue read from the server, and keeps the view within it.
    pub fn fetch_queue(&mut self, queue: Vec<Song>)
        requires
            queue@.len() <= u32::MAX,
        ensures
            *final(self) == old(self).with_queue(queue),
    {
        let max = queue.len() as u32;
        self.queue = queue;
        self.last_queue_version = self.status.queue_version;
        self.redraw_queue = true;
        self.index = if max == 0 {
            0
        } else {
            if self.index < max - 1 {
                self.index
            } else {
                max - 1
            }
        };
    }

    /// Records that the server's state has been read again.
    pub fn fetch_done(&mut self)
        ensures
            *final(self) == (AppData { refresh_mpd: false, ..*old(self) }),
    {
        self.refresh_mpd = false;
    }

    /// The current song, where there is one.
    pub fn get_current_song(&self) -> (r: Option<&Song>)
        requires
            song_in_queue(*self),
        ensures
            r == (match self.status.song {
                Some(place) => Some(&self.queue@[place.pos as int]),
                None => None,
            }),
    {
        match self.status.song {
            Some(place) => Some(&self.queue[place.pos as usize]),
            None => None,
        }
    }

    /// The length of the current song, zero where it is not known.
    pub fn get_total(&self) -> (r: Span)
        ensures
            r@ == total_part(self.status.time),
    {
        match self.status.time {
            Some((_, total)) => total,
            None => Span::zero(),
        }
    }

    /// Whether the time into the current song can be computed at `now`.
    pub fn elapsed_fits_at(&self, now: Span) -> (r: bool)
        ensures
            r == self.elapsed_fits(now@),
    {
        match self.status.state {
            PlayState::Play => {
                let since_update = now.saturating_sub(self.last_elapsed_time_change);
                self.last_elapsed_time.checked_add(since_update).is_some()
            },
            _ => true,
        }
    }

    /// Whether the end of the current song can be checked at `now`.
    pub fn end_check_fits_at(&self, now: Span) -> (r: bool)
        ensures
            r == self.end_check_fits(now@),
    {
        if self.get_total().is_zero() {
            return true;
        }
        self.elapsed_fits_at(now)
    }

    /// The time into the current song at `now`.
    pub fn compute_elapsed(&self, now: Span) -> (r: Span)
        requires
            self.elapsed_fits(now@),
        ensures
            r@ == self.elapsed_at(now@),
    {
        match self.status.state {
            PlayState::Play => {
                let since_update = now.saturating_sub(self.last_elapsed_time_change);
                self.last_elapsed_time.add(since_update).min(self.get_total())
            },
            _ => self.last_elapsed_time,
        }
    }

    /// Whether the current song has played to its end by `now`.
    pub fn is_song_ended(&self, now: Span) -> (r: bool)
        requires
            self.end_check_fits(now@),
        ensures
            r == self.song_ended_at(now@),
    {
        match self.status.state {
            PlayState::Play => {},
            _ => {
                return false;
            },
        }
        let total = self.get_total();
        if total.is_zero() {
            return false;
        }
        let since_update = now.saturating_sub(self.last_elapsed_time_change);
        let raw_elapsed = self.last_elapsed_time.add(since_update);
        !raw_elapsed.shorter_than(&total)
    }

    /// Asks for volume `volume`, brought into `0..=100`; returns the volume to
    /// send to the server.
    pub fn set_volume(&mut self, volume: i8) -> (sent: i8)
        ensures
            *final(self) == old(self).with_volume(volume as int),
            sent == clamp_volume(volume as int),
    {
        self.volume = if volume < 0 {
            0
        } else if volume > 100 {
            100
        } else {
            volume
        };
        self.redraw_volume_bar = true;
        self.volume
    }

    /// Asks for the volume moved by `change`; returns the volume to send.
    pub fn change_volume(&mut self, change: i8) -> (sent: i8)
        requires
            i8::MIN <= old(self).volume + change <= i8::MAX,
        ensures
            *final(self) == old(self).with_volume(old(self).volume + change),
            sent == clamp_volume(old(self).volume + change),
    {
        self.set_volume(self.volume + change)
    }

    /// The plan that moves the current song to `pos`: nothing while the
    /// server stands stopped.
    pub fn set_pos(&self, pos: Span) -> (r: Plan)
        ensures
            self.status.state == PlayState::Stop ==> r.commands@.len() == 0
                && r.followup is Nothing,
            self.status.state != PlayState::Stop ==> r.commands@ == seq![Command::Seek(pos)]
                && r.followup == Followup::Seeked(pos),
    {
        match self.status.state {
            PlayState::Stop => Plan::none(),
            _ => {
                let mut commands = Vec::new();
                commands.push(Command::Seek(pos));
                Plan { commands, followup: Followup::Seeked(pos) }
            },
        }
    }

    /// The time `seconds` away from the time into the current song at `now`,
    /// not before the start of the song.
    pub open spec fn moved_pos(self, seconds: int, now: int) -> int {
        if seconds >= 0 {
            self.elapsed_at(now) + seconds * (NANOS_PER_SEC as int)
        } else {
            sub_or_zero(self.elapsed_at(now), (-seconds) * (NANOS_PER_SEC as int))
        }
    }

    /// Whether moving `seconds` at `now` stays within the machine's arithmetic.
    pub open spec fn move_fits(self, seconds: int, now: int) -> bool {
        &&& self.elapsed_fits(now)
        &&& seconds > i32::MIN
        &&& seconds >= 0 ==> self.elapsed_at(now) + seconds * (NANOS_PER_SEC as int)
            <= max_span()
    }

    /// Whether moving `seconds` at `now` stays within the machine's arithmetic.
    pub fn move_fits_at(&self, seconds: i32, now: Span) -> (r: bool)
        ensures
            r == self.move_fits(seconds as int, now@),
    {
        if seconds == i32::MIN || !self.elapsed_fits_at(now) {
            return false;
        }
        if seconds < 0 {
            return true;
        }
        self.compute_elapsed(now).checked_add(Span::from_secs(seconds as u64)).is_some()
    }

    /// Whether moving the queue view by `amount` rows stays within 32-bit
    /// arithmetic.
    pub fn scroll_fits_by(&self, amount: i32) -> (r: bool)
        ensures
            r == scroll_fits(self.index, amount as int),
    {
        (self.index as i32).checked_add(amount).is_some()
    }

    /// Whether following the current song from `previous` stays within the
    /// machine's arithmetic.
    pub fn follow_fits_at(&self, previous: Option<QueuePlace>) -> (r: bool)
        ensures
            r == self.follow_fits(previous),
    {
        follow_fits_check(self.index, self.queue_view_size, self.status.song, previous)
    }

    /// The plan that moves the current song `seconds` away from where it
    /// stands at `now`.
    pub fn move_pos(&self, seconds: i32, now: Span) -> (r: Plan)
        requires
            self.move_fits(seconds as int, now@),
        ensures
            self.status.state == PlayState::Stop ==> r.commands@.len() == 0
                && r.followup is Nothing,
            self.status.state != PlayState::Stop ==> exists|pos: Span|
                pos@ == self.moved_pos(seconds as int, now@) && r.commands@ == seq![
                    Command::Seek(pos),
                ] && r.followup == Followup::Seeked(pos),
    {
        let current = self.compute_elapsed(now);
        let new_pos = if seconds >= 0 {
            current.add(Span::from_secs(seconds as u64))
        } else {
            current.saturating_sub(Span::from_secs((-seconds) as u64))
        };
        self.set_pos(new_pos)
    }

    /// The plan for the play/pause key: start playing where the server stands
    /// stopped, else toggle pause; then fetch the state again.
    pub fn handle_space(&self) -> (r: Plan)
        ensures
            r.commands@ == (if self.status.state == PlayState::Stop {
                seq![Command::Play]
            } else {
                seq![Command::TogglePause]
            }),
            r.followup == Followup::Refresh,
    {
        let mut commands = Vec::new();
        match self.status.state {
            PlayState::Stop => commands.push(Command::Play),
            _ => commands.push(Command::TogglePause),
        }
        Plan { commands, followup: Followup::Refresh }
    }

    /// The commands that skip to `skip`: nothing on an empty queue; start
    /// playing first where the server stands stopped.
    pub open spec fn skip_commands(self, skip: Command) -> Seq<Command> {
        if self.queue@.len() == 0 {
            seq![]
        } else if self.status.state == PlayState::Stop {
            seq![Command::Play, skip]
        } else {
            seq![skip]
        }
    }

    fn skip_plan(&self, skip: Command) -> (r: Plan)
        ensures
            r.commands@ == self.skip_commands(skip),
            r.followup == (if self.queue@.len() == 0 {
                Followup::Nothing
            } else {
                Followup::Refresh
            }),
    {
        if self.queue.len() == 0 {
            return Plan::none();
        }
        let mut commands = Vec::new();
        match self.status.state {
            PlayState::Stop => commands.push(Command::Play),
            _ => {},
        }
        commands.push(skip);
        Plan { commands, followup: Followup::Refresh }
    }

    /// The plan for the next song.
    pub fn next(&self) -> (r: Plan)
        ensures
            r.commands@ == self.skip_commands(Command::Next),
            r.followup == (if self.queue@.len() == 0 {
                Followup::Nothing
            } else {
                Followup::Refresh
            }),
    {
        self.skip_plan(Command::Next)
    }

    /// The plan for the previous song.
    pub fn prev(&self) -> (r: Plan)
        ensures
            r.commands@ == self.skip_commands(Command::Prev),
            r.followup == (if self.queue@.len() == 0 {
                Followup::Nothing
            } else {
                Followup::Refresh
            }),
    {
        self.skip_plan(Command::Prev)
    }

    /// Records that every command of a plan succeeded at `now`.
    pub fn commands_done(&mut self, followup: Followup, now: Span)
        ensures
            *final(self) == old(self).after_commands(followup, now),
    {
        match followup {
            Followup::Nothing => {},
            Followup::Refresh => {
                self.refresh_mpd = true;
            },
            Followup::Seeked(pos) => {
                self.last_elapsed_time = pos;
                self.last_elapsed_time_change = now;
                self.redraw_time_bar = true;
            },
        }
    }

    /// Moves the queue view by `amount` rows, within the queue.
    pub fn scroll(&mut self, amount: i32)
        requires
            scroll_fits(old(self).index, amount as int),
        ensures
            *final(self) == old(self).scrolled(amount as int),
    {
        let moved: i32 = (self.index as i32) + amount;
        let floor: u32 = if moved < 0 {
            0
        } else {
            moved as u32
        };
        self.index = if floor < self.status.queue_len {
            floor
        } else {
            self.status.queue_len
        };
        self.redraw_queue = true;
    }

    /// Brings the song at `pos` into the queue view.
    pub fn focus(&mut self, pos: u32)
        requires
            old(self).queue_view_size / 2 >= 2,
        ensures
            *final(self) == old(self).focused(pos),
    {
        let total = self.queue_view_size as u32;
        self.index = pos.saturating_sub(total / 2 - 2);
        self.redraw_queue = true;
    }

    /// Whether the server's state is to be read again at `now`: when it was
    /// last read more than the refresh interval ago, when the current song has
    /// ended, or when something asked for it.
    pub open spec fn refresh_due(self, now: int) -> bool {
        ||| self.refresh_mpd
        ||| sub_or_zero(now, self.last_status_update@) > (FULL_REFRESH_INTERVAL_SECS as int) * (
        NANOS_PER_SEC as int)
        ||| self.song_ended_at(now)
    }

    /// Decides at `now` whether the server's state is to be read again, and
    /// records the decision.
    pub fn needs_refresh(&mut self, now: Span) -> (r: bool)
        requires
            old(self).end_check_fits(now@),
        ensures
            r == old(self).refresh_due(now@),
            *final(self) == (AppData { refresh_mpd: r, ..*old(self) }),
            old(self).refresh_mpd ==> r,
    {
        let since = now.saturating_sub(self.last_status_update);
        if Span::from_secs(FULL_REFRESH_INTERVAL_SECS).shorter_than(&since) {
            self.refresh_mpd = true;
        }
        if self.is_song_ended(now) {
            self.refresh_mpd = true;
        }
        self.refresh_mpd
    }

    /// Whether the queue the server holds under `status` is another than the
    /// one last read, so that it is to be read too.
    pub fn queue_outdated(&self, status: &Status) -> (r: bool)
        ensures
            r == (status.queue_version != self.last_queue_version),
    {
        status.queue_version != self.last_queue_version
    }

    /// Whether a refresh with `status` and `queue` can be recorded.
    pub fn refresh_fits_at(&self, status: &Status, queue: &Option<Vec<Song>>) -> (r: bool)
        ensures
            r == self.refresh_fits(*status, *queue),
    {
        let outdated = status.queue_version != self.last_queue_version;
        if outdated != queue.is_some() {
            return false;
        }
        let index = match queue {
            Some(q) => {
                if q.len() > u32::MAX as usize {
                    return false;
                }
                if q.len() == 0 {
                    0
                } else if (self.index as usize) < q.len() - 1 {
                    self.index
                } else {
                    (q.len() - 1) as u32
                }
            },
            None => self.index,
        };
        follow_fits_check(index, self.queue_view_size, status.song, self.status.song)
    }

    /// Records a refresh of the server's state at `now`: the status read,
    /// the queue where it was read because its version changed, then follows
    /// the current song from where it was before.
    pub fn complete_refresh(&mut self, status: Status, queue: Option<Vec<Song>>, now: Span)
        requires
            old(self).refresh_fits(status, queue),
        ensures
            *final(self) == old(self).refreshed(status, queue, now),
    {
        let previous = self.status.song;
        self.fetch_status(status, now);
        match queue {
            Some(q) => self.fetch_queue(q),
            None => {},
        }
        self.fetch_done();
        self.follow_song(previous);
    }

    /// After the server's state was read again: where the current song is
    /// another than at `previous`, marks the song's parts of the screen for
    /// drawing and moves the queue view with the song.
    pub fn follow_song(&mut self, previous: Option<QueuePlace>)
        requires
            old(self).follow_fits(previous),
        ensures
            *final(self) == old(self).followed(previous),
    {
        if !same_place(previous, self.status.song) {
            self.redraw_status_line = true;
            self.redraw_time_bar = true;
            self.redraw_queue = true;
            match self.status.song {
                Some(place) => match previous {
                    Some(prev) => {
                        let step: i32 = (place.pos as i32) - (prev.pos as i32);
                        self.scroll(step);
                    },
                    None => {
                        self.focus(place.pos);
                    },
                },
                None => {},
            }
        }
    }
}

/// Whether a key's digit can stand for a tenth of the song: `0` to `9`.
pub open spec fn is_digit(c: char) -> bool {
    '0' <= c <= '9'
}

/// Whether `handle_key_press` can act on `code` at `now` within the
/// machine's arithmetic.
pub open spec fn key_fits(d: AppData, code: Key, now: int) -> bool {
    match code {
        Key::Char(c) => if c == '-' || c == '_' {
            i8::MIN <= d.volume - 5
        } else if c == '+' || c == '=' {
            d.volume + 5 <= i8::MAX
        } else if c == 'g' || c == 'G' {
            d.status.song is Some ==> d.queue_view_size / 2 >= 2
        } else if is_quit(c) || c == ' ' || c == 'n' || c == 'N' || c == 'b' || c == 'B' {
            true
        } else if is_digit(c) {
            match d.status.duration {
                Some(length) => crate::time::secs_of(length@ * (c as int - 48)) <= u64::MAX,
                None => true,
            }
        } else {
            true
        },
        Key::Up => scroll_fits(d.index, -1),
        Key::Down => scroll_fits(d.index, 1),
        Key::Left => d.move_fits(-10, now),
        Key::Right => d.move_fits(10, now),
        Key::Other => true,
    }
}

/// Whether `handle_key_press` can act on `code` at `now`.
pub fn key_fits_at(d: &AppData, code: Key, now: Span) -> (r: bool)
    ensures
        r == key_fits(*d, code, now@),
{
    match code {
        Key::Char(c) => if c == '-' || c == '_' {
            d.volume >= i8::MIN + 5
        } else if c == '+' || c == '=' {
            d.volume <= i8::MAX - 5
        } else if c == 'g' || c == 'G' {
            d.status.song.is_none() || d.queue_view_size / 2 >= 2
        } else if c == 'Q' || c == 'q' || c == ' ' || c == 'n' || c == 'N' || c == 'b' || c == 'B' {
            true
        } else if '0' <= c && c <= '9' {
            match d.status.duration {
                Some(length) => length.checked_mul((c as u32) - 48).is_some(),
                None => true,
            }
        } else {
            true
        },
        Key::Up => d.scroll_fits_by(-1),
        Key::Down => d.scroll_fits_by(1),
        Key::Left => d.move_fits_at(-10, now),
        Key::Right => d.move_fits_at(10, now),
        Key::Other => true,
    }
}

/// Whether `after` and a plan of `commands` and `followup` are what a press
/// of `code` at `now` makes of `before`. The quit keys stop the application;
/// the play key plays or toggles pause; the volume keys move the volume by
/// five; `n` and `b` skip; `g` brings the current song into view; the arrows
/// scroll the view and seek ten seconds; a digit seeks to that many tenths of
/// the song; any other key does nothing.
pub open spec fn key_press_outcome(
    before: App<AppData>,
    code: Key,
    now: Span,
    after: App<AppData>,
    commands: Seq<Command>,
    followup: Followup,
) -> bool {
    let d = before.data;
    let seek_or_nothing = |target: int|
        if d.status.state == PlayState::Stop {
            commands.len() == 0 && followup is Nothing
        } else {
            exists|pos: Span|
                pos@ == target && commands == seq![Command::Seek(pos)] && followup
                    == Followup::Seeked(pos)
        };
    &&& after.term_size == before.term_size
    &&& after.should_exit == (before.should_exit || (code matches Key::Char(c) && is_quit(c)))
    &&& match code {
        Key::Char(c) => if is_quit(c) {
            after.data == d && commands.len() == 0 && followup is Nothing
        } else if c == ' ' {
            after.data == d && commands == (if d.status.state == PlayState::Stop {
                seq![Command::Play]
            } else {
                seq![Command::TogglePause]
            }) && followup == Followup::Refresh
        } else if c == '-' || c == '_' || c == '+' || c == '=' {
            let change = if c == '-' || c == '_' {
                -5int
            } else {
                5int
            };
            after.data == d.with_volume(d.volume + change) && commands == seq![
                Command::SetVolume(clamp_volume(d.volume + change) as i8),
            ] && followup is Nothing
        } else if c == 'n' || c == 'N' || c == 'b' || c == 'B' {
            after.data == d && commands == d.skip_commands(
                if c == 'n' || c == 'N' {
                    Command::Next
                } else {
                    Command::Prev
                },
            ) && followup == (if d.queue@.len() == 0 {
                Followup::Nothing
            } else {
                Followup::Refresh
            })
        } else if c == 'g' || c == 'G' {
            commands.len() == 0 && followup is Nothing && after.data == (match d.status.song {
                Some(place) => d.focused(place.pos),
                None => d,
            })
        } else if is_digit(c) {
            after.data == d && match d.status.duration {
                Some(length) => seek_or_nothing(
                    crate::time::div_span(length@ * (c as int - 48), 10),
                ),
                None => commands.len() == 0 && followup is Nothing,
            }
        } else {
            after.data == d && commands.len() == 0 && followup is Nothing
        },
        Key::Up => after.data == d.scrolled(-1) && commands.len() == 0 && followup is Nothing,
        Key::Down => after.data == d.scrolled(1) && commands.len() == 0 && followup is Nothing,
        Key::Left => after.data == d && seek_or_nothing(d.moved_pos(-10, now@)),
        Key::Right => after.data == d && seek_or_nothing(d.moved_pos(10, now@)),
        Key::Other => after.data == d && commands.len() == 0 && followup is Nothing,
    }
}

/// What a key press does to the player at `now`, and the plan it makes.
pub fn handle_key_press(app: &mut App<AppData>, event: KeyEvent, now: Span) -> (r: Plan)
    requires
        key_fits(old(app).data, event.code, now@),
    ensures
        key_press_outcome(*old(app), event.code, now, *final(app), r.commands@, r.followup),
{
    match event.code {
        Key::Char(c) => {
            if c == 'Q' || c == 'q' {
                app.exit();
                Plan::none()
            } else if c == ' ' {
                app.data.handle_space()
            } else if c == '-' || c == '_' {
                let sent = app.data.change_volume(-5);
                let mut commands = Vec::new();
                commands.push(Command::SetVolume(sent));
                Plan { commands, followup: Followup::Nothing }
            } else if c == '+' || c == '=' {
                let sent = app.data.change_volume(5);
                let mut commands = Vec::new();
                commands.push(Command::SetVolume(sent));
                Plan { commands, followup: Followup::Nothing }
            } else if c == 'n' || c == 'N' {
                app.data.next()
            } else if c == 'b' || c == 'B' {
                app.data.prev()
            } else if c == 'g' || c == 'G' {
                match app.data.status.song {
                    Some(place) => app.data.focus(place.pos),
                    None => {},
                }
                Plan::none()
            } else if '0' <= c && c <= '9' {
                match app.data.status.duration {
                    Some(length) => {
                        let part = (c as u32) - 48;
                        app.data.set_pos(length.mul(part).div(10))
                    },
                    None => Plan::none(),
                }
            } else {
                Plan::none()
            }
        },
        Key::Up => {
            app.data.scroll(-1);
            Plan::none()
        },
        Key::Down => {
            app.data.scroll(1);
            Plan::none()
        },
        Key::Left => app.data.move_pos(-10, now),
        Key::Right => app.data.move_pos(10, now),
        Key::Other => Plan::none(),
    }
}

/// What the player makes of a terminal event at `now`: a key going down is
/// handled as a key press, a resize marks the whole screen for drawing.
pub fn event_handler(app: &mut App<AppData>, event: InputEvent, now: Span) -> (r: Plan)
    requires
        match event {
            InputEvent::Key(k) => k.kind == KeyKind::Press ==> key_fits(old(app).data, k.code, now@),
            _ => true,
        },
    ensures
        final(app).term_size == old(app).term_size,
        match event {
            InputEvent::Key(k) => if k.kind == KeyKind::Press {
                key_press_outcome(*old(app), k.code, now, *final(app), r.commands@, r.followup)
            } else {
                *final(app) == *old(app) && r.commands@.len() == 0 && r.followup is Nothing
            },
            InputEvent::Resize(_, _) => final(app).data == (AppData {
                redraw_screen: true,
                ..old(app).data
            }) && final(app).should_exit == old(app).should_exit && r.commands@.len() == 0
                && r.followup is Nothing,
            InputEvent::Other => *final(app) == *old(app) && r.commands@.len() == 0
                && r.followup is Nothing,
        },
{
    match event {
        InputEvent::Key(key) => {
            if key.is_press() {
                handle_key_press(app, key, now)
            } else {
                Plan::none()
            }
        },
        InputEvent::Resize(_, _) => {
            app.data.redraw_screen = true;
            Plan::none()
        },
        InputEvent::Other => Plan::none(),
    }
}

} // verus!
