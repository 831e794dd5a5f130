//! The application state and the input handler: a counter and a one-way exit
//! flag, driven by discrete key-press events.

use vstd::prelude::*;

verus! {

/// A key as the input handler sees it: the two arrow keys it reacts to, a
/// printable character, or anything else.
#[derive(Clone, Copy, Debug, PartialEq, Eq, Structural)]
pub enum Key {
    Left,
    Right,
    Char(char),
    Other,
}

/// One event as the main loop receives it: a key event carrying its code and
/// whether it is the initial press (as opposed to a release or an auto
/// repeat), or any other event (a resize, a paste, focus movement).
#[derive(Clone, Copy, Debug, PartialEq, Eq, Structural)]
pub enum LoopEvent {
    Key { code: Key, press: bool },
    NonKey,
}

/// The whole application state: an unsigned counter and a one-way exit flag.
#[derive(Clone, Copy, Debug, PartialEq, Eq, Structural)]
pub struct App {
    pub counter: u8,
    pub exit_requested: bool,
}

/// The counter after one increment: one more, wrapping at the top of `u8`.
pub open spec fn spec_inc(c: u8) -> u8 {
    if c == 255 {
        0
    } else {
        (c + 1) as u8
    }
}

/// The counter after one decrement: one less, wrapping at the bottom of `u8`.
pub open spec fn spec_dec(c: u8) -> u8 {
    if c == 0 {
        255
    } else {
        (c - 1) as u8
    }
}

/// The state after one key press: `Left` decrements, `Right` increments,
/// uppercase `Q` requests exit, every other key leaves the state unchanged.
pub open spec fn spec_handle_key(s: App, k: Key) -> App {
    match k {
        Key::Left => App { counter: spec_dec(s.counter), ..s },
        Key::Right => App { counter: spec_inc(s.counter), ..s },
        Key::Char(c) => if c == 'Q' {
            App { exit_requested: true, ..s }
        } else {
            s
        },
        Key::Other => s,
    }
}

/// The state after a sequence of key presses, applied left to right.
pub open spec fn spec_handle_keys(s: App, ks: Seq<Key>) -> App
    decreases ks.len(),
{
    if ks.len() == 0 {
        s
    } else {
        spec_handle_keys(spec_handle_key(s, ks[0]), ks.skip(1))
    }
}

/// The state after one event reaches the main loop: only the initial press of
/// a key is dispatched to the input handler; everything else is discarded.
pub open spec fn spec_handle_event(s: App, ev: LoopEvent) -> App {
    match ev {
        LoopEvent::Key { code, press } => if press {
            spec_handle_key(s, code)
        } else {
            s
        },
        LoopEvent::NonKey => s,
    }
}

/// One iteration of the main loop: once exit has been requested the loop has
/// stopped, so the state never changes again; otherwise the event is handled.
pub open spec fn spec_step(s: App, ev: LoopEvent) -> App {
    if s.exit_requested {
        s
    } else {
        spec_handle_event(s, ev)
    }
}

/// The state after the main loop has consumed a sequence of events, in order.
pub open spec fn spec_run(s: App, evs: Seq<LoopEvent>) -> App
    decreases evs.len(),
{
    if evs.len() == 0 {
        s
    } else {
        spec_run(spec_step(s, evs[0]), evs.skip(1))
    }
}

impl App {
    /// The initial state: counter at zero, exit not requested.
    pub fn new() -> (s: App)
        ensures
            s.counter == 0,
            !s.exit_requested,
    {
        App { counter: 0, exit_requested: false }
    }

    /// Mark the state as finished; the main loop stops at its next check.
    pub fn request_exit(&mut self)
        ensures
            final(self).exit_requested,
            final(self).counter == old(self).counter,
    {
        self.exit_requested = true;
    }

    /// Add one to the counter, wrapping at the top of `u8`.
    pub fn increment(&mut self)
        ensures
            final(self).counter == spec_inc(old(self).counter),
            final(self).exit_requested == old(self).exit_requested,
    {
        if self.counter == 255 {
            self.counter = 0;
        } else {
            self.counter = self.counter + 1;
        }
    }

    /// Subtract one from the counter, wrapping at the bottom of `u8`.
    pub fn decrement(&mut self)
        ensures
            final(self).counter == spec_dec(old(self).counter),
            final(self).exit_requested == old(self).exit_requested,
    {
        if self.counter == 0 {
            self.counter = 255;
        } else {
            self.counter = self.counter - 1;
        }
    }

    /// Apply one key press to the state.
    pub fn handle_key_event(&mut self, key: Key)
        ensures
            *final(self) == spec_handle_key(*old(self), key),
    {
        match key {
            Key::Char(c) => if c == 'Q' {
                self.request_exit();
            },
            Key::Left => self.decrement(),
            Key::Right => self.increment(),
            Key::Other => {},
        }
    }
}

impl App {
    /// The check the main loop makes at the top of each iteration: stop as
    /// soon as exit has been requested.
    pub fn should_exit(&self) -> (r: bool)
        ensures
            r == self.exit_requested,
    {
        self.exit_requested
    }

    /// Apply one event to the state: the initial press of a key goes to the
    /// input handler, every other event is discarded without effect.
    pub fn handle_event(&mut self, ev: LoopEvent)
        ensures
            *final(self) == spec_handle_event(*old(self), ev),
    {
        match ev {
            LoopEvent::Key { code, press } => if press {
                self.handle_key_event(code);
            },
            LoopEvent::NonKey => {},
        }
    }
}

impl Default for App {
    /// The same state as `App::new`: counter at zero, exit not requested.
    fn default() -> (s: App)
        ensures
            s.counter == 0,
            !s.exit_requested,
    {
        App::new()
    }
}

} // verus!
