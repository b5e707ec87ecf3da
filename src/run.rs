//! The decisions of the loop that drives the clock: what each key does,
//! and the text of each frame. Drawing, polling for keys and the terminal
//! itself are left to the program around the library.
use crate::clock::{advanced_at, label_text, next_phase, ticked_at, Clock, ClockState};
use crate::countdown::{countdown_text, whole_seconds};
use vstd::prelude::*;

verus! {

/// How long the loop waits for a key before it draws again, in milliseconds.
pub const POLL_MILLIS: u64 = 250;

/// What a key asks of the loop.
#[derive(Clone, Copy, Debug, PartialEq, Eq, Structural)]
pub enum Command {
    /// Stop the loop.
    Quit,
    /// Switch to the other phase at once.
    Toggle,
    /// Nothing.
    Ignore,
}

/// The command that `key` stands for: `q` quits, space toggles.
pub open spec fn command_for(key: char) -> Command {
    if key == 'q' {
        Command::Quit
    } else if key == ' ' {
        Command::Toggle
    } else {
        Command::Ignore
    }
}

/// The command that `key` stands for.
pub fn command_of(key: char) -> (r: Command)
    ensures
        r == command_for(key),
{
    if key == 'q' {
        Command::Quit
    } else if key == ' ' {
        Command::Toggle
    } else {
        Command::Ignore
    }
}

/// A frame: the phase's label on one line, the drawn countdown below it.
pub fn frame_text(label: &str, drawing: &str) -> (r: String)
    ensures
        r@ == label@ + seq!['\n'] + drawing@,
{
    let mut s = String::from_str(label);
    proof {
        reveal_strlit("\n");
    }
    s.append("\n");
    s.append(drawing);
    s
}

/// Relies on `cfonts::render`: the countdown drawn in the block font. The
/// drawing depends on the terminal's width and on its colour support, so
/// nothing is stated of it.
#[verifier::external_body]
fn draw_block(text: &String) -> (r: String) {
    cfonts::render(
        cfonts::Options {
            text: text.clone(),
            font: cfonts::Fonts::FontBlock,
            ..cfonts::Options::default()
        },
    ).text
}

/// The loop's state: the clock it owns, and whether it goes on.
pub struct RunLoop {
    pub clock: Clock,
    pub running: bool,
}

impl RunLoop {
    /// A running loop around a clock that starts now in the work phase.
    pub fn new() -> (r: RunLoop)
        ensures
            r.running,
            r.clock.state == ClockState::Work,
            r.clock.start == 0,
    {
        RunLoop { clock: Clock::start(), running: true }
    }

    /// Handles `key`, pressed at reading `now`: `q` stops the loop, space
    /// switches the clock to the other phase, which begins then; any other
    /// key changes nothing.
    pub fn on_key_at(&mut self, key: char, now: u128)
        ensures
            command_for(key) == Command::Quit ==> {
                &&& !final(self).running
                &&& final(self).clock == old(self).clock
            },
            command_for(key) == Command::Toggle ==> {
                &&& final(self).running == old(self).running
                &&& final(self).clock == advanced_at(old(self).clock, now)
            },
            command_for(key) == Command::Ignore ==> *final(self) == *old(self),
    {
        match command_of(key) {
            Command::Quit => {
                self.running = false;
            },
            Command::Toggle => {
                self.clock.reset_at(now);
            },
            Command::Ignore => {},
        }
    }

    /// Handles `key`, pressed now.
    pub fn on_key(&mut self, key: char)
        ensures
            command_for(key) == Command::Quit ==> !final(self).running,
            command_for(key) == Command::Toggle ==> {
                &&& final(self).running == old(self).running
                &&& final(self).clock.state == next_phase(old(self).clock.state)
                &&& final(self).clock.start >= old(self).clock.start
            },
            command_for(key) == Command::Ignore ==> *final(self) == *old(self),
    {
        let now = self.clock.now();
        self.on_key_at(key, now);
    }

    /// The check and the countdown of one frame, at reading `now`: where the
    /// phase is over, the clock first moves on to the next one; the countdown
    /// is then what is left of the phase.
    pub fn countdown_at(&mut self, now: u128) -> (r: String)
        ensures
            final(self).running == old(self).running,
            final(self).clock == ticked_at(old(self).clock, now),
            final(self).clock.remaining_at(now as int) > 0,
            r@ == countdown_text(whole_seconds(final(self).clock.remaining_at(now as int))),
    {
        self.clock.tick_at(now);
        self.clock.left_at(now).countdown()
    }

    /// One frame at reading `now`: the check, then the phase's label above
    /// the countdown drawn in the block font.
    pub fn frame_at(&mut self, now: u128) -> (r: String)
        ensures
            final(self).running == old(self).running,
            final(self).clock == ticked_at(old(self).clock, now),
            r@.len() > label_text(final(self).clock.state).len(),
            r@.subrange(0, label_text(final(self).clock.state).len() as int) == label_text(
                final(self).clock.state,
            ),
            r@[label_text(final(self).clock.state).len() as int] == '\n',
    {
        let text = self.countdown_at(now);
        let drawing = draw_block(&text);
        let r = frame_text(self.clock.state.label(), drawing.as_str());
        assert(r@.subrange(0, label_text(self.clock.state).len() as int) =~= label_text(
            self.clock.state,
        ));
        r
    }

    /// One frame, now.
    pub fn frame(&mut self) -> (r: String)
        ensures
            final(self).running == old(self).running,
            final(self).clock.start >= old(self).clock.start,
            final(self).clock.state == old(self).clock.state || final(self).clock.state
                == next_phase(old(self).clock.state),
            r@.len() > label_text(final(self).clock.state).len(),
            r@.subrange(0, label_text(final(self).clock.state).len() as int) == label_text(
                final(self).clock.state,
            ),
            r@[label_text(final(self).clock.state).len() as int] == '\n',
    {
        let now = self.clock.now();
        self.frame_at(now)
    }
}

} // verus!
