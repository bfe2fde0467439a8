//! Debounced push buttons.
//!
//! A button sits on an input line with a pull-up: the line is high while
//! the button is up and low while it is held down. The raw line bounces, so
//! a button takes a new level for settled only after the line has shown it
//! for `DEBOUNCE_THRESHOLD` polls in a row.

use vstd::prelude::*;

verus! {

/// Number of polls in a row for which a line must disagree with its
/// settled level before the button settles at the new level.
pub const DEBOUNCE_THRESHOLD: u8 = 30;

/// What one poll of a button reports.
#[derive(Clone, Copy, Debug, PartialEq, Eq, Structural)]
pub enum PinState {
    /// The line settled low: the button became pressed.
    PinUp,
    /// The line settled high: the button became released.
    PinDown,
    /// The settled level did not change.
    Nothing,
}

/// The debounce state of one line, as contracts see it.
pub struct DebounceState {
    /// The settled level of the line: `true` for high.
    pub high: bool,
    /// How many polls in a row, up to now, saw the line at the other level.
    pub counter: nat,
}

impl DebounceState {
    /// The counter stays below the threshold: a line that reaches it
    /// settles at the other level and starts to count anew.
    pub open spec fn wf(self) -> bool {
        self.counter < DEBOUNCE_THRESHOLD
    }

    /// The state after one poll that sees the line at `sample`. A sample
    /// at the settled level clears the counter. A sample at the other level
    /// is counted, and the one that brings the counter to the threshold
    /// settles the line at the other level, with a cleared counter.
    pub open spec fn step(self, sample: bool) -> DebounceState {
        if sample == self.high {
            DebounceState { high: self.high, counter: 0 }
        } else if self.counter + 1 >= DEBOUNCE_THRESHOLD {
            DebounceState { high: !self.high, counter: 0 }
        } else {
            DebounceState { high: self.high, counter: self.counter + 1 }
        }
    }

    /// What one poll that sees the line at `sample` reports: the edge if
    /// this poll settles the line at the other level, and nothing
    /// otherwise.
    pub open spec fn report(self, sample: bool) -> PinState {
        if sample != self.high && self.counter + 1 >= DEBOUNCE_THRESHOLD {
            self.edge()
        } else {
            PinState::Nothing
        }
    }

    /// The edge that the line reports when it leaves its settled level:
    /// a line that was high settles low, which is a press, and a line that
    /// was low settles high, which is a release.
    pub open spec fn edge(self) -> PinState {
        if self.high {
            PinState::PinUp
        } else {
            PinState::PinDown
        }
    }

    /// The state after polling every sample of `samples`, first to last.
    pub open spec fn run(self, samples: Seq<bool>) -> DebounceState
        decreases samples.len(),
    {
        if samples.len() == 0 {
            self
        } else {
            self.run(samples.drop_last()).step(samples.last())
        }
    }

    /// What the polls of `samples` report, one entry for each sample.
    pub open spec fn reports(self, samples: Seq<bool>) -> Seq<PinState> {
        Seq::new(samples.len(), |i: int| self.run(samples.take(i)).report(samples[i]))
    }
}

#[derive(Clone, Copy)]
enum ButtonState {
    High(u8),
    Low(u8),
}

/// A push button, bound to the input line `P` that it is read from.
pub struct Button<P> {
    typ: P,
    state: ButtonState,
}

impl<P> View for Button<P> {
    type V = DebounceState;

    closed spec fn view(&self) -> DebounceState {
        match self.state {
            ButtonState::High(counter) => DebounceState { high: true, counter: counter as nat },
            ButtonState::Low(counter) => DebounceState { high: false, counter: counter as nat },
        }
    }
}

impl<P> Button<P> {
    #[verifier::type_invariant]
    spec fn counter_below_threshold(&self) -> bool {
        self@.wf()
    }

    /// The line that the button is bound to.
    pub closed spec fn line(&self) -> P {
        self.typ
    }

    /// A button on the line `typ`, settled high with nothing counted: the
    /// button is taken to be up.
    pub fn new(typ: P) -> (button: Self)
        ensures
            button@ == (DebounceState { high: true, counter: 0 }),
            button.line() == typ,
    {
        Button { typ, state: ButtonState::High(0u8) }
    }

    /// The line that the button is bound to.
    pub fn pin(&self) -> (line: &P)
        ensures
            *line == self.line(),
    {
        &self.typ
    }

    /// The settled level of the line: `true` for high.
    pub fn level(&self) -> (high: bool)
        ensures
            high == self@.high,
    {
        match self.state {
            ButtonState::High(_) => true,
            ButtonState::Low(_) => false,
        }
    }

    /// The counter of polls that disagreed with the settled level. It is
    /// always below the threshold.
    pub fn counter(&self) -> (counter: u8)
        ensures
            counter == self@.counter,
            self@.wf(),
    {
        proof {
            use_type_invariant(self);
        }
        match self.state {
            ButtonState::High(counter) => counter,
            ButtonState::Low(counter) => counter,
        }
    }

    /// One poll of the button, with the raw level of its line as read at
    /// this moment. To be called at a fixed period.
    pub fn polling(&mut self, raw_sample: bool) -> (report: PinState)
        ensures
            final(self)@ == old(self)@.step(raw_sample),
            report == old(self)@.report(raw_sample),
            final(self)@.wf(),
            final(self).line() == old(self).line(),
    {
        proof {
            use_type_invariant(&*self);
        }
        match self.state {
            ButtonState::High(counter) => {
                if raw_sample {
                    self.state = ButtonState::High(0);
                    PinState::Nothing
                } else if counter + 1 >= DEBOUNCE_THRESHOLD {
                    self.state = ButtonState::Low(0);
                    PinState::PinUp
                } else {
                    self.state = ButtonState::High(counter + 1);
                    PinState::Nothing
                }
            },
            ButtonState::Low(counter) => {
                if !raw_sample {
                    self.state = ButtonState::Low(0);
                    PinState::Nothing
                } else if counter + 1 >= DEBOUNCE_THRESHOLD {
                    self.state = ButtonState::High(0);
                    PinState::PinDown
                } else {
                    self.state = ButtonState::Low(counter + 1);
                    PinState::Nothing
                }
            },
        }
    }
}

} // verus!
