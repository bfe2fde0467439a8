//! The two recurring tasks: the poller, which turns raw samples into
//! events, and the dispatcher, which turns an event into a step of the menu
//! and the side effects that go with it.

use vstd::prelude::*;
use crate::buttons::{Button, DebounceState, PinState};
use crate::ui::{draw_menu, Frame, MenuFSM, Msg};

verus! {

/// Time from one run of the poller to the next, in milliseconds.
pub const POLL_PERIOD_MS: u64 = 10;

/// What one run of the poller asks of the scheduler.
#[derive(Clone, Copy, Debug, PartialEq, Eq)]
pub struct Reaction {
    /// The events to hand to the dispatcher, first to last. There is one
    /// slot for each button, in the order in which the buttons are polled:
    /// Up, Down, Enter.
    pub events: [Option<Msg>; 3],
    /// The delay, in milliseconds, after which the poller runs again.
    pub next_poll_ms: u64,
}

/// The event that a poll raises for the button named by `msg`: the poll of
/// `sample` in state `state` raises it when it reports that the button
/// became pressed, and nothing otherwise.
pub open spec fn raised(state: DebounceState, sample: bool, msg: Msg) -> Option<Msg> {
    if state.report(sample) == PinState::PinUp {
        Some(msg)
    } else {
        None
    }
}

/// One run of the poller: polls the three buttons, in the order Up, Down,
/// Enter, with the raw level of each line, raises one event for each
/// button that became pressed, and asks to run again after the poll
/// period, whatever the samples were.
pub fn react<U, D, E>(
    button_up: &mut Button<U>,
    button_down: &mut Button<D>,
    button_enter: &mut Button<E>,
    up: bool,
    down: bool,
    enter: bool,
) -> (reaction: Reaction)
    ensures
        final(button_up)@ == old(button_up)@.step(up),
        final(button_down)@ == old(button_down)@.step(down),
        final(button_enter)@ == old(button_enter)@.step(enter),
        final(button_up).line() == old(button_up).line(),
        final(button_down).line() == old(button_down).line(),
        final(button_enter).line() == old(button_enter).line(),
        reaction.events@ == seq![
            raised(old(button_up)@, up, Msg::Up),
            raised(old(button_down)@, down, Msg::Down),
            raised(old(button_enter)@, enter, Msg::Enter),
        ],
        reaction.next_poll_ms == POLL_PERIOD_MS,
{
    let mut events: [Option<Msg>; 3] = [None, None, None];
    if let PinState::PinUp = button_up.polling(up) {
        events[0] = Some(Msg::Up);
    }
    if let PinState::PinUp = button_down.polling(down) {
        events[1] = Some(Msg::Down);
    }
    if let PinState::PinUp = button_enter.polling(enter) {
        events[2] = Some(Msg::Enter);
    }
    Reaction { events, next_poll_ms: POLL_PERIOD_MS }
}

/// A side effect that the dispatcher asks for.
#[derive(Clone, Copy, Debug, PartialEq, Eq)]
pub enum Effect {
    /// Toggle the indicator.
    ToggleIndicator,
    /// Clear the display.
    ClearDisplay,
    /// Draw the frame on the display.
    Draw(Frame),
    /// Bring what was drawn onto the screen.
    FlushDisplay,
    /// Write the line to the diagnostic log.
    Log(&'static str),
}

/// The log line that names the button of `msg`.
pub open spec fn log_text(msg: Msg) -> &'static str {
    match msg {
        Msg::Up => "button Up pressed!!!",
        Msg::Down => "button Down pressed!!!",
        Msg::Enter => "button Enter pressed!!!",
    }
}

/// The log line that names the button of `msg`.
pub fn log_line(msg: Msg) -> (line: &'static str)
    ensures
        line == log_text(msg),
{
    match msg {
        Msg::Up => "button Up pressed!!!",
        Msg::Down => "button Down pressed!!!",
        Msg::Enter => "button Enter pressed!!!",
    }
}

/// One run of the dispatcher: advances the menu by `msg` and returns the
/// side effects to perform, in this order. The new state is committed
/// before any of them is performed, so that an effect that fails leaves
/// the menu where the message took it.
pub fn dispatch_msg(menu_fsm: &mut MenuFSM, msg: Msg) -> (effects: [Effect; 5])
    ensures
        final(menu_fsm).state == old(menu_fsm).state.after(msg),
        effects[0] == Effect::ToggleIndicator,
        effects[1] == Effect::ClearDisplay,
        effects[2] matches Effect::Draw(frame) && frame.shows(final(menu_fsm).state),
        effects[3] == Effect::FlushDisplay,
        effects[4] == Effect::Log(log_text(msg)),
{
    menu_fsm.next_state(msg);
    [
        Effect::ToggleIndicator,
        Effect::ClearDisplay,
        Effect::Draw(draw_menu(menu_fsm.state)),
        Effect::FlushDisplay,
        Effect::Log(log_line(msg)),
    ]
}

} // verus!
