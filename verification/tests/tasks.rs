use button_menu::buttons::Button;
use button_menu::tasks::{dispatch_msg, log_line, react, Effect, Reaction, POLL_PERIOD_MS};
use button_menu::ui::{draw_menu, transition, Frame, MenuFSM, MenuState, Msg};

struct Lines {
    up: Button<u8>,
    down: Button<u8>,
    enter: Button<u8>,
}

impl Lines {
    fn new() -> Self {
        Lines { up: Button::new(5), down: Button::new(6), enter: Button::new(7) }
    }

    fn poll(&mut self, up: bool, down: bool, enter: bool) -> Reaction {
        react(&mut self.up, &mut self.down, &mut self.enter, up, down, enter)
    }
}

#[test]
fn poll_period_is_ten_milliseconds() {
    assert_eq!(POLL_PERIOD_MS, 10);
}

#[test]
fn react_always_asks_for_the_next_poll() {
    let mut lines = Lines::new();
    for round in 0..200u32 {
        let up = round % 2 == 0;
        let down = round % 3 == 0;
        let enter = round < 100;
        let reaction = lines.poll(up, down, enter);
        assert_eq!(reaction.next_poll_ms, POLL_PERIOD_MS);
    }
    for _ in 0..40 {
        let reaction = lines.poll(false, false, false);
        assert_eq!(reaction.next_poll_ms, POLL_PERIOD_MS);
    }
}

#[test]
fn react_raises_nothing_while_lines_are_idle() {
    let mut lines = Lines::new();
    for _ in 0..100 {
        assert_eq!(lines.poll(true, true, true).events, [None, None, None]);
    }
}

#[test]
fn react_raises_one_event_for_a_press() {
    let mut lines = Lines::new();
    for _ in 0..29 {
        assert_eq!(lines.poll(true, false, true).events, [None, None, None]);
    }
    assert_eq!(lines.poll(true, false, true).events, [None, Some(Msg::Down), None]);
    for _ in 0..100 {
        assert_eq!(lines.poll(true, false, true).events, [None, None, None]);
    }
}

#[test]
fn react_raises_nothing_for_a_release() {
    let mut lines = Lines::new();
    for _ in 0..30 {
        lines.poll(false, true, true);
    }
    for _ in 0..100 {
        assert_eq!(lines.poll(true, true, true).events, [None, None, None]);
    }
}

#[test]
fn react_raises_simultaneous_presses_in_polling_order() {
    let mut lines = Lines::new();
    for _ in 0..29 {
        assert_eq!(lines.poll(false, false, false).events, [None, None, None]);
    }
    assert_eq!(
        lines.poll(false, false, false).events,
        [Some(Msg::Up), Some(Msg::Down), Some(Msg::Enter)]
    );
}

#[test]
fn react_keeps_one_count_for_each_button() {
    let mut lines = Lines::new();
    for _ in 0..10 {
        lines.poll(false, true, true);
    }
    for _ in 0..19 {
        assert_eq!(lines.poll(false, true, false).events, [None, None, None]);
    }
    assert_eq!(lines.poll(false, true, false).events, [Some(Msg::Up), None, None]);
    for _ in 0..9 {
        assert_eq!(lines.poll(false, true, false).events, [None, None, None]);
    }
    assert_eq!(lines.poll(false, true, false).events, [None, None, Some(Msg::Enter)]);
}

#[test]
fn react_leaves_the_lines_with_their_buttons() {
    let mut lines = Lines::new();
    lines.poll(false, true, false);
    assert_eq!(*lines.up.pin(), 5);
    assert_eq!(*lines.down.pin(), 6);
    assert_eq!(*lines.enter.pin(), 7);
}

#[test]
fn log_line_names_the_button() {
    assert_eq!(log_line(Msg::Up), "button Up pressed!!!");
    assert_eq!(log_line(Msg::Down), "button Down pressed!!!");
    assert_eq!(log_line(Msg::Enter), "button Enter pressed!!!");
}

#[test]
fn dispatch_advances_the_menu_and_lists_the_effects() {
    let mut fsm = MenuFSM::init(MenuState::Row1(false));
    let effects = dispatch_msg(&mut fsm, Msg::Down);
    assert_eq!(fsm.state, MenuState::Row2(true));
    assert_eq!(
        effects,
        [
            Effect::ToggleIndicator,
            Effect::ClearDisplay,
            Effect::Draw(draw_menu(MenuState::Row2(true))),
            Effect::FlushDisplay,
            Effect::Log("button Down pressed!!!"),
        ]
    );
}

#[test]
fn dispatch_draws_the_picture_after_enter() {
    let mut fsm = MenuFSM::init(MenuState::Row3(true));
    let effects = dispatch_msg(&mut fsm, Msg::Enter);
    assert_eq!(fsm.state, MenuState::Image);
    assert_eq!(effects[2], Effect::Draw(Frame::Picture { x: 32, y: 0 }));
    assert_eq!(effects[4], Effect::Log("button Enter pressed!!!"));
}

#[test]
fn dispatch_agrees_with_transition_for_every_pair() {
    let states = [
        MenuState::Row1(false),
        MenuState::Row1(true),
        MenuState::Row2(false),
        MenuState::Row2(true),
        MenuState::Row3(false),
        MenuState::Row3(true),
        MenuState::Image,
    ];
    for state in states {
        for msg in [Msg::Up, Msg::Down, Msg::Enter] {
            let mut fsm = MenuFSM::init(state);
            let effects = dispatch_msg(&mut fsm, msg);
            assert_eq!(fsm.state, transition(state, msg));
            assert_eq!(effects[0], Effect::ToggleIndicator);
            assert_eq!(effects[1], Effect::ClearDisplay);
            assert_eq!(effects[2], Effect::Draw(draw_menu(fsm.state)));
            assert_eq!(effects[3], Effect::FlushDisplay);
            assert_eq!(effects[4], Effect::Log(log_line(msg)));
        }
    }
}
