//! The menu: its states, its transition table and what each state shows.

use vstd::prelude::*;

verus! {

/// A logical button event: the named button became pressed.
#[derive(Clone, Copy, Debug, PartialEq, Eq, Structural)]
pub enum Msg {
    /// The Up button.
    Up,
    /// The Down button.
    Down,
    /// The Enter button.
    Enter,
}

/// The state of the menu: one of three rows, or the detail state that
/// shows the picture. A row carries the flag that says whether it is drawn
/// highlighted.
///
/// The flag follows one rule: a row that is reached from another row is
/// highlighted, and the row that is reached from the picture is not.
#[derive(Clone, Copy, Debug, PartialEq, Eq, Structural)]
pub enum MenuState {
    /// The first row.
    Row1(bool),
    /// The second row.
    Row2(bool),
    /// The third row.
    Row3(bool),
    /// The detail state, which shows the picture.
    Image,
}

impl MenuState {
    /// Whether the state is one of the three rows.
    pub open spec fn is_row_state(&self) -> bool {
        !(*self is Image)
    }

    /// Position of a row state in the menu, counted from 0. The detail
    /// state has no position and gets 3.
    pub open spec fn row_index(self) -> int {
        match self {
            MenuState::Row1(_) => 0,
            MenuState::Row2(_) => 1,
            MenuState::Row3(_) => 2,
            MenuState::Image => 3,
        }
    }

    /// Whether the state is a row that is drawn highlighted.
    pub open spec fn highlighted(self) -> bool {
        match self {
            MenuState::Row1(flag) => flag,
            MenuState::Row2(flag) => flag,
            MenuState::Row3(flag) => flag,
            MenuState::Image => false,
        }
    }

    /// The row at position `index`, taken modulo 3, with the given flag.
    pub open spec fn row_at(index: int, highlighted: bool) -> MenuState {
        if index % 3 == 0 {
            MenuState::Row1(highlighted)
        } else if index % 3 == 1 {
            MenuState::Row2(highlighted)
        } else {
            MenuState::Row3(highlighted)
        }
    }

    /// The state in which the menu starts: the first row, not highlighted.
    pub open spec fn start_state() -> MenuState {
        MenuState::Row1(false)
    }

    /// The state that follows `self` on `msg`.
    ///
    /// From a row, Up moves to the row above and Down to the row below,
    /// around the ends, and the row reached is highlighted; Enter opens the
    /// picture. From the picture every message leads back to the start
    /// state.
    pub open spec fn after(self, msg: Msg) -> MenuState {
        if self.is_row() {
            match msg {
                Msg::Up => MenuState::row_at(self.row_index() - 1, true),
                Msg::Down => MenuState::row_at(self.row_index() + 1, true),
                Msg::Enter => MenuState::Image,
            }
        } else {
            MenuState::start_state()
        }
    }

    /// The state in which the menu starts.
    #[verifier::when_used_as_spec(start_state)]
    pub fn start() -> (state: MenuState)
        ensures
            state == MenuState::start_state(),
    {
        MenuState::Row1(false)
    }

    /// Whether the state is one of the three rows.
    #[verifier::when_used_as_spec(is_row_state)]
    pub fn is_row(&self) -> (row: bool)
        ensures
            row == self.is_row_state(),
    {
        matches!(self, Self::Row1(_) | Self::Row2(_) | Self::Row3(_))
    }
}

/// The transition function of the menu. It is defined for every state and
/// every message.
pub fn transition(state: MenuState, msg: Msg) -> (next: MenuState)
    ensures
        next == state.after(msg),
{
    match (state, msg) {
        (MenuState::Image, _) => MenuState::Row1(false),
        (_, Msg::Enter) => MenuState::Image,
        (MenuState::Row1(_), Msg::Up) => MenuState::Row3(true),
        (MenuState::Row1(_), Msg::Down) => MenuState::Row2(true),
        (MenuState::Row2(_), Msg::Up) => MenuState::Row1(true),
        (MenuState::Row2(_), Msg::Down) => MenuState::Row3(true),
        (MenuState::Row3(_), Msg::Up) => MenuState::Row2(true),
        (MenuState::Row3(_), Msg::Down) => MenuState::Row1(true),
    }
}

/// The menu's state machine.
#[derive(Clone, Copy, Debug, PartialEq, Eq, Structural)]
pub struct MenuFSM {
    /// The state that the menu is in.
    pub state: MenuState,
}

impl MenuFSM {
    /// A machine that is in `state`.
    pub fn init(state: MenuState) -> (fsm: Self)
        ensures
            fsm.state == state,
    {
        Self { state }
    }

    /// Advances the machine by one message.
    pub fn next_state(&mut self, msg: Msg)
        ensures
            final(self).state == old(self).state.after(msg),
    {
        self.state = transition(self.state, msg);
    }
}

/// One line of text on the display.
#[derive(Clone, Copy, Debug, PartialEq, Eq)]
pub struct TextLine {
    /// The text of the line.
    pub text: &'static str,
    /// Left end of the text's baseline.
    pub x: i32,
    /// Height of the text's baseline, counted down from the top.
    pub y: i32,
    /// Whether the line is drawn inverted, as the selected one.
    pub selected: bool,
}

/// What the display shows.
#[derive(Clone, Copy, Debug, PartialEq, Eq)]
pub enum Frame {
    /// The three lines of the menu, top to bottom.
    Rows([TextLine; 3]),
    /// The picture, with its top left corner at (`x`, `y`).
    Picture { x: i32, y: i32 },
}

/// The text of the menu line at position `index`.
pub open spec fn menu_label(index: int) -> &'static str {
    if index == 0 {
        "--- Menu 1 ---"
    } else if index == 1 {
        "--- Menu 2 ---"
    } else {
        "--- Menu 3 ---"
    }
}

/// The menu line at position `index` as it is drawn in `state`: the lines
/// stand 20 pixels apart, and the line of a highlighted row is selected.
pub open spec fn menu_line(state: MenuState, index: int) -> TextLine {
    TextLine {
        text: menu_label(index),
        x: 0,
        y: (13 + 20 * index) as i32,
        selected: state.highlighted() && state.row_index() == index,
    }
}

impl Frame {
    /// Whether the frame is the one that the display shows in `state`: the
    /// three menu lines in a row state, and in the detail state the
    /// picture, which stands at the top of the display, 32 pixels from the
    /// left.
    pub open spec fn shows(self, state: MenuState) -> bool {
        match self {
            Frame::Rows(lines) => state.is_row() && lines@ =~= Seq::new(
                3,
                |index: int| menu_line(state, index),
            ),
            Frame::Picture { x, y } => !state.is_row() && x == 32 && y == 0,
        }
    }
}

fn menu_rows(first: bool, second: bool, third: bool) -> (frame: Frame)
    ensures
        frame matches Frame::Rows(lines) && lines@ == seq![
            (TextLine { text: menu_label(0), x: 0, y: 13, selected: first }),
            (TextLine { text: menu_label(1), x: 0, y: 33, selected: second }),
            (TextLine { text: menu_label(2), x: 0, y: 53, selected: third }),
        ],
{
    Frame::Rows(
        [
            TextLine { text: "--- Menu 1 ---", x: 0, y: 13, selected: first },
            TextLine { text: "--- Menu 2 ---", x: 0, y: 33, selected: second },
            TextLine { text: "--- Menu 3 ---", x: 0, y: 53, selected: third },
        ],
    )
}

/// Lays out what the display shows in `state`.
pub fn draw_menu(state: MenuState) -> (frame: Frame)
    ensures
        frame.shows(state),
{
    match state {
        MenuState::Row1(flag) => menu_rows(flag, false, false),
        MenuState::Row2(flag) => menu_rows(false, flag, false),
        MenuState::Row3(flag) => menu_rows(false, false, flag),
        MenuState::Image => Frame::Picture { x: 32, y: 0 },
    }
}

/// `transition` accepts every state with every message.
pub proof fn lemma_transition_is_total(state: MenuState, msg: Msg)
    ensures
        call_requires(transition, (state, msg)),
{
}

/// `transition` has one result for a state and a message: whatever it
/// returns for them is the same state.
pub proof fn lemma_transition_is_deterministic(
    state: MenuState,
    msg: Msg,
    one: MenuState,
    other: MenuState,
)
    requires
        call_ensures(transition, (state, msg), one),
        call_ensures(transition, (state, msg), other),
    ensures
        one == other,
{
}

/// Up and Down undo each other: from a row, Up then Down, and Down then
/// Up, lead back to that row, which is then highlighted.
pub proof fn lemma_up_and_down_undo_each_other(state: MenuState)
    requires
        state.is_row(),
    ensures
        state.after(Msg::Up).after(Msg::Down).is_row(),
        state.after(Msg::Up).after(Msg::Down).row_index() == state.row_index(),
        state.after(Msg::Up).after(Msg::Down).highlighted(),
        state.after(Msg::Down).after(Msg::Up).is_row(),
        state.after(Msg::Down).after(Msg::Up).row_index() == state.row_index(),
        state.after(Msg::Down).after(Msg::Up).highlighted(),
{
}

/// The menu is a ring: Up from the first row reaches the last, Down from
/// the last row reaches the first, and three steps one way lead once
/// around.
pub proof fn lemma_navigation_wraps_around(state: MenuState)
    requires
        state.is_row(),
    ensures
        state.row_index() == 0 ==> state.after(Msg::Up) == MenuState::Row3(true),
        state.row_index() == 2 ==> state.after(Msg::Down) == MenuState::Row1(true),
        state.after(Msg::Up).after(Msg::Up).after(Msg::Up).row_index() == state.row_index(),
        state.after(Msg::Down).after(Msg::Down).after(Msg::Down).row_index() == state.row_index(),
{
}

/// Enter opens the picture from every row, and every message leads from
/// the picture back to the first row.
pub proof fn lemma_escape_and_return(state: MenuState, msg: Msg)
    requires
        state.is_row(),
    ensures
        state.after(Msg::Enter) == MenuState::Image,
        MenuState::Image.after(msg) == MenuState::Row1(false),
        state.after(Msg::Enter).after(msg) == MenuState::Row1(false),
{
}

} // verus!
