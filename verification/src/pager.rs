//! The pager: whether a document fits the screen, where the scrollable
//! view lies on it, and what each input event does to the view.
use vstd::prelude::*;

use crate::text::{count_lines, line_count};

verus! {

/// A rectangular part of the screen, in character cells.
#[derive(Debug, Clone, Copy, PartialEq, Eq, Structural)]
pub struct Area {
    pub left: u16,
    pub top: u16,
    pub width: u16,
    pub height: u16,
}

/// The widest terminal that still gets the one-line legend, for which a
/// row is kept free under the view.
pub const NARROW_WIDTH: u16 = 120;

/// The greatest width of the text in the view.
pub const TEXT_WIDTH: u16 = 80;

/// The area that covers a screen of the given size.
pub open spec fn full_screen(width: u16, height: u16) -> Area {
    Area { left: 0, top: 0, width, height }
}

/// `area` narrowed to `max_width` columns and kept centred; unchanged where
/// it is no wider than that.
pub open spec fn padded_area(area: Area, max_width: u16) -> Area {
    if max_width >= area.width {
        area
    } else {
        Area {
            left: (area.left + (area.width - max_width) / 2) as u16,
            width: max_width,
            ..area
        }
    }
}

/// The area of the scrollable view on a screen of the given size: the whole
/// screen, less its last row where the screen is narrow, narrowed to the
/// text width.
pub open spec fn view_area_of(width: u16, height: u16) -> Area {
    padded_area(
        Area {
            left: 0,
            top: 0,
            width,
            height: if width <= NARROW_WIDTH {
                (height - 1) as u16
            } else {
                height
            },
        },
        TEXT_WIDTH,
    )
}

/// A screen on which the view can be laid out: a narrow one has a row to
/// give up.
pub open spec fn screen_has_room(width: u16, height: u16) -> bool {
    width <= NARROW_WIDTH ==> height >= 1
}

/// Narrows an area symmetrically to a greatest width.
///
/// Trusted: this is `termimad::Area::pad_for_max_width`. The contract
/// restates its body: an area no wider than `max_width` is left alone, a
/// wider one loses the surplus columns and moves right by half of them. It
/// is not called where moving right would overflow.
#[verifier::external_body]
pub(crate) fn pad_for_max_width(area: Area, max_width: u16) -> (padded: Area)
    requires
        max_width < area.width ==> area.left + (area.width - max_width) / 2 <= u16::MAX,
    ensures
        padded == padded_area(area, max_width),
{
    let mut inner = termimad::Area::new(area.left, area.top, area.width, area.height);
    inner.pad_for_max_width(max_width);
    Area { left: inner.left, top: inner.top, width: inner.width, height: inner.height }
}

/// Lays out the scrollable view on a screen of the given size.
pub fn view_area(width: u16, height: u16) -> (area: Area)
    requires
        screen_has_room(width, height),
    ensures
        area == view_area_of(width, height),
        area.width <= TEXT_WIDTH,
        area.left + area.width <= width,
{
    let mut area = Area { left: 0, top: 0, width, height };
    if area.width <= NARROW_WIDTH {
        area.height = area.height - 1;
    }
    pad_for_max_width(area, TEXT_WIDTH)
}

/// Whether a document can be printed at once on a screen with `rows` rows:
/// it can when it has no more lines than the screen has rows. A document
/// that does not fit goes to the scrollable view.
pub fn fits_screen(markdown: &str, rows: u16) -> (fits: bool)
    ensures
        fits == (line_count(markdown@) <= rows),
{
    count_lines(markdown) <= rows as usize
}

/// A key, as far as the pager tells keys apart.
#[derive(Debug, Clone, Copy, PartialEq, Eq, Structural)]
pub enum PagerKey {
    Up,
    Down,
    PageUp,
    PageDown,
    Esc,
    Char(char),
    Other,
}

/// An input event of the interactive view.
#[derive(Debug, Clone, Copy, PartialEq, Eq, Structural)]
pub enum PagerEvent {
    /// A key was pressed.
    Key(PagerKey),
    /// The terminal was resized; the fields give its new size.
    Resize { width: u16, height: u16 },
    /// Anything else.
    Other,
}

/// Whether the interactive view goes on.
#[derive(Debug, Clone, Copy, PartialEq, Eq, Structural)]
pub enum PagerPhase {
    Running,
    Exiting,
}

/// The state of the interactive view between two events.
#[derive(Debug, Clone, Copy, PartialEq, Eq, Structural)]
pub struct ScrollState {
    /// Whether the view goes on.
    pub phase: PagerPhase,
    /// The whole screen, as last measured.
    pub screen: Area,
}

/// What the event loop has to do to the view after an event.
#[derive(Debug, Clone, Copy, PartialEq, Eq, Structural)]
pub enum PagerAction {
    /// Scroll by so many lines; negative is backward.
    ScrollLines(i32),
    /// Scroll by so many pages; negative is backward.
    ScrollPages(i32),
    /// Clear the screen and give the view this area.
    Relayout { view: Area },
    /// Leave the view.
    Quit,
    /// Nothing.
    Nothing,
}

/// What a key does while the view is running.
pub open spec fn key_action(key: PagerKey) -> PagerAction {
    match key {
        PagerKey::Up => PagerAction::ScrollLines(-1i32),
        PagerKey::Down => PagerAction::ScrollLines(1i32),
        PagerKey::PageUp => PagerAction::ScrollPages(-1i32),
        PagerKey::PageDown => PagerAction::ScrollPages(1i32),
        PagerKey::Esc => PagerAction::Quit,
        PagerKey::Char(c) => if c == 'k' {
            PagerAction::ScrollLines(-1i32)
        } else if c == 'j' {
            PagerAction::ScrollLines(1i32)
        } else if c == 'q' {
            PagerAction::Quit
        } else {
            PagerAction::Nothing
        },
        PagerKey::Other => PagerAction::Nothing,
    }
}

/// What an event does while the view is running.
pub open spec fn event_action(event: PagerEvent) -> PagerAction {
    match event {
        PagerEvent::Key(key) => key_action(key),
        PagerEvent::Resize { width, height } => PagerAction::Relayout {
            view: view_area_of(width, height),
        },
        PagerEvent::Other => PagerAction::Nothing,
    }
}

/// The state after an event. A view that is exiting stays so and does
/// nothing more. A running view exits on a quit key, takes the new screen
/// on a resize, and otherwise stays as it is.
pub open spec fn next_state(state: ScrollState, event: PagerEvent) -> ScrollState {
    match state.phase {
        PagerPhase::Exiting => state,
        PagerPhase::Running => match event {
            PagerEvent::Resize { width, height } => ScrollState {
                phase: PagerPhase::Running,
                screen: full_screen(width, height),
            },
            _ => if event_action(event) == PagerAction::Quit {
                ScrollState { phase: PagerPhase::Exiting, screen: state.screen }
            } else {
                state
            },
        },
    }
}

/// The action after an event: none once the view is exiting.
pub open spec fn next_action(state: ScrollState, event: PagerEvent) -> PagerAction {
    match state.phase {
        PagerPhase::Exiting => PagerAction::Nothing,
        PagerPhase::Running => event_action(event),
    }
}

/// An event that can be handled: a resize must leave room for the view.
pub open spec fn event_has_room(event: PagerEvent) -> bool {
    match event {
        PagerEvent::Resize { width, height } => screen_has_room(width, height),
        _ => true,
    }
}

impl ScrollState {
    /// The state on entering the interactive view.
    pub fn start(width: u16, height: u16) -> (state: Self)
        ensures
            state == (ScrollState { phase: PagerPhase::Running, screen: full_screen(width, height) }),
    {
        ScrollState { phase: PagerPhase::Running, screen: Area { left: 0, top: 0, width, height } }
    }

    /// Whether the event loop goes on.
    pub fn is_running(&self) -> (running: bool)
        ensures
            running == (self.phase == PagerPhase::Running),
    {
        match self.phase {
            PagerPhase::Running => true,
            PagerPhase::Exiting => false,
        }
    }
}

fn action_of_key(key: PagerKey) -> (action: PagerAction)
    ensures
        action == key_action(key),
{
    match key {
        PagerKey::Up => PagerAction::ScrollLines(-1),
        PagerKey::Down => PagerAction::ScrollLines(1),
        PagerKey::PageUp => PagerAction::ScrollPages(-1),
        PagerKey::PageDown => PagerAction::ScrollPages(1),
        PagerKey::Esc => PagerAction::Quit,
        PagerKey::Char(c) => {
            if c == 'k' {
                PagerAction::ScrollLines(-1)
            } else if c == 'j' {
                PagerAction::ScrollLines(1)
            } else if c == 'q' {
                PagerAction::Quit
            } else {
                PagerAction::Nothing
            }
        },
        PagerKey::Other => PagerAction::Nothing,
    }
}

/// Handles one input event: the new state, and what to do to the view.
pub fn pager_step(state: ScrollState, event: PagerEvent) -> (next: (ScrollState, PagerAction))
    requires
        event_has_room(event),
    ensures
        next.0 == next_state(state, event),
        next.1 == next_action(state, event),
{
    match state.phase {
        PagerPhase::Exiting => (state, PagerAction::Nothing),
        PagerPhase::Running => match event {
            PagerEvent::Key(key) => {
                let action = action_of_key(key);
                match action {
                    PagerAction::Quit => (
                        ScrollState { phase: PagerPhase::Exiting, screen: state.screen },
                        action,
                    ),
                    _ => (state, action),
                }
            },
            PagerEvent::Resize { width, height } => (
                ScrollState {
                    phase: PagerPhase::Running,
                    screen: Area { left: 0, top: 0, width, height },
                },
                PagerAction::Relayout { view: view_area(width, height) },
            ),
            PagerEvent::Other => (state, PagerAction::Nothing),
        },
    }
}

/// Once the view is exiting no event brings it back or moves it.
pub proof fn law_exit_is_final(state: ScrollState, event: PagerEvent)
    requires
        state.phase == PagerPhase::Exiting,
    ensures
        next_state(state, event) == state,
        next_action(state, event) == PagerAction::Nothing,
{
}

/// A running view exits exactly on the quit action, and only a key gives
/// that action: `q` or escape.
pub proof fn law_only_quit_keys_exit(state: ScrollState, event: PagerEvent)
    requires
        state.phase == PagerPhase::Running,
    ensures
        next_state(state, event).phase == PagerPhase::Exiting <==> (event == PagerEvent::Key(
            PagerKey::Esc,
        ) || event == PagerEvent::Key(PagerKey::Char('q'))),
{
}

} // verus!
