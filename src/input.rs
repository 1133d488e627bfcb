use vstd::prelude::*;
use crate::screen::{Screen, ScreenView, State};

verus! {

/// A key press, as far as the list cares.
#[derive(Clone, Copy, Debug, PartialEq, Eq, Structural)]
pub enum Key {
    Char(char),
    Enter,
    Esc,
    Backspace,
    Up,
    Down,
    Left,
    Right,
    Other,
}

/// A logical input event.
#[derive(Clone, Copy, Debug, PartialEq, Eq, Structural)]
pub enum Event {
    Quit,
    EnterInsert,
    ExitInsert,
    ToggleDone,
    MoveUp,
    MoveDown,
    MoveLeft,
    MoveRight,
    AddItem,
    DeleteItem,
    Character(char),
    Backspace,
}

/// What the driver does after an event: go on, or store the list and end the session.
#[derive(Clone, Copy, Debug, PartialEq, Eq, Structural)]
pub enum Action {
    Continue,
    Exit,
}

/// The event a key stands for in a mode, if any.
pub open spec fn key_event(state: State, key: Key) -> Option<Event> {
    match state {
        State::Normal => match key {
            Key::Esc => Some(Event::Quit),
            Key::Enter => Some(Event::EnterInsert),
            Key::Char(c) => {
                if c == 'i' || c == 'r' {
                    Some(Event::EnterInsert)
                } else if c == ' ' || c == 'o' {
                    Some(Event::ToggleDone)
                } else if c == 'j' {
                    Some(Event::MoveDown)
                } else if c == 'k' {
                    Some(Event::MoveUp)
                } else if c == 'h' {
                    Some(Event::MoveLeft)
                } else if c == 'l' {
                    Some(Event::MoveRight)
                } else if c == 'n' {
                    Some(Event::AddItem)
                } else if c == 'd' {
                    Some(Event::DeleteItem)
                } else {
                    None
                }
            },
            Key::Down => Some(Event::MoveDown),
            Key::Up => Some(Event::MoveUp),
            Key::Left => Some(Event::MoveLeft),
            Key::Right => Some(Event::MoveRight),
            _ => None,
        },
        State::Insert => match key {
            Key::Esc => Some(Event::ExitInsert),
            Key::Up => Some(Event::MoveUp),
            Key::Down => Some(Event::MoveDown),
            Key::Left => Some(Event::MoveLeft),
            Key::Right => Some(Event::MoveRight),
            Key::Char(c) => Some(Event::Character(c)),
            Key::Backspace => Some(Event::Backspace),
            _ => None,
        },
    }
}

/// Maps a key press to the event it stands for in `state`; `None` for keys
/// that mean nothing there.
pub fn decode_key(state: State, key: Key) -> (r: Option<Event>)
    ensures
        r == key_event(state, key),
{
    match state {
        State::Normal => match key {
            Key::Esc => Some(Event::Quit),
            Key::Enter => Some(Event::EnterInsert),
            Key::Char(c) => {
                if c == 'i' || c == 'r' {
                    Some(Event::EnterInsert)
                } else if c == ' ' || c == 'o' {
                    Some(Event::ToggleDone)
                } else if c == 'j' {
                    Some(Event::MoveDown)
                } else if c == 'k' {
                    Some(Event::MoveUp)
                } else if c == 'h' {
                    Some(Event::MoveLeft)
                } else if c == 'l' {
                    Some(Event::MoveRight)
                } else if c == 'n' {
                    Some(Event::AddItem)
                } else if c == 'd' {
                    Some(Event::DeleteItem)
                } else {
                    None
                }
            },
            Key::Down => Some(Event::MoveDown),
            Key::Up => Some(Event::MoveUp),
            Key::Left => Some(Event::MoveLeft),
            Key::Right => Some(Event::MoveRight),
            _ => None,
        },
        State::Insert => match key {
            Key::Esc => Some(Event::ExitInsert),
            Key::Up => Some(Event::MoveUp),
            Key::Down => Some(Event::MoveDown),
            Key::Left => Some(Event::MoveLeft),
            Key::Right => Some(Event::MoveRight),
            Key::Char(c) => Some(Event::Character(c)),
            Key::Backspace => Some(Event::Backspace),
            _ => None,
        },
    }
}

impl ScreenView {
    pub open spec fn with_state(self, state: State) -> ScreenView {
        ScreenView { todos: self.todos, select: self.select, state }
    }

    /// The list after `ev` in the current mode, and what the driver does next.
    /// Events that mean nothing in the mode change nothing.
    pub open spec fn handled(self, ev: Event) -> (ScreenView, Action) {
        match self.state {
            State::Normal => match ev {
                Event::Quit => (self.saved(), Action::Exit),
                Event::EnterInsert => (self.with_state(State::Insert), Action::Continue),
                Event::ToggleDone => (self.with_selected(self.selected().toggled()), Action::Continue),
                Event::MoveDown => (self.moved_down(), Action::Continue),
                Event::MoveUp => (self.moved_up(), Action::Continue),
                Event::AddItem => (self.added(), Action::Continue),
                Event::DeleteItem => (self.removed_selected(), Action::Continue),
                _ => (self, Action::Continue),
            },
            State::Insert => match ev {
                Event::ExitInsert => (self.with_state(State::Normal), Action::Continue),
                Event::MoveUp => (self.moved_up(), Action::Continue),
                Event::MoveDown => (self.moved_down(), Action::Continue),
                Event::MoveLeft => (self.with_selected(self.selected().moved_left()), Action::Continue),
                Event::MoveRight => (self.with_selected(self.selected().moved_right()), Action::Continue),
                Event::Character(c) => (self.with_selected(self.selected().inserted(c)), Action::Continue),
                Event::Backspace => (self.with_selected(self.selected().removed()), Action::Continue),
                _ => (self, Action::Continue),
            },
        }
    }

    /// The list after each event of `evs` in turn.
    pub open spec fn after_events(self, evs: Seq<Event>) -> ScreenView
        decreases evs.len(),
    {
        if evs.len() == 0 {
            self
        } else {
            self.handled(evs[0]).0.after_events(evs.skip(1))
        }
    }
}

impl Screen {
    /// Applies one event. On `Exit` the list has been readied for storing
    /// (see [`Screen::save`]) and the driver writes it out and ends.
    pub fn handle(&mut self, ev: Event) -> (r: Action)
        requires
            old(self)@.wf(),
        ensures
            (final(self)@, r) == old(self)@.handled(ev),
            final(self)@.wf(),
    {
        match self.state {
            State::Normal => match ev {
                Event::Quit => {
                    self.save();
                    Action::Exit
                },
                Event::EnterInsert => {
                    self.state = State::Insert;
                    Action::Continue
                },
                Event::ToggleDone => {
                    self.toggle_done();
                    Action::Continue
                },
                Event::MoveDown => {
                    self.down();
                    Action::Continue
                },
                Event::MoveUp => {
                    self.up();
                    Action::Continue
                },
                Event::AddItem => {
                    self.add();
                    Action::Continue
                },
                Event::DeleteItem => {
                    self.remove();
                    Action::Continue
                },
                _ => Action::Continue,
            },
            State::Insert => match ev {
                Event::ExitInsert => {
                    self.state = State::Normal;
                    Action::Continue
                },
                Event::MoveUp => {
                    self.up();
                    Action::Continue
                },
                Event::MoveDown => {
                    self.down();
                    Action::Continue
                },
                Event::MoveLeft => {
                    self.left();
                    Action::Continue
                },
                Event::MoveRight => {
                    self.right();
                    Action::Continue
                },
                Event::Character(c) => {
                    self.push(c);
                    Action::Continue
                },
                Event::Backspace => {
                    self.pop();
                    Action::Continue
                },
                _ => Action::Continue,
            },
        }
    }
}

} // verus!
