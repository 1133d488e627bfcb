use rustdo::{decode_key, Action, Event, Key, Screen, State, Todo, MAX_TEXT_LEN};

fn todo(text: &str, is_done: bool) -> Todo {
    let chars: Vec<char> = text.chars().collect();
    let pos = chars.len();
    Todo { text: chars, is_done, pos }
}

fn screen(items: &[&str], select: usize, state: State) -> Screen {
    Screen { todos: items.iter().map(|t| todo(t, false)).collect(), select, state }
}

fn texts(s: &Screen) -> Vec<String> {
    s.todos.iter().map(|t| t.text.iter().collect()).collect()
}

#[test]
fn character_goes_into_selected_blank_item() {
    let mut s = Screen {
        todos: vec![todo("buy milk", true), todo("", false)],
        select: 1,
        state: State::Insert,
    };
    assert_eq!(s.handle(Event::Character('x')), Action::Continue);
    assert_eq!(s.todos[1].text, vec!['x']);
    assert_eq!(s.todos[1].pos, 1);
    assert_eq!(s.state, State::Insert);
    assert_eq!(s.todos[0].text, "buy milk".chars().collect::<Vec<char>>());
    assert!(s.todos[0].is_done);
}

#[test]
fn deleting_last_item_then_moving_is_safe() {
    let mut s = screen(&["a"], 0, State::Normal);
    s.handle(Event::DeleteItem);
    assert!(s.todos.is_empty());
    assert_eq!(s.select, 0);
    s.handle(Event::MoveDown);
    assert_eq!(s.select, 0);
    s.handle(Event::MoveUp);
    assert_eq!(s.select, 0);
    s.handle(Event::ToggleDone);
    s.handle(Event::DeleteItem);
    assert!(s.todos.is_empty());
    assert_eq!(s.select, 0);
}

#[test]
fn move_down_at_bottom_stays() {
    let mut s = screen(&["a", "b", "c"], 2, State::Normal);
    s.handle(Event::MoveDown);
    assert_eq!(s.select, 2);
    s.handle(Event::MoveUp);
    assert_eq!(s.select, 1);
    s.handle(Event::MoveUp);
    s.handle(Event::MoveUp);
    assert_eq!(s.select, 0);
}

#[test]
fn load_without_stored_list_gives_one_blank_item() {
    let s = Screen::from_file(None);
    assert_eq!(s.todos.len(), 1);
    assert!(s.todos[0].text.is_empty());
    assert!(!s.todos[0].is_done);
    assert_eq!(s.select, 0);
    assert_eq!(s.state, State::Normal);
}

#[test]
fn new_screen_is_one_blank_item() {
    let s = Screen::new(Some(3));
    assert_eq!(s.todos.len(), 1);
    assert_eq!(s.select, 0);
    assert_eq!(s.state, State::Normal);
}

#[test]
fn cursor_stays_in_text_through_edits() {
    let mut t = Todo::new();
    t.left();
    assert_eq!(t.pos, 0);
    t.right();
    assert_eq!(t.pos, 0);
    t.insert('a');
    t.insert('b');
    t.right();
    assert_eq!(t.pos, 2);
    t.left();
    t.left();
    t.left();
    assert_eq!(t.pos, 0);
    t.remove();
    assert_eq!(t.text, vec!['a', 'b']);
    t.right();
    t.remove();
    assert_eq!(t.text, vec!['b']);
    assert_eq!(t.pos, 0);
    assert!(t.pos <= t.text.len());
}

#[test]
fn insert_then_left_returns_before_typed_char() {
    let mut t = todo("ac", false);
    t.pos = 1;
    t.insert('b');
    assert_eq!(t.pos, 2);
    t.left();
    assert_eq!(t.pos, 1);
    assert_eq!(t.text[1], 'b');
    assert_eq!(t.get_text(), "a|bc");
}

#[test]
fn backspace_on_empty_is_noop() {
    let mut t = Todo::new();
    t.remove();
    assert!(t.text.is_empty());
    assert_eq!(t.pos, 0);
    assert!(!t.is_done);
}

#[test]
fn backspace_deletes_before_cursor() {
    let mut t = todo("abc", false);
    t.pos = 2;
    t.remove();
    assert_eq!(t.text, vec!['a', 'c']);
    assert_eq!(t.pos, 1);
}

#[test]
fn typing_past_cap_is_ignored() {
    let mut t = Todo::new();
    for _ in 0..MAX_TEXT_LEN {
        t.insert('x');
    }
    assert_eq!(t.text.len(), 100);
    let before = t.text.clone();
    t.insert('y');
    t.left();
    t.insert('z');
    assert_eq!(t.text, before);
    assert_eq!(t.pos, 99);
}

#[test]
fn rendering_marks_cursor() {
    let mut t = todo("milk", false);
    assert_eq!(t.get_text(), "milk|");
    t.pos = 0;
    assert_eq!(t.get_text(), "|milk");
    assert_eq!(t.get_pretty(), " [ ] |milk ");
    t.is_done = true;
    assert_eq!(t.get_pretty(), " [*] |milk ");
    assert_eq!(Todo::new().get_pretty(), " [ ] | ");
}

#[test]
fn selection_stays_in_range_over_events() {
    let mut s = Screen::new(None);
    let events = [
        Event::AddItem,
        Event::Character('a'),
        Event::ExitInsert,
        Event::AddItem,
        Event::ExitInsert,
        Event::MoveDown,
        Event::MoveDown,
        Event::DeleteItem,
        Event::DeleteItem,
        Event::DeleteItem,
        Event::DeleteItem,
        Event::MoveDown,
        Event::MoveUp,
        Event::AddItem,
        Event::Backspace,
        Event::MoveLeft,
        Event::MoveRight,
    ];
    for ev in events {
        s.handle(ev);
        assert!(s.todos.is_empty() || s.select < s.todos.len());
        assert!(!s.todos.is_empty() || s.select == 0);
    }
}

#[test]
fn add_item_enters_insert_on_new_blank() {
    let mut s = screen(&["a", "b", "c"], 0, State::Normal);
    s.handle(Event::AddItem);
    assert_eq!(s.state, State::Insert);
    assert_eq!(s.todos.len(), 4);
    assert_eq!(s.select, 3);
    assert!(s.todos[3].text.is_empty());
    assert_eq!(texts(&s)[..3], ["a", "b", "c"]);
}

#[test]
fn save_drops_empty_items_and_clamps() {
    let mut s = screen(&["a", "", "b", ""], 3, State::Normal);
    s.save();
    assert_eq!(texts(&s), ["a", "b"]);
    assert_eq!(s.select, 1);
    let mut e = screen(&["", ""], 1, State::Normal);
    e.save();
    assert!(e.todos.is_empty());
    assert_eq!(e.select, 0);
}

#[test]
fn quit_saves_and_exits() {
    let mut s = screen(&["", "x"], 0, State::Normal);
    assert_eq!(s.handle(Event::Quit), Action::Exit);
    assert_eq!(texts(&s), ["x"]);
    let mut i = screen(&["", "x"], 0, State::Insert);
    assert_eq!(i.handle(Event::Quit), Action::Continue);
    assert_eq!(i.todos.len(), 2);
}

#[test]
fn save_then_load_keeps_items_with_text() {
    let mut s = screen(&["one", "", "two"], 2, State::Normal);
    s.todos[2].is_done = true;
    s.save();
    let loaded = Screen::from_file(Some(Screen {
        todos: s.todos.iter().map(|t| Todo { text: t.text.clone(), is_done: t.is_done, pos: t.pos }).collect(),
        select: s.select,
        state: s.state,
    }));
    assert_eq!(texts(&loaded), ["one", "two"]);
    assert!(!loaded.todos[0].is_done);
    assert!(loaded.todos[1].is_done);
    assert_eq!(loaded.select, 1);
}

#[test]
fn load_repairs_bad_cursor_and_selection() {
    let mut t = todo("ab", false);
    t.pos = 7;
    let s = Screen::from_file(Some(Screen { todos: vec![t], select: 5, state: State::Insert }));
    assert_eq!(s.todos[0].pos, 2);
    assert_eq!(s.select, 0);
    assert_eq!(s.state, State::Insert);
}

#[test]
fn remove_selects_item_above() {
    let mut s = screen(&["a", "b", "c"], 2, State::Normal);
    s.remove();
    assert_eq!(texts(&s), ["a", "b"]);
    assert_eq!(s.select, 1);
    let mut t = screen(&["a", "b"], 0, State::Normal);
    t.remove();
    assert_eq!(texts(&t), ["b"]);
    assert_eq!(t.select, 0);
}

#[test]
fn toggle_and_mode_switches() {
    let mut s = screen(&["a"], 0, State::Normal);
    s.handle(Event::ToggleDone);
    assert!(s.todos[0].is_done);
    s.handle(Event::EnterInsert);
    assert_eq!(s.state, State::Insert);
    s.handle(Event::ToggleDone);
    assert!(s.todos[0].is_done);
    s.handle(Event::Backspace);
    assert!(s.todos[0].text.is_empty());
    s.handle(Event::ExitInsert);
    assert_eq!(s.state, State::Normal);
    s.handle(Event::Character('q'));
    assert!(s.todos[0].text.is_empty());
}

#[test]
fn keys_map_by_mode() {
    assert_eq!(decode_key(State::Normal, Key::Esc), Some(Event::Quit));
    assert_eq!(decode_key(State::Insert, Key::Esc), Some(Event::ExitInsert));
    assert_eq!(decode_key(State::Normal, Key::Char('j')), Some(Event::MoveDown));
    assert_eq!(decode_key(State::Insert, Key::Char('j')), Some(Event::Character('j')));
    assert_eq!(decode_key(State::Normal, Key::Char('k')), Some(Event::MoveUp));
    assert_eq!(decode_key(State::Normal, Key::Char(' ')), Some(Event::ToggleDone));
    assert_eq!(decode_key(State::Normal, Key::Char('o')), Some(Event::ToggleDone));
    assert_eq!(decode_key(State::Normal, Key::Char('n')), Some(Event::AddItem));
    assert_eq!(decode_key(State::Normal, Key::Char('d')), Some(Event::DeleteItem));
    assert_eq!(decode_key(State::Normal, Key::Enter), Some(Event::EnterInsert));
    assert_eq!(decode_key(State::Normal, Key::Char('i')), Some(Event::EnterInsert));
    assert_eq!(decode_key(State::Insert, Key::Enter), None);
    assert_eq!(decode_key(State::Normal, Key::Char('z')), None);
    assert_eq!(decode_key(State::Normal, Key::Backspace), None);
    assert_eq!(decode_key(State::Insert, Key::Backspace), Some(Event::Backspace));
    assert_eq!(decode_key(State::Insert, Key::Other), None);
}
