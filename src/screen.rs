use vstd::prelude::*;
use crate::todo::{Todo, TodoView};

verus! {

/// The interaction mode: `Normal` navigates and edits the list, `Insert`
/// edits the text of the selected item.
#[derive(Clone, Copy, Debug, PartialEq, Eq, Structural)]
pub enum State {
    Insert,
    Normal,
}

/// The abstract value of a [`Screen`].
pub struct ScreenView {
    pub todos: Seq<TodoView>,
    pub select: nat,
    pub state: State,
}

/// The abstract values of a sequence of items.
pub open spec fn views(v: Seq<Todo>) -> Seq<TodoView> {
    v.map_values(|t: Todo| t@)
}

/// The items that have text, in their order.
pub open spec fn kept(todos: Seq<TodoView>) -> Seq<TodoView> {
    todos.filter(|t: TodoView| t.text.len() > 0)
}

/// `t` with its cursor pulled back inside its text.
pub open spec fn clamped(t: TodoView) -> TodoView {
    if t.pos <= t.text.len() {
        t
    } else {
        TodoView { text: t.text, is_done: t.is_done, pos: t.text.len() }
    }
}

/// The largest valid selection that is at most `select`, for a list of `len` items.
pub open spec fn clamped_select(select: nat, len: nat) -> nat {
    if select < len {
        select
    } else if len > 0 {
        (len - 1) as nat
    } else {
        0
    }
}

impl ScreenView {
    /// Every cursor is valid, and the selection names an item whenever there is one.
    pub open spec fn wf(self) -> bool {
        &&& forall|i: int| 0 <= i < self.todos.len() ==> (#[trigger] self.todos[i]).wf()
        &&& self.select < self.todos.len() || (self.todos.len() == 0 && self.select == 0)
    }

    /// One blank item, selected, in `Normal` mode.
    pub open spec fn fresh() -> ScreenView {
        ScreenView { todos: seq![TodoView::empty()], select: 0, state: State::Normal }
    }

    pub open spec fn moved_up(self) -> ScreenView {
        if self.select > 0 {
            ScreenView { todos: self.todos, select: (self.select - 1) as nat, state: self.state }
        } else {
            self
        }
    }

    pub open spec fn moved_down(self) -> ScreenView {
        if self.select + 1 < self.todos.len() {
            ScreenView { todos: self.todos, select: self.select + 1, state: self.state }
        } else {
            self
        }
    }

    /// The selected item replaced by `t`; nothing changes on an empty list.
    pub open spec fn with_selected(self, t: TodoView) -> ScreenView {
        if self.todos.len() > 0 {
            ScreenView {
                todos: self.todos.update(self.select as int, t),
                select: self.select,
                state: self.state,
            }
        } else {
            self
        }
    }

    pub open spec fn selected(self) -> TodoView {
        self.todos[self.select as int]
    }

    /// A blank item appended, selected, in `Insert` mode.
    pub open spec fn added(self) -> ScreenView {
        ScreenView {
            todos: self.todos.push(TodoView::empty()),
            select: self.todos.len(),
            state: State::Insert,
        }
    }

    /// The selected item gone, and the selection one up (or still at the top).
    pub open spec fn removed_selected(self) -> ScreenView {
        if self.todos.len() > 0 {
            ScreenView {
                todos: self.todos.remove(self.select as int),
                select: if self.select > 0 { (self.select - 1) as nat } else { 0 },
                state: self.state,
            }
        } else {
            self
        }
    }

    /// The items without text dropped, and the selection clamped to what is left.
    pub open spec fn saved(self) -> ScreenView {
        ScreenView {
            todos: kept(self.todos),
            select: clamped_select(self.select, kept(self.todos).len()),
            state: self.state,
        }
    }

    /// A list read back from storage, with cursors and selection made valid.
    pub open spec fn restored(self) -> ScreenView {
        ScreenView {
            todos: self.todos.map_values(|t: TodoView| clamped(t)),
            select: clamped_select(self.select, self.todos.len()),
            state: self.state,
        }
    }
}

/// The todo list: its items, the selected one, and the mode.
#[derive(Debug)]
pub struct Screen {
    pub todos: Vec<Todo>,
    pub select: usize,
    pub state: State,
}

impl View for Screen {
    type V = ScreenView;

    open spec fn view(&self) -> ScreenView {
        ScreenView { todos: views(self.todos@), select: self.select as nat, state: self.state }
    }
}

impl Screen {
    /// A list with one blank item in `Normal` mode. With one item the only
    /// valid selection is that item, so any `select` given is clamped to it.
    pub fn new(select: Option<usize>) -> (r: Screen)
        ensures
            r@ == ScreenView::fresh(),
            r@.wf(),
    {
        let mut todos = Vec::new();
        todos.push(Todo::new());
        let r = Screen { todos, select: 0, state: State::Normal };
        assert(r@.todos =~= seq![TodoView::empty()]);
        r
    }

    /// The list to start a session with, given what was read from the todo
    /// file: the stored list made valid, or a fresh list when nothing could
    /// be read.
    pub fn from_file(loaded: Option<Screen>) -> (r: Screen)
        ensures
            r@.wf(),
            match loaded {
                Some(s) => r@ == s@.restored(),
                None => r@ == ScreenView::fresh(),
            },
    {
        match loaded {
            None => Screen::new(None),
            Some(mut s) => {
                let ghost start = s@;
                let ghost orig = s@.todos;
                let mut i: usize = 0;
                while i < s.todos.len()
                    invariant
                        i <= s.todos@.len(),
                        s.todos@.len() == orig.len(),
                        s.select == start.select,
                        s.state == start.state,
                        forall|j: int| 0 <= j < i ==> s@.todos[j] == clamped(#[trigger] orig[j]),
                        forall|j: int| i <= j < orig.len() ==> s@.todos[j] == #[trigger] orig[j],
                    decreases orig.len() - i,
                {
                    let len = s.todos[i].text.len();
                    if s.todos[i].pos > len {
                        s.todos[i].pos = len;
                    }
                    i = i + 1;
                }
                if s.select >= s.todos.len() {
                    s.select = if s.todos.len() > 0 { s.todos.len() - 1 } else { 0 };
                }
                assert(s@.todos =~= start.restored().todos);
                s
            },
        }
    }

    /// Readies the list for the todo file: drops every item without text,
    /// keeping the order of the rest, and clamps the selection to what is left.
    pub fn save(&mut self)
        requires
            old(self)@.wf(),
        ensures
            final(self)@ == old(self)@.saved(),
            final(self)@.wf(),
    {
        let ghost orig = self@.todos;
        let mut rest: Vec<Todo> = Vec::new();
        std::mem::swap(&mut rest, &mut self.todos);
        let mut new_todos: Vec<Todo> = Vec::new();
        let ghost mut j: int = 0;
        while rest.len() > 0
            invariant
                0 <= j <= orig.len(),
                views(rest@) == orig.skip(j),
                views(new_todos@) == kept(orig.take(j)),
            decreases rest@.len(),
        {
            let ghost before = rest@;
            assert(views(before).len() == before.len());
            assert(views(before)[0] == orig[j]);
            let t = rest.remove(0);
            proof {
                assert(orig.take(j + 1).drop_last() =~= orig.take(j));
                assert(orig.take(j + 1).last() == t@);
                reveal(Seq::filter);
            }
            if t.text.len() > 0 {
                new_todos.push(t);
            }
            proof {
                j = j + 1;
            }
            assert forall|k: int| 0 <= k < rest@.len() implies views(rest@)[k] == orig.skip(j)[k] by {
                assert(rest@[k] == before[k + 1]);
                assert(views(before)[k + 1] == orig.skip(j - 1)[k + 1]);
            }
            assert(views(rest@) =~= orig.skip(j));
            assert(views(new_todos@) =~= kept(orig.take(j)));
        }
        assert(orig.take(j) =~= orig);
        self.todos = new_todos;
        if self.select >= self.todos.len() {
            self.select = if self.todos.len() > 0 { self.todos.len() - 1 } else { 0 };
        }
        proof {
            lemma_kept_have_text(orig);
        }
    }

    /// Moves the selection one up; stays at the top.
    pub fn up(&mut self)
        requires
            old(self)@.wf(),
        ensures
            final(self)@ == old(self)@.moved_up(),
            final(self)@.wf(),
    {
        if self.select > 0 {
            self.select -= 1
        }
    }

    /// Moves the selection one down; stays at the bottom, and on an empty list.
    pub fn down(&mut self)
        requires
            old(self)@.wf(),
        ensures
            final(self)@ == old(self)@.moved_down(),
            final(self)@.wf(),
    {
        if self.todos.len() > 0 && self.select < self.todos.len() - 1 {
            self.select += 1
        }
    }

    /// Moves the cursor of the selected item one left.
    pub fn left(&mut self)
        requires
            old(self)@.wf(),
        ensures
            final(self)@ == old(self)@.with_selected(old(self)@.selected().moved_left()),
            final(self)@.wf(),
    {
        if self.todos.len() > 0 {
            let i = self.select;
            self.todos[i].left();
            assert(self@.todos =~= old(self)@.todos.update(i as int, old(self)@.selected().moved_left()));
        }
    }

    /// Moves the cursor of the selected item one right.
    pub fn right(&mut self)
        requires
            old(self)@.wf(),
        ensures
            final(self)@ == old(self)@.with_selected(old(self)@.selected().moved_right()),
            final(self)@.wf(),
    {
        if self.todos.len() > 0 {
            let i = self.select;
            self.todos[i].right();
            assert(self@.todos =~= old(self)@.todos.update(i as int, old(self)@.selected().moved_right()));
        }
    }

    /// Appends a blank item at the end, selects it and enters `Insert` mode.
    pub fn add(&mut self)
        requires
            old(self)@.wf(),
        ensures
            final(self)@ == old(self)@.added(),
            final(self)@.wf(),
    {
        self.todos.push(Todo::new());
        self.select = self.todos.len() - 1;
        self.state = State::Insert;
        assert(self@.todos =~= old(self)@.todos.push(TodoView::empty()));
    }

    /// Removes the selected item, whatever its text, and selects the one above.
    pub fn remove(&mut self)
        requires
            old(self)@.wf(),
        ensures
            final(self)@ == old(self)@.removed_selected(),
            final(self)@.wf(),
    {
        if self.todos.len() > 0 {
            self.todos.remove(self.select);
            if self.select > 0 {
                self.select -= 1;
            }
            assert(self@.todos =~= old(self)@.todos.remove(old(self).select as int));
        }
    }

    /// Types `c` into the selected item.
    pub fn push(&mut self, c: char)
        requires
            old(self)@.wf(),
        ensures
            final(self)@ == old(self)@.with_selected(old(self)@.selected().inserted(c)),
            final(self)@.wf(),
    {
        if self.todos.len() > 0 {
            let i = self.select;
            self.todos[i].insert(c);
            assert(self@.todos =~= old(self)@.todos.update(i as int, old(self)@.selected().inserted(c)));
        }
    }

    /// Backspace in the selected item.
    pub fn pop(&mut self)
        requires
            old(self)@.wf(),
        ensures
            final(self)@ == old(self)@.with_selected(old(self)@.selected().removed()),
            final(self)@.wf(),
    {
        if self.todos.len() > 0 {
            let i = self.select;
            self.todos[i].remove();
            assert(self@.todos =~= old(self)@.todos.update(i as int, old(self)@.selected().removed()));
        }
    }

    /// Flips the done flag of the selected item.
    pub fn toggle_done(&mut self)
        requires
            old(self)@.wf(),
        ensures
            final(self)@ == old(self)@.with_selected(old(self)@.selected().toggled()),
            final(self)@.wf(),
    {
        if self.todos.len() > 0 {
            let i = self.select;
            self.todos[i].is_done = !self.todos[i].is_done;
            assert(self@.todos =~= old(self)@.todos.update(i as int, old(self)@.selected().toggled()));
        }
    }
}

/// Every item that survives a save has text, and is well formed if it was.
pub proof fn lemma_kept_have_text(todos: Seq<TodoView>)
    ensures
        forall|i: int| 0 <= i < kept(todos).len() ==> (#[trigger] kept(todos)[i]).text.len() > 0,
        (forall|i: int| 0 <= i < todos.len() ==> (#[trigger] todos[i]).wf()) ==> (forall|i: int|
            0 <= i < kept(todos).len() ==> (#[trigger] kept(todos)[i]).wf()),
    decreases todos.len(),
{
    reveal(Seq::filter);
    if todos.len() > 0 {
        lemma_kept_have_text(todos.drop_last());
        let k = kept(todos);
        let kd = kept(todos.drop_last());
        assert forall|i: int| 0 <= i < k.len() implies (#[trigger] k[i]).text.len() > 0 by {
            if i < kd.len() {
                assert(k[i] == kd[i]);
            }
        }
        if forall|i: int| 0 <= i < todos.len() ==> (#[trigger] todos[i]).wf() {
            assert forall|i: int| 0 <= i < todos.drop_last().len() implies (
            #[trigger] todos.drop_last()[i]).wf() by {
                assert(todos.drop_last()[i] == todos[i]);
            }
            assert forall|i: int| 0 <= i < k.len() implies (#[trigger] k[i]).wf() by {
                if i < kd.len() {
                    assert(k[i] == kd[i]);
                }
            }
        }
    }
}

} // verus!
