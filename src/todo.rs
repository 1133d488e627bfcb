use vstd::prelude::*;

verus! {

/// The longest text an item holds; characters typed past it are ignored.
pub const MAX_TEXT_LEN: usize = 100;

/// The abstract value of a [`Todo`]: its characters, its done flag, and the
/// insertion point of the editing cursor.
pub struct TodoView {
    pub text: Seq<char>,
    pub is_done: bool,
    pub pos: nat,
}

impl TodoView {
    /// The item with no text, not done, cursor at the start.
    pub open spec fn empty() -> TodoView {
        TodoView { text: Seq::empty(), is_done: false, pos: 0 }
    }

    /// The cursor is a valid insertion point, the end of the text included.
    pub open spec fn wf(self) -> bool {
        self.pos <= self.text.len()
    }

    pub open spec fn moved_left(self) -> TodoView {
        if self.pos > 0 {
            TodoView { text: self.text, is_done: self.is_done, pos: (self.pos - 1) as nat }
        } else {
            self
        }
    }

    pub open spec fn moved_right(self) -> TodoView {
        if self.pos < self.text.len() {
            TodoView { text: self.text, is_done: self.is_done, pos: self.pos + 1 }
        } else {
            self
        }
    }

    /// `c` goes in at the cursor and the cursor moves past it, unless the
    /// text is already at its cap.
    pub open spec fn inserted(self, c: char) -> TodoView {
        if self.text.len() < MAX_TEXT_LEN {
            TodoView {
                text: self.text.insert(self.pos as int, c),
                is_done: self.is_done,
                pos: self.pos + 1,
            }
        } else {
            self
        }
    }

    /// Backspace: the character just before the cursor goes away.
    pub open spec fn removed(self) -> TodoView {
        if self.pos > 0 {
            TodoView {
                text: self.text.remove(self.pos - 1),
                is_done: self.is_done,
                pos: (self.pos - 1) as nat,
            }
        } else {
            self
        }
    }

    pub open spec fn toggled(self) -> TodoView {
        TodoView { text: self.text, is_done: !self.is_done, pos: self.pos }
    }

    /// The text with a `|` caret at the cursor.
    pub open spec fn rendered(self) -> Seq<char> {
        self.text.take(self.pos as int) + seq!['|'] + self.text.skip(self.pos as int)
    }

    /// The line shown for the item: ` [*] text ` when done, ` [ ] text ` when not.
    pub open spec fn pretty(self) -> Seq<char> {
        seq![' ', '[', if self.is_done { '*' } else { ' ' }, ']', ' '] + self.rendered() + seq![' ']
    }
}

/// One todo item: an editable line of text and a done flag.
#[derive(Debug)]
pub struct Todo {
    pub text: Vec<char>,
    pub is_done: bool,
    pub pos: usize,
}

impl View for Todo {
    type V = TodoView;

    open spec fn view(&self) -> TodoView {
        TodoView { text: self.text@, is_done: self.is_done, pos: self.pos as nat }
    }
}

/// Relies on `String::push`: the character is appended at the end.
#[verifier::external_body]
fn push_char(s: &mut String, c: char)
    ensures
        final(s)@ == old(s)@.push(c),
{
    s.push(c)
}

impl Todo {
    pub fn new() -> (r: Todo)
        ensures
            r@ == TodoView::empty(),
    {
        Todo { text: Vec::new(), is_done: false, pos: 0 }
    }

    /// The text with a `|` caret at the cursor.
    pub fn get_text(&self) -> (r: String)
        requires
            self@.wf(),
        ensures
            r@ == self@.rendered(),
    {
        let mut s = String::new();
        let mut i: usize = 0;
        while i < self.text.len()
            invariant
                self@.wf(),
                i <= self.text@.len(),
                s@ == (if i <= self.pos {
                    self.text@.take(i as int)
                } else {
                    self.text@.take(self.pos as int) + seq!['|'] + self.text@.subrange(
                        self.pos as int,
                        i as int,
                    )
                }),
            decreases self.text@.len() - i,
        {
            if i == self.pos {
                push_char(&mut s, '|');
            }
            push_char(&mut s, self.text[i]);
            i = i + 1;
            assert(s@ =~= (if i <= self.pos {
                self.text@.take(i as int)
            } else {
                self.text@.take(self.pos as int) + seq!['|'] + self.text@.subrange(
                    self.pos as int,
                    i as int,
                )
            }));
        }
        if self.pos == self.text.len() {
            push_char(&mut s, '|');
        }
        assert(s@ =~= self@.rendered());
        s
    }

    /// The line shown for the item: ` [*] text ` when done, ` [ ] text ` when not.
    pub fn get_pretty(&self) -> (r: String)
        requires
            self@.wf(),
        ensures
            r@ == self@.pretty(),
    {
        let mut s = String::new();
        push_char(&mut s, ' ');
        push_char(&mut s, '[');
        push_char(&mut s, if self.is_done { '*' } else { ' ' });
        push_char(&mut s, ']');
        push_char(&mut s, ' ');
        let text = self.get_text();
        let mut i: usize = 0;
        let ghost head = s@;
        while i < text.unicode_len()
            invariant
                i <= text@.len(),
                s@ == head + text@.take(i as int),
            decreases text@.len() - i,
        {
            push_char(&mut s, text.get_char(i));
            i = i + 1;
            assert(s@ =~= head + text@.take(i as int));
        }
        push_char(&mut s, ' ');
        assert(s@ =~= self@.pretty());
        s
    }

    pub fn left(&mut self)
        ensures
            final(self)@ == old(self)@.moved_left(),
    {
        if self.pos > 0 {
            self.pos -= 1
        }
    }

    pub fn right(&mut self)
        ensures
            final(self)@ == old(self)@.moved_right(),
    {
        if self.pos < self.text.len() {
            self.pos += 1
        }
    }

    /// Types `c` at the cursor; ignored once the text holds `MAX_TEXT_LEN` characters.
    pub fn insert(&mut self, c: char)
        requires
            old(self)@.wf(),
        ensures
            final(self)@ == old(self)@.inserted(c),
    {
        if self.text.len() < MAX_TEXT_LEN {
            self.text.insert(self.pos, c);
            self.pos += 1;
        }
    }

    /// Backspace: deletes the character before the cursor, if there is one.
    pub fn remove(&mut self)
        requires
            old(self)@.wf(),
        ensures
            final(self)@ == old(self)@.removed(),
    {
        if self.pos > 0 {
            self.text.remove(self.pos - 1);
            self.pos -= 1;
        }
    }
}

/// Moving, typing and backspacing keep the cursor between the start and the
/// end of the text.
pub proof fn lemma_edits_keep_cursor_in_text(t: TodoView, c: char)
    requires
        t.wf(),
    ensures
        t.moved_left().wf(),
        t.moved_right().wf(),
        t.inserted(c).wf(),
        t.removed().wf(),
        t.toggled().wf(),
{
}

/// Typing a character and then moving left puts the cursor back where it
/// was, now just before the typed character.
pub proof fn lemma_insert_then_left(t: TodoView, c: char)
    requires
        t.wf(),
        t.text.len() < MAX_TEXT_LEN,
    ensures
        t.inserted(c).moved_left().pos == t.pos,
        t.inserted(c).moved_left().text[t.pos as int] == c,
        t.inserted(c).moved_left().rendered() == t.text.take(t.pos as int) + seq!['|', c]
            + t.text.skip(t.pos as int),
{
    let u = t.inserted(c).moved_left();
    assert(u.text.take(t.pos as int) =~= t.text.take(t.pos as int));
    assert(u.text.skip(t.pos as int) =~= seq![c] + t.text.skip(t.pos as int));
    assert(u.rendered() =~= t.text.take(t.pos as int) + seq!['|', c] + t.text.skip(t.pos as int));
}

/// Backspace on an empty text changes nothing.
pub proof fn lemma_remove_on_empty_is_noop(t: TodoView)
    requires
        t.wf(),
        t.text.len() == 0,
    ensures
        t.removed() == t,
{
}

/// Typing into a full text changes nothing.
pub proof fn lemma_insert_at_cap_is_noop(t: TodoView, c: char)
    requires
        t.text.len() >= MAX_TEXT_LEN,
    ensures
        t.inserted(c) == t,
        t.inserted(c).text == t.text,
{
}

} // verus!
