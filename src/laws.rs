use vstd::prelude::*;
use crate::input::{Action, Event};
use crate::screen::{clamped, kept, lemma_kept_have_text, ScreenView, State};
use crate::todo::{lemma_edits_keep_cursor_in_text, TodoView};

verus! {

proof fn lemma_with_selected_wf(s: ScreenView, t: TodoView)
    requires
        s.wf(),
        t.wf(),
    ensures
        s.with_selected(t).wf(),
{
    let r = s.with_selected(t);
    assert forall|i: int| 0 <= i < r.todos.len() implies (#[trigger] r.todos[i]).wf() by {
        if i != s.select {
            assert(r.todos[i] == s.todos[i]);
        }
    }
}

/// Every event keeps each cursor valid and the selection on an item whenever
/// the list has one; on an empty list moving does nothing.
pub proof fn lemma_event_keeps_selection_in_range(s: ScreenView, ev: Event)
    requires
        s.wf(),
    ensures
        s.handled(ev).0.wf(),
        s.todos.len() == 0 && (ev == Event::MoveUp || ev == Event::MoveDown) ==> s.handled(ev).0
            == s,
{
    if s.todos.len() > 0 {
        let t = s.selected();
        lemma_edits_keep_cursor_in_text(t, 'a');
        match ev {
            Event::Character(c) => lemma_edits_keep_cursor_in_text(t, c),
            _ => {},
        }
        lemma_with_selected_wf(s, t.toggled());
        lemma_with_selected_wf(s, t.moved_left());
        lemma_with_selected_wf(s, t.moved_right());
        lemma_with_selected_wf(s, t.removed());
        match ev {
            Event::Character(c) => lemma_with_selected_wf(s, t.inserted(c)),
            _ => {},
        }
    }
    lemma_save_leaves_no_empty_item(s);
    let a = s.added();
    assert forall|i: int| 0 <= i < a.todos.len() implies (#[trigger] a.todos[i]).wf() by {
        if i < s.todos.len() {
            assert(a.todos[i] == s.todos[i]);
        }
    }
    let d = s.removed_selected();
    if s.todos.len() > 0 {
        assert forall|i: int| 0 <= i < d.todos.len() implies (#[trigger] d.todos[i]).wf() by {
            if i < s.select {
                assert(d.todos[i] == s.todos[i]);
            } else {
                assert(d.todos[i] == s.todos[i + 1]);
            }
        }
    }
}

/// However many events come, the list stays well formed.
pub proof fn lemma_events_keep_selection_in_range(s: ScreenView, evs: Seq<Event>)
    requires
        s.wf(),
    ensures
        s.after_events(evs).wf(),
    decreases evs.len(),
{
    if evs.len() > 0 {
        lemma_event_keeps_selection_in_range(s, evs[0]);
        lemma_events_keep_selection_in_range(s.handled(evs[0]).0, evs.skip(1));
    }
}

/// Adding an item in `Normal` mode appends a blank item, selects it and
/// enters `Insert` mode.
pub proof fn lemma_add_item_selects_new_blank(s: ScreenView)
    requires
        s.wf(),
        s.state == State::Normal,
    ensures
        s.handled(Event::AddItem).0.state == State::Insert,
        s.handled(Event::AddItem).0.todos.len() == s.todos.len() + 1,
        s.handled(Event::AddItem).0.select == s.todos.len(),
        s.handled(Event::AddItem).0.selected() == TodoView::empty(),
        s.handled(Event::AddItem).0.todos.drop_last() == s.todos,
        s.handled(Event::AddItem).1 == Action::Continue,
{
    assert(s.handled(Event::AddItem).0.todos.drop_last() =~= s.todos);
}

/// After a save no item is without text, and the list is well formed.
pub proof fn lemma_save_leaves_no_empty_item(s: ScreenView)
    requires
        s.wf(),
    ensures
        forall|i: int|
            0 <= i < s.saved().todos.len() ==> (#[trigger] s.saved().todos[i]).text.len() > 0,
        s.saved().wf(),
{
    lemma_kept_have_text(s.todos);
}

/// Saving and reading back gives exactly the items that had text, in their
/// order, with the saved selection and mode.
pub proof fn lemma_save_then_load(s: ScreenView)
    requires
        s.wf(),
    ensures
        s.saved().restored() == s.saved(),
        s.saved().restored().todos == kept(s.todos),
{
    lemma_save_leaves_no_empty_item(s);
    let p = s.saved();
    assert(p.todos.map_values(|t: TodoView| clamped(t)) =~= p.todos);
}

} // verus!
