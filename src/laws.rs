use vstd::prelude::*;

use crate::item::{Direction, ItemView};
use crate::state::{key_step, normal_step, Key, ModeView, StateView};

verus! {

/// The state after `add` was called once for each text of `texts`, in order.
pub open spec fn add_all(s: StateView, texts: Seq<Seq<char>>) -> StateView
    decreases texts.len(),
{
    if texts.len() == 0 {
        s
    } else {
        add_all(s, texts.drop_last()).added(texts.last())
    }
}

/// The items that `texts` become when added: not done, text kept.
pub open spec fn fresh_items(texts: Seq<Seq<char>>) -> Seq<ItemView> {
    texts.map_values(|d: Seq<char>| ItemView { is_done: false, description: d })
}

/// Adding N texts grows the store by exactly N items, which follow the
/// earlier ones in the order the texts were added; the selection and the
/// mode are kept. From an empty store, the store then holds exactly N items.
pub proof fn lemma_adds_keep_order(s: StateView, texts: Seq<Seq<char>>)
    ensures
        add_all(s, texts).items == s.items + fresh_items(texts),
        add_all(s, texts).items.len() == s.items.len() + texts.len(),
        add_all(s, texts).cursor == s.cursor,
        add_all(s, texts).mode == s.mode,
    decreases texts.len(),
{
    if texts.len() > 0 {
        lemma_adds_keep_order(s, texts.drop_last());
        assert(fresh_items(texts) =~= fresh_items(texts.drop_last()).push(
            ItemView { is_done: false, description: texts.last() },
        ));
        assert(add_all(s, texts).items =~= s.items + fresh_items(texts));
    }
}

/// Pressing Enter in the add-item form with buffer `x` does what `add(x)`
/// does, then returns to the normal mode, whose buffer is empty.
pub proof fn lemma_submit_adds(s: StateView, x: Seq<char>)
    requires
        s.mode == ModeView::AddNew(x),
    ensures
        key_step(s, Key::Enter) == (s.added(x).with_mode(ModeView::Normal), false),
        key_step(s, Key::Enter).0.buffer() == Seq::<char>::empty(),
{
}

/// Pressing Esc in the add-item form leaves the store and the selection as
/// they were, returns to the normal mode and empties the buffer.
pub proof fn lemma_cancel_discards(s: StateView, x: Seq<char>)
    requires
        s.mode == ModeView::AddNew(x),
    ensures
        key_step(s, Key::Esc) == (s.with_mode(ModeView::Normal), false),
        key_step(s, Key::Esc).0.items == s.items,
        key_step(s, Key::Esc).0.buffer() == Seq::<char>::empty(),
{
}

/// Deleting from an empty store changes nothing, whether called directly
/// or through the `d` key.
pub proof fn lemma_delete_on_empty(s: StateView)
    requires
        s.wf(),
        s.items.len() == 0,
    ensures
        s.deleted() == s,
        normal_step(s, Key::Char('d')) == s,
{
}

/// An empty store has nothing selected; so deleting the only item leaves
/// an empty store with nothing selected.
pub proof fn lemma_delete_only_item(s: StateView)
    requires
        s.wf(),
        s.items.len() == 1,
        s.cursor is Some,
    ensures
        s.deleted().items.len() == 0,
        s.deleted().cursor is None,
        s.deleted().wf(),
{
}

/// In a well-formed state an empty store has nothing selected.
pub proof fn lemma_empty_has_no_selection(s: StateView)
    requires
        s.wf(),
        s.items.len() == 0,
    ensures
        s.cursor is None,
{
}

/// From the first of at least two items, moving down and then up comes back
/// to the first item.
pub proof fn lemma_next_then_previous(s: StateView)
    requires
        s.wf(),
        s.items.len() >= 2,
        s.cursor == Some(0usize),
    ensures
        s.moved(Direction::Next).cursor == Some(1usize),
        s.moved(Direction::Next).moved(Direction::Previous) == s,
{
}

} // verus!
