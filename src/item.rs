use vstd::prelude::*;

verus! {

/// One entry of the todo list.
pub struct TodoItem {
    pub is_done: bool,
    pub description: String,
}

/// The mathematical value of a [`TodoItem`].
pub ghost struct ItemView {
    pub is_done: bool,
    pub description: Seq<char>,
}

impl View for TodoItem {
    type V = ItemView;

    open spec fn view(&self) -> ItemView {
        ItemView { is_done: self.is_done, description: self.description@ }
    }
}

/// The direction in which the selection cursor moves.
#[derive(Clone, Copy, Debug, PartialEq, Eq)]
pub enum Direction {
    Previous,
    Next,
}

/// The store after appending a fresh, not-done item with text `d`.
pub open spec fn appended(items: Seq<ItemView>, d: Seq<char>) -> Seq<ItemView> {
    items.push(ItemView { is_done: false, description: d })
}

} // verus!
