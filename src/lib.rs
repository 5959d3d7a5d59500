//! A small terminal todo-list manager: an ordered store of items, a
//! selection cursor that stays inside the store, and a two-mode keyboard
//! state machine (browsing the list, or typing the text of a new item).
//!
//! Everything here is pure state manipulation with exact contracts; drawing
//! and reading the terminal live outside this library.

mod cursor;
mod item;
mod laws;
mod state;
mod text;

pub use cursor::{cursor_after_removal, cursor_moved, cursor_valid, move_cursor};
pub use laws::{
    add_all, fresh_items, lemma_adds_keep_order, lemma_cancel_discards, lemma_delete_on_empty,
    lemma_delete_only_item, lemma_empty_has_no_selection, lemma_next_then_previous,
    lemma_submit_adds,
};
pub use item::{appended, Direction, ItemView, TodoItem};
pub use state::{
    edited, form_action, handle_add_new, handle_event, handle_key, key_step, normal_step, AppState,
    FormAction, Key, Mode, ModeView, StateView,
};
