use vstd::prelude::*;

use crate::item::Direction;

verus! {

/// A cursor is valid for a store of `len` items when it points inside the
/// store, and nothing is selected in an empty store.
pub open spec fn cursor_valid(len: nat, cursor: Option<usize>) -> bool {
    match cursor {
        Some(i) => i < len,
        None => true,
    }
}

/// Where the cursor goes when it moves one step in `dir` over `len` items.
/// It stops at both ends. With nothing selected, `Next` selects the first
/// item and `Previous` the last one; in an empty store nothing is selected.
pub open spec fn cursor_moved(len: nat, cursor: Option<usize>, dir: Direction) -> Option<usize> {
    if len == 0 {
        None
    } else {
        match (cursor, dir) {
            (None, Direction::Next) => Some(0),
            (None, Direction::Previous) => Some((len - 1) as usize),
            (Some(i), Direction::Next) => if i + 1 < len {
                Some((i + 1) as usize)
            } else {
                Some((len - 1) as usize)
            },
            (Some(i), Direction::Previous) => if i == 0 {
                Some(0)
            } else {
                Some((i - 1) as usize)
            },
        }
    }
}

/// Where the cursor goes once the item at index `i` was removed and `len`
/// items are left: it stays on the same index, or on the new last item when
/// the removed one was last, or on nothing when the store became empty.
pub open spec fn cursor_after_removal(len: nat, i: usize) -> Option<usize> {
    if len == 0 {
        None
    } else if i < len {
        Some(i)
    } else {
        Some((len - 1) as usize)
    }
}

/// Moves the cursor one step in `dir` over a store of `len` items.
pub fn move_cursor(len: usize, cursor: Option<usize>, dir: Direction) -> (r: Option<usize>)
    requires
        cursor_valid(len as nat, cursor),
    ensures
        r == cursor_moved(len as nat, cursor, dir),
        cursor_valid(len as nat, r),
{
    if len == 0 {
        return None;
    }
    match (cursor, dir) {
        (None, Direction::Next) => Some(0),
        (None, Direction::Previous) => Some(len - 1),
        (Some(i), Direction::Next) => if i + 1 < len {
            Some(i + 1)
        } else {
            Some(len - 1)
        },
        (Some(i), Direction::Previous) => if i == 0 {
            Some(0)
        } else {
            Some(i - 1)
        },
    }
}

} // verus!
