use vstd::prelude::*;

use crate::cursor::{cursor_after_removal, cursor_moved, cursor_valid, move_cursor};
use crate::item::{appended, Direction, ItemView, TodoItem};
use crate::text::{pop_char, push_char};

verus! {

/// The input mode: browsing the list, or typing the text of a new item
/// into a buffer that exists only while that mode lasts.
pub enum Mode {
    Normal,
    AddNew(String),
}

/// The mathematical value of a [`Mode`].
pub ghost enum ModeView {
    Normal,
    AddNew(Seq<char>),
}

impl View for Mode {
    type V = ModeView;

    open spec fn view(&self) -> ModeView {
        match self {
            Mode::Normal => ModeView::Normal,
            Mode::AddNew(b) => ModeView::AddNew(b@),
        }
    }
}

/// A key press, as far as this application tells keys apart.
#[derive(Clone, Copy, Debug, PartialEq, Eq)]
pub enum Key {
    Char(char),
    Enter,
    Backspace,
    Esc,
    Other,
}

/// What a key press asks of the add-item form.
#[derive(Clone, Copy, Debug, PartialEq, Eq)]
pub enum FormAction {
    /// Keep typing (the buffer may have changed).
    Typing,
    /// Create an item from the buffer.
    Submit,
    /// Leave the form without creating anything.
    Escape,
}

/// What the add-item form does with `key`.
pub open spec fn form_action(key: Key) -> FormAction {
    match key {
        Key::Enter => FormAction::Submit,
        Key::Esc => FormAction::Escape,
        _ => FormAction::Typing,
    }
}

/// The buffer after `key` was pressed in the add-item form: a character is
/// appended, Backspace removes the last one, other keys leave it alone.
pub open spec fn edited(b: Seq<char>, key: Key) -> Seq<char> {
    match key {
        Key::Char(c) => b.push(c),
        Key::Backspace => if b.len() > 0 {
            b.drop_last()
        } else {
            b
        },
        _ => b,
    }
}

/// The state after `key` was pressed in the normal mode: `a` opens the form
/// with an empty buffer, `d` deletes the selected item, `j` and `k` move the
/// selection down and up; any other key changes nothing.
pub open spec fn normal_step(s: StateView, key: Key) -> StateView {
    match key {
        Key::Char(c) => if c == 'a' {
            s.with_mode(ModeView::AddNew(Seq::empty()))
        } else if c == 'd' {
            s.deleted()
        } else if c == 'j' {
            s.moved(Direction::Next)
        } else if c == 'k' {
            s.moved(Direction::Previous)
        } else {
            s
        },
        _ => s,
    }
}

/// One step of the application on `key`: the next state, and whether the
/// application quits (Esc in the normal mode).
pub open spec fn key_step(s: StateView, key: Key) -> (StateView, bool) {
    match s.mode {
        ModeView::Normal => (normal_step(s, key), key is Esc),
        ModeView::AddNew(b) => match form_action(key) {
            FormAction::Typing => (s.with_mode(ModeView::AddNew(edited(b, key))), false),
            FormAction::Submit => (s.added(b).with_mode(ModeView::Normal), false),
            FormAction::Escape => (s.with_mode(ModeView::Normal), false),
        },
    }
}

/// The mathematical value of an [`AppState`].
pub ghost struct StateView {
    pub items: Seq<ItemView>,
    pub cursor: Option<usize>,
    pub mode: ModeView,
}

impl StateView {
    /// The cursor points inside the store.
    pub open spec fn wf(self) -> bool {
        cursor_valid(self.items.len(), self.cursor)
    }

    /// The text typed so far; empty outside the add-item mode.
    pub open spec fn buffer(self) -> Seq<char> {
        match self.mode {
            ModeView::AddNew(b) => b,
            ModeView::Normal => Seq::empty(),
        }
    }

    pub open spec fn with_items(self, items: Seq<ItemView>, cursor: Option<usize>) -> StateView {
        StateView { items, cursor, mode: self.mode }
    }

    pub open spec fn with_mode(self, mode: ModeView) -> StateView {
        StateView { items: self.items, cursor: self.cursor, mode }
    }

    /// The state after `add(d)`.
    pub open spec fn added(self, d: Seq<char>) -> StateView {
        self.with_items(appended(self.items, d), self.cursor)
    }

    /// The state after `delete_selected()`.
    pub open spec fn deleted(self) -> StateView {
        match self.cursor {
            Some(i) => self.with_items(
                self.items.remove(i as int),
                cursor_after_removal((self.items.len() - 1) as nat, i),
            ),
            None => self,
        }
    }

    /// The state after `move_selection(dir)`.
    pub open spec fn moved(self, dir: Direction) -> StateView {
        self.with_items(self.items, cursor_moved(self.items.len(), self.cursor, dir))
    }
}

/// The whole state of the application: the items, the selection and the
/// input mode.
pub struct AppState {
    items: Vec<TodoItem>,
    cursor: Option<usize>,
    mode: Mode,
}

impl View for AppState {
    type V = StateView;

    closed spec fn view(&self) -> StateView {
        StateView {
            items: self.items@.map_values(|t: TodoItem| t@),
            cursor: self.cursor,
            mode: self.mode@,
        }
    }
}

impl AppState {
    /// The state is well formed: its cursor points inside the store.
    pub open spec fn wf(&self) -> bool {
        self@.wf()
    }

    /// An empty store, nothing selected, in the normal mode.
    pub fn new() -> (r: AppState)
        ensures
            r.wf(),
            r@.items == Seq::<ItemView>::empty(),
            r@.cursor is None,
            r@.mode == ModeView::Normal,
    {
        AppState { items: Vec::new(), cursor: None, mode: Mode::Normal }
    }

    /// Appends a new, not-done item with the given text at the end of the
    /// store. The selection and the mode are kept.
    pub fn add(&mut self, description: String)
        requires
            old(self).wf(),
        ensures
            final(self).wf(),
            final(self)@ == old(self)@.added(description@),
    {
        let ghost before = self@;
        self.items.push(TodoItem { is_done: false, description });
        assert(self@.items =~= appended(before.items, description@));
    }

    /// Removes the selected item, if any. The cursor then stays on the same
    /// index, moves to the new last item, or selects nothing once the store
    /// is empty.
    pub fn delete_selected(&mut self)
        requires
            old(self).wf(),
        ensures
            final(self).wf(),
            final(self)@ == old(self)@.deleted(),
    {
        let ghost before = self@;
        if let Some(i) = self.cursor {
            self.items.remove(i);
            let len = self.items.len();
            self.cursor = if len == 0 {
                None
            } else if i < len {
                Some(i)
            } else {
                Some(len - 1)
            };
            assert(self@.items =~= before.items.remove(i as int));
        }
    }

    /// Moves the selection one step, stopping at both ends of the store.
    pub fn move_selection(&mut self, direction: Direction)
        requires
            old(self).wf(),
        ensures
            final(self).wf(),
            final(self)@ == old(self)@.moved(direction),
    {
        self.cursor = move_cursor(self.items.len(), self.cursor, direction);
    }

    /// The items, in the order in which they were added.
    pub fn items(&self) -> (r: &Vec<TodoItem>)
        ensures
            r@.map_values(|t: TodoItem| t@) == self@.items,
    {
        &self.items
    }

    /// The index of the selected item, if any.
    pub fn selected(&self) -> (r: Option<usize>)
        ensures
            r == self@.cursor,
    {
        self.cursor
    }

    /// Whether the add-item form is open.
    pub fn is_add_new(&self) -> (r: bool)
        ensures
            r == (self@.mode is AddNew),
    {
        match &self.mode {
            Mode::AddNew(_) => true,
            Mode::Normal => false,
        }
    }

    /// The text typed into the add-item form; empty when it is closed.
    pub fn input_value(&self) -> (r: &str)
        ensures
            r@ == self@.buffer(),
    {
        match &self.mode {
            Mode::AddNew(b) => b.as_str(),
            Mode::Normal => {
                proof {
                    reveal_strlit("");
                }
                ""
            },
        }
    }
}

/// Handles a key press while the add-item form is open: a character is
/// appended to the buffer, Backspace removes the last one. Returns what the
/// key asks of the form; the store and the selection are not touched.
pub fn handle_add_new(key: Key, app_state: &mut AppState) -> (r: FormAction)
    requires
        old(app_state).wf(),
        old(app_state)@.mode is AddNew,
    ensures
        final(app_state).wf(),
        r == form_action(key),
        final(app_state)@ == old(app_state)@.with_mode(
            ModeView::AddNew(edited(old(app_state)@.buffer(), key)),
        ),
{
    match &mut app_state.mode {
        Mode::AddNew(buf) => match key {
            Key::Char(c) => {
                push_char(buf, c);
                FormAction::Typing
            },
            Key::Backspace => {
                pop_char(buf);
                FormAction::Typing
            },
            Key::Enter => FormAction::Submit,
            Key::Esc => FormAction::Escape,
            Key::Other => FormAction::Typing,
        },
        Mode::Normal => FormAction::Typing,
    }
}

/// Handles a key press in the normal mode (see [`normal_step`]). Returns
/// whether the application should quit, which Esc asks for.
pub fn handle_key(key: Key, app_state: &mut AppState) -> (r: bool)
    requires
        old(app_state).wf(),
        old(app_state)@.mode is Normal,
    ensures
        final(app_state).wf(),
        r == (key is Esc),
        final(app_state)@ == normal_step(old(app_state)@, key),
{
    match key {
        Key::Esc => {
            return true;
        },
        Key::Char(c) => {
            if c == 'a' {
                app_state.mode = Mode::AddNew(String::new());
            } else if c == 'd' {
                app_state.delete_selected();
            } else if c == 'k' {
                app_state.move_selection(Direction::Previous);
            } else if c == 'j' {
                app_state.move_selection(Direction::Next);
            }
        },
        _ => {},
    }
    false
}

/// Handles one key press in whatever mode the application is in: submitting
/// the form appends an item made of the buffer, and submitting or cancelling
/// it returns to the normal mode. Returns whether the application should
/// quit.
pub fn handle_event(key: Key, app_state: &mut AppState) -> (r: bool)
    requires
        old(app_state).wf(),
    ensures
        final(app_state).wf(),
        (final(app_state)@, r) == key_step(old(app_state)@, key),
{
    if app_state.is_add_new() {
        match handle_add_new(key, app_state) {
            FormAction::Typing => {},
            FormAction::Submit => {
                let mut form = Mode::Normal;
                std::mem::swap(&mut app_state.mode, &mut form);
                if let Mode::AddNew(description) = form {
                    app_state.add(description);
                }
            },
            FormAction::Escape => {
                app_state.mode = Mode::Normal;
            },
        }
        false
    } else {
        handle_key(key, app_state)
    }
}

} // verus!
