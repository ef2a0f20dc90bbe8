//! The modal interaction state machine.
//!
//! One normalized keystroke enters through [`App::handle_key_event`] and is
//! routed by strict precedence: an active command overlay consumes it; else
//! the overlay trigger key opens the overlay; else the current phase decides
//! whether the list view or the entry edit view handles it. Every transition
//! is stated as a spec function over the state's mathematical view, and each
//! handler is proved to implement it.

use vstd::prelude::*;
use crate::edit_buffer::{buffer_step, EditBuffer, EditBufferV};
use crate::entry::{
    field_value_text, with_field_text, Coffee, CoffeeV, Entry, EntryV, FieldType, Grinder,
    GrinderV, Timestamp, NUM_FIELDS,
};
use crate::keys::Key;
use crate::numeric::{is_valid_float, valid_float_chars};
use crate::selection::{sel_in_bounds, Selection};
use crate::text::{clone_chars, pop_char, push_char, str_to_chars};

verus! {

/// Whether a component is idle or capturing text input.
#[derive(Clone, Copy, Debug, PartialEq, Eq, Structural)]
pub enum InputMode {
    Normal,
    Editing,
}

impl Default for InputMode {
    fn default() -> (r: InputMode)
        ensures
            r == InputMode::Normal,
    {
        InputMode::Normal
    }
}

/// The top-level view mode.
#[derive(Clone, Copy, Debug, PartialEq, Eq, Structural)]
pub enum Phase {
    /// Browsing the entry list.
    ListView,
    /// Drilled into the entry at the carried index.
    EditEntry(usize),
    /// Reserved: editing a category-A entity is deferred; no transition
    /// reaches this state.
    EditCoffee,
    /// Reserved: editing a category-B entity is deferred; no transition
    /// reaches this state.
    EditGrinder,
}

impl Default for Phase {
    fn default() -> (r: Phase)
        ensures
            r == Phase::ListView,
    {
        Phase::ListView
    }
}

/// The mathematical value of the command overlay.
#[verifier::ext_equal]
pub ghost struct CommandV {
    pub buffer: Seq<char>,
    pub input_mode: InputMode,
}

/// The overlay is active exactly while its buffer is non-empty.
pub open spec fn overlay_ok(c: CommandV) -> bool {
    (c.input_mode == InputMode::Editing) <==> c.buffer.len() > 0
}

/// The command overlay: a buffer and an activity flag with top priority
/// over all other input routing.
#[derive(Debug)]
pub struct CommandState {
    pub buffer: String,
    pub input_mode: InputMode,
}

impl View for CommandState {
    type V = CommandV;

    open spec fn view(&self) -> CommandV {
        CommandV { buffer: self.buffer@, input_mode: self.input_mode }
    }
}

impl Default for CommandState {
    fn default() -> (r: CommandState)
        ensures
            r@ == (CommandV { buffer: Seq::<char>::empty(), input_mode: InputMode::Normal }),
    {
        let r = CommandState { buffer: String::new(), input_mode: InputMode::Normal };
        assert(r@ =~= CommandV { buffer: Seq::<char>::empty(), input_mode: InputMode::Normal });
        r
    }
}

/// The mathematical value of the entry edit view's state.
#[verifier::ext_equal]
pub ghost struct EditStateV {
    pub list_state: Selection,
    pub input_mode: InputMode,
    pub input: EditBufferV,
}

/// State of the entry edit view: the field cursor, whether a field edit
/// session is open, and the session's text buffer.
#[derive(Debug)]
pub struct EditState {
    pub list_state: Selection,
    pub input_mode: InputMode,
    pub input: EditBuffer,
}

impl View for EditState {
    type V = EditStateV;

    open spec fn view(&self) -> EditStateV {
        EditStateV {
            list_state: self.list_state,
            input_mode: self.input_mode,
            input: self.input@,
        }
    }
}

impl Default for EditState {
    fn default() -> (r: EditState)
        ensures
            r@ == (EditStateV {
                list_state: Selection { selected: None },
                input_mode: InputMode::Normal,
                input: EditBufferV { text: Seq::<char>::empty(), cursor: 0 },
            }),
    {
        let r = EditState {
            list_state: Selection::new(),
            input_mode: InputMode::Normal,
            input: EditBuffer::new(),
        };
        assert(r@ =~= EditStateV {
            list_state: Selection { selected: None },
            input_mode: InputMode::Normal,
            input: EditBufferV { text: Seq::<char>::empty(), cursor: 0 },
        });
        r
    }
}

/// The mathematical value of all mutable interaction state.
#[verifier::ext_equal]
pub ghost struct AppStateV {
    pub entry_list_state: Selection,
    pub command: CommandV,
    pub edit: EditStateV,
}

/// All mutable interaction state: the list cursor, the command overlay and
/// the entry edit view.
#[derive(Debug)]
pub struct AppState {
    pub entry_list_state: Selection,
    pub command: CommandState,
    pub edit: EditState,
}

impl View for AppState {
    type V = AppStateV;

    open spec fn view(&self) -> AppStateV {
        AppStateV { entry_list_state: self.entry_list_state, command: self.command@, edit: self.edit@ }
    }
}

impl Default for AppState {
    fn default() -> (r: AppState)
        ensures
            r@ == (AppStateV {
                entry_list_state: Selection { selected: Some(0usize) },
                command: CommandV { buffer: Seq::<char>::empty(), input_mode: InputMode::Normal },
                edit: EditStateV {
                    list_state: Selection { selected: Some(0usize) },
                    input_mode: InputMode::Normal,
                    input: EditBufferV { text: Seq::<char>::empty(), cursor: 0 },
                },
            }),
    {
        let r = AppState {
            entry_list_state: Selection::with_selected(Some(0)),
            command: CommandState::default(),
            edit: EditState {
                list_state: Selection::with_selected(Some(0)),
                input_mode: InputMode::Normal,
                input: EditBuffer::new(),
            },
        };
        assert(r@ =~= AppStateV {
            entry_list_state: Selection { selected: Some(0usize) },
            command: CommandV { buffer: Seq::<char>::empty(), input_mode: InputMode::Normal },
            edit: EditStateV {
                list_state: Selection { selected: Some(0usize) },
                input_mode: InputMode::Normal,
                input: EditBufferV { text: Seq::<char>::empty(), cursor: 0 },
            },
        });
        r
    }
}

/// The mathematical value of the whole application state.
#[verifier::ext_equal]
pub ghost struct AppV {
    pub state: AppStateV,
    pub phase: Phase,
    pub entries: Seq<EntryV>,
    pub coffees: Seq<CoffeeV>,
    pub grinders: Seq<GrinderV>,
    pub exit: bool,
}

/// `id` resolves to a category-A entity.
pub open spec fn resolves_coffee(cs: Seq<CoffeeV>, id: u128) -> bool {
    exists|j: int| 0 <= j < cs.len() && cs[j].uuid == id
}

/// `id` resolves to a category-B entity.
pub open spec fn resolves_grinder(gs: Seq<GrinderV>, id: u128) -> bool {
    exists|j: int| 0 <= j < gs.len() && gs[j].uuid == id
}

/// An edit-session buffer is empty or holds valid decimal text.
pub open spec fn edit_buffer_ok(text: Seq<char>) -> bool {
    text.len() == 0 || is_valid_float(text)
}

impl AppV {
    /// The state invariant, established at construction and preserved by
    /// every keystroke:
    /// - the list selection, if present, indexes an existing entry;
    /// - the field selection always rests on one of the fixed fields;
    /// - the command overlay is active exactly while its buffer is non-empty;
    /// - the edit-session buffer is well-formed and, whenever a session is
    ///   open, empty or accepted by the decimal grammar;
    /// - an open session only ever edits a numeric-short field;
    /// - the edit phase only carries a valid entry index;
    /// - every entry is well-formed and its references resolve.
    pub open spec fn wf(self) -> bool {
        &&& sel_in_bounds(self.state.entry_list_state.selected, self.entries.len())
        &&& self.state.edit.list_state.selected is Some
        &&& sel_in_bounds(self.state.edit.list_state.selected, NUM_FIELDS as nat)
        &&& overlay_ok(self.state.command)
        &&& self.state.edit.input.wf()
        &&& (self.state.edit.input_mode == InputMode::Editing ==> edit_buffer_ok(
            self.state.edit.input.text,
        ))
        &&& (self.state.edit.input_mode == InputMode::Editing
            ==> Entry::spec_field_type(self.state.edit.list_state.selected.unwrap() as int)
            == FieldType::ShortString)
        &&& match self.phase {
            Phase::EditEntry(i) => i < self.entries.len(),
            _ => true,
        }
        &&& forall|k: int| 0 <= k < self.entries.len() ==> (#[trigger] self.entries[k]).wf()
        &&& forall|k: int|
            0 <= k < self.entries.len() ==> resolves_coffee(
                self.coffees,
                (#[trigger] self.entries[k]).coffee_id,
            )
        &&& forall|k: int|
            0 <= k < self.entries.len() ==> resolves_grinder(
                self.grinders,
                (#[trigger] self.entries[k]).grinder_id,
            )
    }
}

/// The quit command line.
pub open spec fn quit_command() -> Seq<char> {
    seq![':', 'q']
}

/// One keystroke while the command overlay is active: the overlay consumes
/// it exclusively.
pub open spec fn step_command(s: AppV, k: Key) -> AppV {
    match k {
        Key::Char(c) => AppV {
            state: AppStateV {
                command: CommandV { buffer: s.state.command.buffer.push(c), ..s.state.command },
                ..s.state
            },
            ..s
        },
        Key::Enter => AppV {
            state: AppStateV {
                command: CommandV { buffer: Seq::<char>::empty(), input_mode: InputMode::Normal },
                ..s.state
            },
            exit: s.exit || s.state.command.buffer == quit_command(),
            ..s
        },
        Key::Backspace => {
            let b = if s.state.command.buffer.len() > 0 {
                s.state.command.buffer.drop_last()
            } else {
                s.state.command.buffer
            };
            AppV {
                state: AppStateV {
                    command: CommandV {
                        buffer: b,
                        input_mode: if b.len() == 0 {
                            InputMode::Normal
                        } else {
                            InputMode::Editing
                        },
                    },
                    ..s.state
                },
                ..s
            }
        },
        Key::Esc => AppV {
            state: AppStateV {
                command: CommandV { buffer: Seq::<char>::empty(), input_mode: InputMode::Normal },
                ..s.state
            },
            ..s
        },
        _ => s,
    }
}

/// The overlay trigger key while the overlay is inactive: the trigger
/// character itself becomes overlay content.
pub open spec fn step_overlay_open(s: AppV) -> AppV {
    AppV {
        state: AppStateV {
            command: CommandV {
                buffer: s.state.command.buffer.push(':'),
                input_mode: InputMode::Editing,
            },
            ..s.state
        },
        ..s
    }
}

/// One keystroke routed to the list view.
pub open spec fn step_listview(s: AppV, k: Key) -> AppV {
    match k {
        Key::Char(c) => if c == 'q' {
            AppV { exit: true, ..s }
        } else if c == 'j' {
            AppV {
                state: AppStateV {
                    entry_list_state: s.state.entry_list_state.spec_next(s.entries.len()),
                    ..s.state
                },
                ..s
            }
        } else if c == 'k' {
            AppV {
                state: AppStateV {
                    entry_list_state: s.state.entry_list_state.spec_previous(s.entries.len()),
                    ..s.state
                },
                ..s
            }
        } else if c == 'g' {
            AppV {
                state: AppStateV {
                    entry_list_state: s.state.entry_list_state.spec_first(s.entries.len()),
                    ..s.state
                },
                ..s
            }
        } else {
            s
        },
        Key::Enter => match s.state.entry_list_state.selected {
            Some(i) => AppV { phase: Phase::EditEntry(i), ..s },
            None => s,
        },
        _ => s,
    }
}

/// Committing an open edit session: on valid non-empty text the value is
/// written to the selected field's measurement and the session closes; on
/// anything else the commit is rejected and the session stays open.
pub open spec fn step_save(s: AppV, entry_idx: int) -> AppV {
    let f = s.state.edit.list_state.selected.unwrap() as int;
    let text = s.state.edit.input.text;
    if text.len() > 0 && is_valid_float(text) {
        AppV {
            entries: s.entries.update(entry_idx, with_field_text(s.entries[entry_idx], f, text)),
            state: AppStateV {
                edit: EditStateV { input_mode: InputMode::Normal, ..s.state.edit },
                ..s.state
            },
            ..s
        }
    } else {
        s
    }
}

/// One keystroke routed to the entry edit view, browsing fields.
pub open spec fn step_edit_browsing(s: AppV, k: Key, entry_idx: int) -> AppV {
    match k {
        Key::Char(c) => if c == 'q' {
            AppV { phase: Phase::ListView, ..s }
        } else if c == 'j' {
            AppV {
                state: AppStateV {
                    edit: EditStateV {
                        list_state: s.state.edit.list_state.spec_next(NUM_FIELDS as nat),
                        ..s.state.edit
                    },
                    ..s.state
                },
                ..s
            }
        } else if c == 'k' {
            AppV {
                state: AppStateV {
                    edit: EditStateV {
                        list_state: s.state.edit.list_state.spec_previous(NUM_FIELDS as nat),
                        ..s.state.edit
                    },
                    ..s.state
                },
                ..s
            }
        } else if c == 'e' {
            let f = s.state.edit.list_state.selected.unwrap() as int;
            if Entry::spec_field_type(f) == FieldType::ShortString {
                let text = field_value_text(s.entries[entry_idx], f);
                AppV {
                    state: AppStateV {
                        edit: EditStateV {
                            input_mode: InputMode::Editing,
                            input: EditBufferV { text: text, cursor: text.len() as int },
                            ..s.state.edit
                        },
                        ..s.state
                    },
                    ..s
                }
            } else {
                // Date, reference and long-text editing are deferred;
                // an undefined field is never editable. All are no-ops.
                s
            }
        } else {
            s
        },
        _ => s,
    }
}

/// One keystroke routed to an open edit session: confirm tries to commit;
/// any other key goes to the line editor and is rolled back wholesale if it
/// would leave non-empty text the decimal grammar rejects.
pub open spec fn step_edit_session(s: AppV, k: Key, entry_idx: int) -> AppV {
    let f = s.state.edit.list_state.selected.unwrap() as int;
    if Entry::spec_field_type(f) == FieldType::ShortString {
        match k {
            Key::Enter => step_save(s, entry_idx),
            _ => {
                let b = buffer_step(s.state.edit.input, k);
                if b.text.len() > 0 && !is_valid_float(b.text) {
                    s
                } else {
                    AppV {
                        state: AppStateV {
                            edit: EditStateV { input: b, ..s.state.edit },
                            ..s.state
                        },
                        ..s
                    }
                }
            },
        }
    } else {
        s
    }
}

/// One keystroke routed to the entry edit view.
pub open spec fn step_editentry(s: AppV, k: Key, entry_idx: int) -> AppV {
    match s.state.edit.input_mode {
        InputMode::Normal => step_edit_browsing(s, k, entry_idx),
        InputMode::Editing => step_edit_session(s, k, entry_idx),
    }
}

/// One keystroke through the dispatcher's strict precedence chain.
pub open spec fn step(s: AppV, k: Key) -> AppV {
    if s.state.command.input_mode == InputMode::Editing {
        step_command(s, k)
    } else if k == Key::Char(':') {
        step_overlay_open(s)
    } else {
        match s.phase {
            Phase::ListView => step_listview(s, k),
            Phase::EditEntry(i) => step_editentry(s, k, i as int),
            _ => s,
        }
    }
}

/// A whole sequence of keystrokes, first to last.
pub open spec fn step_all(s: AppV, ks: Seq<Key>) -> AppV
    decreases ks.len(),
{
    if ks.len() == 0 {
        s
    } else {
        step_all(step(s, ks[0]), ks.drop_first())
    }
}

/// The record browser: entries, the reference entities they point to, and
/// all interaction state.
///
/// [`App::default`] establishes the state invariant [`AppV::wf`] and every
/// keystroke handler preserves it; [`App::check_invariants`] decides it at
/// run time for callers outside the proofs.
#[derive(Debug)]
pub struct App {
    pub state: AppState,
    pub phase: Phase,
    pub entries: Vec<Entry>,
    pub coffees: Vec<Coffee>,
    pub grinders: Vec<Grinder>,
    pub exit: bool,
}

impl View for App {
    type V = AppV;

    open spec fn view(&self) -> AppV {
        AppV {
            state: self.state@,
            phase: self.phase,
            entries: self.entries@.map_values(|e: Entry| e@),
            coffees: self.coffees@.map_values(|c: Coffee| c@),
            grinders: self.grinders@.map_values(|g: Grinder| g@),
            exit: self.exit,
        }
    }
}

impl App {
    /// Sets the global exit flag; the main loop ends after the next render.
    pub fn exit(&mut self)
        ensures
            final(self)@ == (AppV { exit: true, ..old(self)@ }),
    {
        self.exit = true;
        assert(self@ =~~= (AppV { exit: true, ..old(self)@ }));
    }

    /// Interprets a committed overlay line: the quit command sets the exit
    /// flag; anything else is silently ignored.
    pub fn handle_command(&mut self, cmd: String)
        ensures
            final(self)@ == (AppV {
                exit: old(self)@.exit || cmd@ == quit_command(),
                ..old(self)@
            }),
    {
        let chars = str_to_chars(cmd.as_str());
        let is_quit = chars.len() == 2 && {
            let c0 = chars[0];
            let c1 = chars[1];
            c0 == ':' && c1 == 'q'
        };
        proof {
            if is_quit {
                assert(cmd@ =~= quit_command());
            } else {
                assert(quit_command().len() == 2 && quit_command()[0] == ':' && quit_command()[1]
                    == 'q');
            }
        }
        if is_quit {
            self.exit = true;
        }
        assert(self@ =~~= (AppV { exit: old(self)@.exit || cmd@ == quit_command(), ..old(self)@ }));
    }

    /// The measurement text of field `field_idx` of entry `entry_idx`,
    /// exactly as the detail view displays it (without unit suffix).
    pub fn field_val_as_string(&self, entry_idx: usize, field_idx: usize) -> (r: String)
        requires
            entry_idx < self@.entries.len(),
        ensures
            r@ == field_value_text(self@.entries[entry_idx as int], field_idx as int),
    {
        let entry = &self.entries[entry_idx];
        assert(entry@ == self@.entries[entry_idx as int]);
        if field_idx == 3 {
            entry.grind_setting.clone()
        } else if field_idx == 4 {
            entry.dose.clone()
        } else if field_idx == 5 {
            entry.output.clone()
        } else if field_idx == 7 {
            entry.duration.clone()
        } else {
            let r = String::from_str("0");
            proof {
                reveal_strlit("0");
                assert(r@ =~= seq!['0']);
            }
            r
        }
    }

    /// Tries to commit the open edit session into entry `entry_idx`: valid
    /// non-empty text is stored in the selected numeric-short field and the
    /// session closes; otherwise nothing changes.
    pub fn save_input(&mut self, entry_idx: usize)
        requires
            old(self)@.wf(),
            entry_idx < old(self)@.entries.len(),
            Entry::spec_field_type(
                old(self)@.state.edit.list_state.selected.unwrap() as int,
            ) == FieldType::ShortString,
        ensures
            final(self)@ == step_save(old(self)@, entry_idx as int),
            final(self)@.wf(),
    {
        let field_idx = self.state.edit.list_state.selected().unwrap();
        let nonempty = !self.state.edit.input.is_empty();
        let valid = nonempty && valid_float_chars(self.state.edit.input.value_chars());
        if valid {
            let text = self.state.edit.input.text();
            let e = &mut self.entries[entry_idx];
            if field_idx == 3 {
                e.grind_setting = text;
            } else if field_idx == 4 {
                e.dose = text;
            } else if field_idx == 5 {
                e.output = text;
            } else if field_idx == 7 {
                e.duration = text;
            }
            self.state.edit.input_mode = InputMode::Normal;
        }
        proof {
            let old_v = old(self)@;
            let f = old_v.state.edit.list_state.selected.unwrap() as int;
            let text = old_v.state.edit.input.text;
            if text.len() > 0 && is_valid_float(text) {
                assert(self@.entries =~~= old_v.entries.update(
                    entry_idx as int,
                    with_field_text(old_v.entries[entry_idx as int], f, text),
                ));
            }
            assert(self@ =~~= step_save(old_v, entry_idx as int));
        }
    }

    /// One keystroke while browsing the entry list.
    pub fn handle_key_events_listview(&mut self, key: Key)
        requires
            old(self)@.wf(),
        ensures
            final(self)@ == step_listview(old(self)@, key),
            final(self)@.wf(),
    {
        match key {
            Key::Char(c) => {
                if c == 'q' {
                    self.exit();
                } else if c == 'j' {
                    let len = self.entries.len();
                    self.state.entry_list_state.select_next(len);
                } else if c == 'k' {
                    let len = self.entries.len();
                    self.state.entry_list_state.select_previous(len);
                } else if c == 'g' {
                    let len = self.entries.len();
                    self.state.entry_list_state.select_first(len);
                }
            },
            Key::Enter => {
                if let Some(i) = self.state.entry_list_state.selected() {
                    self.phase = Phase::EditEntry(i);
                }
            },
            _ => {},
        }
        assert(self@ =~~= step_listview(old(self)@, key));
    }

    /// One keystroke while drilled into entry `entry_idx`, either browsing
    /// its fields or feeding an open edit session.
    pub fn handle_key_events_editentry(&mut self, entry_idx: usize, key: Key)
        requires
            old(self)@.wf(),
            entry_idx < old(self)@.entries.len(),
        ensures
            final(self)@ == step_editentry(old(self)@, key, entry_idx as int),
            final(self)@.wf(),
    {
        match self.state.edit.input_mode {
            InputMode::Normal => {
                match key {
                    Key::Char(c) => {
                        if c == 'q' {
                            self.phase = Phase::ListView;
                        } else if c == 'j' {
                            self.state.edit.list_state.select_next(NUM_FIELDS);
                        } else if c == 'k' {
                            self.state.edit.list_state.select_previous(NUM_FIELDS);
                        } else if c == 'e' {
                            let field_idx = self.state.edit.list_state.selected().unwrap();
                            match Entry::field_type(field_idx) {
                                FieldType::ShortString => {
                                    self.state.edit.input_mode = InputMode::Editing;
                                    let text = self.field_val_as_string(entry_idx, field_idx);
                                    self.state.edit.input = EditBuffer::from_str(text.as_str());
                                },
                                _ => {
                                    // Editing dates, reference fields and long
                                    // text is deferred, and an undefined field
                                    // is never editable: all fail closed.
                                },
                            }
                        }
                    },
                    _ => {},
                }
            },
            InputMode::Editing => {
                let field_idx = self.state.edit.list_state.selected().unwrap();
                match Entry::field_type(field_idx) {
                    FieldType::ShortString => {
                        match key {
                            Key::Enter => {
                                self.save_input(entry_idx);
                            },
                            _ => {
                                let snap_chars = clone_chars(&self.state.edit.input.chars);
                                let snap_cursor = self.state.edit.input.cursor;
                                self.state.edit.input.apply_key(key);
                                let bad = !self.state.edit.input.is_empty()
                                    && !valid_float_chars(self.state.edit.input.value_chars());
                                if bad {
                                    self.state.edit.input = EditBuffer {
                                        chars: snap_chars,
                                        cursor: snap_cursor,
                                    };
                                }
                            },
                        }
                    },
                    _ => {},
                }
            },
        }
        assert(self@ =~~= step_editentry(old(self)@, key, entry_idx as int));
    }

    /// The single dispatch entry point for one keystroke, in strict
    /// precedence order: an active command overlay consumes the key; else
    /// the overlay trigger opens the overlay; else the current phase routes
    /// the key.
    pub fn handle_key_event(&mut self, key: Key)
        requires
            old(self)@.wf(),
        ensures
            final(self)@ == step(old(self)@, key),
            final(self)@.wf(),
    {
        if self.state.command.input_mode == InputMode::Editing {
            match key {
                Key::Char(c) => {
                    push_char(&mut self.state.command.buffer, c);
                },
                Key::Enter => {
                    let cmd = self.state.command.buffer.clone();
                    self.handle_command(cmd);
                    self.state.command.buffer = String::new();
                    self.state.command.input_mode = InputMode::Normal;
                },
                Key::Backspace => {
                    let _ = pop_char(&mut self.state.command.buffer);
                    self.state.command.input_mode = if self.state.command.buffer.as_str()
                        .is_empty() {
                        InputMode::Normal
                    } else {
                        InputMode::Editing
                    };
                },
                Key::Esc => {
                    self.state.command.buffer = String::new();
                    self.state.command.input_mode = InputMode::Normal;
                },
                _ => {},
            }
            assert(self@ =~~= step_command(old(self)@, key));
        } else if key == Key::Char(':') {
            push_char(&mut self.state.command.buffer, ':');
            self.state.command.input_mode = InputMode::Editing;
            assert(self@ =~~= step_overlay_open(old(self)@));
        } else {
            match self.phase {
                Phase::ListView => self.handle_key_events_listview(key),
                Phase::EditEntry(idx) => self.handle_key_events_editentry(idx, key),
                _ => {},
            }
        }
        assert(self@ =~~= step(old(self)@, key));
    }
}

impl App {
    /// Decides the state invariant, so that unverified callers can check it
    /// at run time before relying on it.
    pub fn check_invariants(&self) -> (r: bool)
        ensures
            r == self@.wf(),
    {
        let entry_sel_ok = match self.state.entry_list_state.selected() {
            Some(i) => i < self.entries.len(),
            None => true,
        };
        let edit_sel_ok = match self.state.edit.list_state.selected() {
            Some(f) => f < NUM_FIELDS,
            None => false,
        };
        let overlay_consistent = (self.state.command.input_mode == InputMode::Editing)
            == !self.state.command.buffer.as_str().is_empty();
        let input_wf = self.state.edit.input.cursor <= self.state.edit.input.chars.len();
        let session_ok = if self.state.edit.input_mode == InputMode::Editing {
            let buffer_ok = self.state.edit.input.is_empty() || valid_float_chars(
                self.state.edit.input.value_chars(),
            );
            let field_ok = match self.state.edit.list_state.selected() {
                Some(f) => Entry::field_type(f) == FieldType::ShortString,
                None => false,
            };
            buffer_ok && field_ok
        } else {
            true
        };
        let phase_ok = match self.phase {
            Phase::EditEntry(i) => i < self.entries.len(),
            _ => true,
        };
        if !(entry_sel_ok && edit_sel_ok && overlay_consistent && input_wf && session_ok
            && phase_ok) {
            return false;
        }
        let n = self.entries.len();
        let mut i: usize = 0;
        while i < n
            invariant
                i <= n,
                n == self@.entries.len(),
                forall|k: int|
                    0 <= k < i ==> (#[trigger] self@.entries[k]).wf() && resolves_coffee(
                        self@.coffees,
                        self@.entries[k].coffee_id,
                    ) && resolves_grinder(self@.grinders, self@.entries[k].grinder_id),
            decreases n - i,
        {
            let e = &self.entries[i];
            assert(e@ == self@.entries[i as int]);
            if !(e.check_wf() && self.has_coffee(e.coffee_id) && self.has_grinder(e.grinder_id)) {
                return false;
            }
            i = i + 1;
        }
        true
    }
}

/// The interaction state a fresh application starts in: both cursors on
/// the first item, overlay closed, no edit session open.
pub open spec fn initial_app_state() -> AppStateV {
    AppStateV {
        entry_list_state: Selection { selected: Some(0usize) },
        command: CommandV { buffer: Seq::<char>::empty(), input_mode: InputMode::Normal },
        edit: EditStateV {
            list_state: Selection { selected: Some(0usize) },
            input_mode: InputMode::Normal,
            input: EditBufferV { text: Seq::<char>::empty(), cursor: 0 },
        },
    }
}

impl Default for App {
    /// The application over its fixed seed data: two coffees, one grinder
    /// and three brewing entries taken from the clock at startup.
    fn default() -> (r: App)
        ensures
            r@.wf(),
            r@.state == initial_app_state(),
            r@.phase == Phase::ListView,
            r@.exit == false,
            r@.entries.len() == 3,
            r@.coffees.len() == 2,
            r@.grinders.len() == 1,
            r@.coffees[0].name == "B&W FSL28"@,
            r@.coffees[1].name == "Folgers"@,
            r@.grinders[0].name == "Niche Zero"@,
            forall|k: int|
                0 <= k < 3 ==> (#[trigger] r@.entries[k]).dose == "18"@
                    && r@.entries[k].grind_setting == "0"@ && r@.entries[k].notes
                    == Seq::<char>::empty() && r@.entries[k].grinder_id == r@.grinders[0].uuid,
            r@.entries[0].output == "45.1"@ && r@.entries[1].output == "44.6"@ && r@.entries[2].output
                == "43.9"@,
            r@.entries[0].duration == "26"@ && r@.entries[1].duration == "32.1"@
                && r@.entries[2].duration == "20.9"@,
            r@.entries[0].favorite == false && r@.entries[1].favorite == true
                && r@.entries[2].favorite == false,
            r@.entries[0].coffee_id == r@.coffees[0].uuid && r@.entries[1].coffee_id
                == r@.coffees[0].uuid && r@.entries[2].coffee_id == r@.coffees[1].uuid,
    {
        let mut coffees: Vec<Coffee> = Vec::new();
        coffees.push(Coffee::new(String::from_str("B&W FSL28")));
        coffees.push(Coffee::new(String::from_str("Folgers")));
        let mut grinders: Vec<Grinder> = Vec::new();
        grinders.push(Grinder::new(String::from_str("Niche Zero")));
        let c0 = coffees[0].uuid;
        let c1 = coffees[1].uuid;
        let g0 = grinders[0].uuid;
        let added = Timestamp::new(1970, 1, 1, 0, 0);
        let mut entries: Vec<Entry> = Vec::new();
        entries.push(Entry {
            dt_added: added,
            dt_taken: Timestamp::now_plus(0),
            coffee_id: c0,
            grinder_id: g0,
            grind_setting: String::from_str("0"),
            duration: String::from_str("26"),
            dose: String::from_str("18"),
            output: String::from_str("45.1"),
            favorite: false,
            notes: String::new(),
        });
        entries.push(Entry {
            dt_added: added,
            dt_taken: Timestamp::now_plus(600),
            coffee_id: c0,
            grinder_id: g0,
            grind_setting: String::from_str("0"),
            duration: String::from_str("32.1"),
            dose: String::from_str("18"),
            output: String::from_str("44.6"),
            favorite: true,
            notes: String::new(),
        });
        entries.push(Entry {
            dt_added: added,
            dt_taken: Timestamp::now_plus(1580),
            coffee_id: c1,
            grinder_id: g0,
            grind_setting: String::from_str("0"),
            duration: String::from_str("20.9"),
            dose: String::from_str("18"),
            output: String::from_str("43.9"),
            favorite: false,
            notes: String::new(),
        });
        let r = App {
            state: AppState::default(),
            phase: Phase::ListView,
            entries,
            coffees,
            grinders,
            exit: false,
        };
        proof {
            reveal_strlit("0");
            reveal_strlit("18");
            reveal_strlit("26");
            reveal_strlit("45.1");
            reveal_strlit("44.6");
            reveal_strlit("43.9");
            reveal_strlit("32.1");
            reveal_strlit("20.9");
            crate::numeric::lemma_all_digits_valid("0"@);
            crate::numeric::lemma_all_digits_valid("18"@);
            crate::numeric::lemma_all_digits_valid("26"@);
            crate::numeric::lemma_digits_dot_digits_valid("45.1"@, 2);
            crate::numeric::lemma_digits_dot_digits_valid("44.6"@, 2);
            crate::numeric::lemma_digits_dot_digits_valid("43.9"@, 2);
            crate::numeric::lemma_digits_dot_digits_valid("32.1"@, 2);
            crate::numeric::lemma_digits_dot_digits_valid("20.9"@, 2);
            assert(r@.state =~~= initial_app_state());
            assert(r@.coffees[0].uuid == c0 && r@.coffees[1].uuid == c1);
            assert(r@.grinders[0].uuid == g0);
            assert(forall|k: int|
                0 <= k < 3 ==> resolves_coffee(r@.coffees, (#[trigger] r@.entries[k]).coffee_id));
            assert(forall|k: int|
                0 <= k < 3 ==> resolves_grinder(
                    r@.grinders,
                    (#[trigger] r@.entries[k]).grinder_id,
                ));
            assert(forall|k: int| 0 <= k < 3 ==> (#[trigger] r@.entries[k]).wf());
        }
        r
    }
}

} // verus!
