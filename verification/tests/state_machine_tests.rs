use coffee_tracker::app::{App, InputMode, Phase};
use coffee_tracker::keys::Key;

fn press(app: &mut App, keys: &[Key]) {
    for k in keys {
        app.handle_key_event(*k);
    }
}

fn type_chars(app: &mut App, text: &str) {
    for c in text.chars() {
        app.handle_key_event(Key::Char(c));
    }
}

#[test]
fn seeded_state_is_well_formed() {
    let app = App::default();
    assert!(app.check_invariants());
    assert_eq!(app.phase, Phase::ListView);
    assert!(!app.exit);
    assert_eq!(app.entries.len(), 3);
    assert_eq!(app.state.entry_list_state.selected(), Some(0));
    assert_eq!(app.entries[0].dose, "18");
    assert_eq!(app.entries[1].output, "44.6");
    assert_eq!(app.entries[2].duration, "20.9");
    assert!(app.entries[1].favorite);
}

#[test]
fn move_next_clamps_at_last_entry() {
    // Scenario: three seeded records; two steps land on the last index and a
    // third is a no-op.
    let mut app = App::default();
    press(&mut app, &[Key::Char('j'), Key::Char('j')]);
    assert_eq!(app.state.entry_list_state.selected(), Some(2));
    press(&mut app, &[Key::Char('j')]);
    assert_eq!(app.state.entry_list_state.selected(), Some(2));
}

#[test]
fn move_previous_clamps_at_first_entry() {
    let mut app = App::default();
    press(&mut app, &[Key::Char('k')]);
    assert_eq!(app.state.entry_list_state.selected(), Some(0));
    press(&mut app, &[Key::Char('j'), Key::Char('k')]);
    assert_eq!(app.state.entry_list_state.selected(), Some(0));
}

#[test]
fn move_first_is_idempotent() {
    let mut app = App::default();
    press(&mut app, &[Key::Char('j'), Key::Char('j')]);
    press(&mut app, &[Key::Char('g')]);
    assert_eq!(app.state.entry_list_state.selected(), Some(0));
    let phase_once = app.phase;
    press(&mut app, &[Key::Char('g')]);
    assert_eq!(app.state.entry_list_state.selected(), Some(0));
    assert_eq!(app.phase, phase_once);
}

#[test]
fn confirm_and_back_round_trip() {
    // Scenario: confirm on selection 0 drills into the record; the back key
    // returns to the list with the selection kept.
    let mut app = App::default();
    press(&mut app, &[Key::Enter]);
    assert_eq!(app.phase, Phase::EditEntry(0));
    press(&mut app, &[Key::Char('q')]);
    assert_eq!(app.phase, Phase::ListView);
    assert_eq!(app.state.entry_list_state.selected(), Some(0));
}

#[test]
fn quit_key_sets_exit_flag() {
    let mut app = App::default();
    press(&mut app, &[Key::Char('q')]);
    assert!(app.exit);
}

#[test]
fn overlay_captures_input_and_quit_command_exits() {
    // Scenario: the trigger key, then the quit command, then confirm.
    let mut app = App::default();
    press(&mut app, &[Key::Char(':')]);
    assert_eq!(app.state.command.input_mode, InputMode::Editing);
    assert_eq!(app.state.command.buffer, ":");
    type_chars(&mut app, "q");
    assert_eq!(app.state.command.buffer, ":q");
    press(&mut app, &[Key::Enter]);
    assert!(app.exit);
    assert_eq!(app.state.command.buffer, "");
    assert_eq!(app.state.command.input_mode, InputMode::Normal);
}

#[test]
fn overlay_quit_command_works_from_edit_phase() {
    let mut app = App::default();
    press(&mut app, &[Key::Enter]);
    assert_eq!(app.phase, Phase::EditEntry(0));
    press(&mut app, &[Key::Char(':')]);
    type_chars(&mut app, "q");
    press(&mut app, &[Key::Enter]);
    assert!(app.exit);
}

#[test]
fn overlay_active_iff_buffer_nonempty() {
    let mut app = App::default();
    let keys = [
        Key::Char(':'),
        Key::Char('w'),
        Key::Backspace,
        Key::Backspace,
        Key::Char('j'),
        Key::Char(':'),
        Key::Char('q'),
        Key::Esc,
        Key::Char(':'),
        Key::Enter,
    ];
    for k in keys {
        app.handle_key_event(k);
        assert_eq!(
            app.state.command.input_mode == InputMode::Editing,
            !app.state.command.buffer.is_empty()
        );
    }
}

#[test]
fn overlay_backspace_deactivates_only_on_empty() {
    let mut app = App::default();
    press(&mut app, &[Key::Char(':'), Key::Char('q')]);
    press(&mut app, &[Key::Backspace]);
    assert_eq!(app.state.command.buffer, ":");
    assert_eq!(app.state.command.input_mode, InputMode::Editing);
    press(&mut app, &[Key::Backspace]);
    assert_eq!(app.state.command.buffer, "");
    assert_eq!(app.state.command.input_mode, InputMode::Normal);
}

#[test]
fn overlay_escape_cancels_unconditionally() {
    let mut app = App::default();
    press(&mut app, &[Key::Char(':'), Key::Char('x'), Key::Char('y'), Key::Esc]);
    assert_eq!(app.state.command.buffer, "");
    assert_eq!(app.state.command.input_mode, InputMode::Normal);
    assert!(!app.exit);
}

#[test]
fn unrecognized_command_is_silently_ignored() {
    let mut app = App::default();
    press(&mut app, &[Key::Char(':')]);
    type_chars(&mut app, "wq");
    press(&mut app, &[Key::Enter]);
    assert!(!app.exit);
    assert_eq!(app.state.command.buffer, "");
    assert_eq!(app.phase, Phase::ListView);
}

#[test]
fn overlay_swallows_navigation_keys() {
    let mut app = App::default();
    press(&mut app, &[Key::Char(':'), Key::Char('j'), Key::Char('j')]);
    assert_eq!(app.state.entry_list_state.selected(), Some(0));
    assert_eq!(app.state.command.buffer, ":jj");
}

#[test]
fn confirm_without_selection_is_a_no_op() {
    let mut app = App::default();
    // The seeded state always has a selection, so drive the cursor normally
    // and check the phase transition is tied to the selected index.
    press(&mut app, &[Key::Char('j'), Key::Enter]);
    assert_eq!(app.phase, Phase::EditEntry(1));
}

#[test]
fn edit_session_full_lifecycle() {
    // Scenario: drill into the first record, select the dose field, open an
    // edit session seeded with the stored text, see an invalid character
    // rejected, then commit a new value.
    let mut app = App::default();
    press(&mut app, &[Key::Enter]);
    assert_eq!(app.phase, Phase::EditEntry(0));
    assert_eq!(app.state.edit.input_mode, InputMode::Normal);
    // Field cursor starts at 0; move to the dose slot.
    press(&mut app, &[Key::Char('j'), Key::Char('j'), Key::Char('j'), Key::Char('j')]);
    assert_eq!(app.state.edit.list_state.selected(), Some(4));
    press(&mut app, &[Key::Char('e')]);
    assert_eq!(app.state.edit.input_mode, InputMode::Editing);
    assert_eq!(app.state.edit.input.text(), "18");
    // An invalid keystroke rolls back within the same step.
    press(&mut app, &[Key::Char('x')]);
    assert_eq!(app.state.edit.input.text(), "18");
    // Build "18.5" and commit.
    type_chars(&mut app, ".5");
    assert_eq!(app.state.edit.input.text(), "18.5");
    press(&mut app, &[Key::Enter]);
    assert_eq!(app.state.edit.input_mode, InputMode::Normal);
    assert_eq!(app.entries[0].dose, "18.5");
    assert_eq!(app.phase, Phase::EditEntry(0));
    assert!(app.check_invariants());
}

#[test]
fn edit_buffer_stays_valid_under_interleavings() {
    let mut app = App::default();
    press(&mut app, &[Key::Enter]);
    press(&mut app, &[Key::Char('j'), Key::Char('j'), Key::Char('j'), Key::Char('j')]);
    press(&mut app, &[Key::Char('e')]);
    let keys = [
        Key::Char('x'),
        Key::Char('.'),
        Key::Char('5'),
        Key::Backspace,
        Key::Backspace,
        Key::Backspace,
        Key::Backspace,
        Key::Char('-'),
        Key::Char('3'),
        Key::Left,
        Key::Char('e'),
        Key::Home,
        Key::Char('1'),
        Key::End,
        Key::Delete,
        Key::Backspace,
    ];
    for k in keys {
        app.handle_key_event(k);
        let text = app.state.edit.input.text();
        assert!(
            text.is_empty() || coffee_tracker::numeric::valid_float(&text),
            "buffer left invalid: {:?}",
            text
        );
    }
}

#[test]
fn empty_buffer_commit_is_rejected() {
    let mut app = App::default();
    press(&mut app, &[Key::Enter]);
    press(&mut app, &[Key::Char('j'), Key::Char('j'), Key::Char('j'), Key::Char('j')]);
    press(&mut app, &[Key::Char('e')]);
    press(&mut app, &[Key::Backspace, Key::Backspace]);
    assert_eq!(app.state.edit.input.text(), "");
    press(&mut app, &[Key::Enter]);
    // The session stays open and the stored value is untouched.
    assert_eq!(app.state.edit.input_mode, InputMode::Editing);
    assert_eq!(app.entries[0].dose, "18");
}

#[test]
fn unsupported_field_kinds_fail_closed() {
    let mut app = App::default();
    press(&mut app, &[Key::Enter]);
    // Field 0 is the date: the edit key must be a no-op.
    press(&mut app, &[Key::Char('e')]);
    assert_eq!(app.state.edit.input_mode, InputMode::Normal);
    // Field 6 is the derived ratio (undefined kind): also a no-op.
    press(
        &mut app,
        &[
            Key::Char('j'),
            Key::Char('j'),
            Key::Char('j'),
            Key::Char('j'),
            Key::Char('j'),
            Key::Char('j'),
        ],
    );
    assert_eq!(app.state.edit.list_state.selected(), Some(6));
    press(&mut app, &[Key::Char('e')]);
    assert_eq!(app.state.edit.input_mode, InputMode::Normal);
}

#[test]
fn field_cursor_clamps_at_both_ends() {
    let mut app = App::default();
    press(&mut app, &[Key::Enter]);
    press(&mut app, &[Key::Char('k')]);
    assert_eq!(app.state.edit.list_state.selected(), Some(0));
    for _ in 0..20 {
        press(&mut app, &[Key::Char('j')]);
    }
    assert_eq!(app.state.edit.list_state.selected(), Some(8));
}

#[test]
fn back_key_is_ignored_while_session_open() {
    let mut app = App::default();
    press(&mut app, &[Key::Enter]);
    press(&mut app, &[Key::Char('j'), Key::Char('j'), Key::Char('j'), Key::Char('j')]);
    press(&mut app, &[Key::Char('e')]);
    // 'q' is an ordinary character for the line editor, not the back key;
    // it is rejected by validation and the phase must not change.
    press(&mut app, &[Key::Char('q')]);
    assert_eq!(app.phase, Phase::EditEntry(0));
    assert_eq!(app.state.edit.input_mode, InputMode::Editing);
    assert_eq!(app.state.edit.input.text(), "18");
}

#[test]
fn edit_session_seeds_match_displayed_values() {
    // Opening each numeric-short field seeds the buffer with exactly the
    // text the detail view shows for it.
    let mut app = App::default();
    press(&mut app, &[Key::Enter]);
    for (slot, presses) in [(3usize, 3usize), (4, 1), (5, 1), (7, 2)] {
        for _ in 0..presses {
            press(&mut app, &[Key::Char('j')]);
        }
        assert_eq!(app.state.edit.list_state.selected(), Some(slot));
        press(&mut app, &[Key::Char('e')]);
        assert_eq!(app.state.edit.input_mode, InputMode::Editing);
        let seeded = app.state.edit.input.text();
        let shown = app.field_val_as_string(0, slot);
        assert_eq!(seeded, shown);
        // Leave the session without committing: clear, retype, commit the
        // same value back.
        for _ in 0..seeded.len() {
            press(&mut app, &[Key::Backspace]);
        }
        type_chars(&mut app, &seeded);
        press(&mut app, &[Key::Enter]);
        assert_eq!(app.state.edit.input_mode, InputMode::Normal);
    }
}
