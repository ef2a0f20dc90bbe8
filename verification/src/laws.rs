//! Laws of the state machine, proved once over the spec-level transition
//! function and therefore holding for every keystroke sequence.

use vstd::prelude::*;
use crate::app::{
    edit_buffer_ok, overlay_ok, step, step_all, AppV, InputMode, Phase,
};
use crate::display::{detail_line, field_label, field_unit};
use crate::entry::{field_value_text, Entry, FieldType, NUM_FIELDS};
use crate::keys::Key;
use crate::selection::sel_in_bounds;

verus! {

/// One keystroke preserves the state invariant.
pub proof fn lemma_step_preserves_wf(s: AppV, k: Key)
    requires
        s.wf(),
    ensures
        step(s, k).wf(),
{
}

/// Every keystroke sequence preserves the state invariant.
pub proof fn lemma_step_all_preserves_wf(s: AppV, ks: Seq<Key>)
    requires
        s.wf(),
    ensures
        step_all(s, ks).wf(),
    decreases ks.len(),
{
    if ks.len() > 0 {
        lemma_step_preserves_wf(s, ks[0]);
        lemma_step_all_preserves_wf(step(s, ks[0]), ks.drop_first());
    }
}

/// After any keystroke sequence, the command overlay is active exactly
/// while its buffer is non-empty.
pub proof fn lemma_overlay_active_iff_nonempty(s: AppV, ks: Seq<Key>)
    requires
        s.wf(),
    ensures
        overlay_ok(step_all(s, ks).state.command),
{
    lemma_step_all_preserves_wf(s, ks);
}

/// After any keystroke sequence, each selection index, if present, stays
/// below the length of its list: no wraparound, no escape past the ends.
pub proof fn lemma_selection_in_bounds(s: AppV, ks: Seq<Key>)
    requires
        s.wf(),
    ensures
        sel_in_bounds(
            step_all(s, ks).state.entry_list_state.selected,
            step_all(s, ks).entries.len(),
        ),
        sel_in_bounds(step_all(s, ks).state.edit.list_state.selected, NUM_FIELDS as nat),
{
    lemma_step_all_preserves_wf(s, ks);
}

/// After any keystroke sequence, an open edit session's buffer is either
/// empty or accepted by the decimal grammar: no invalid text survives a
/// keystroke.
pub proof fn lemma_edit_buffer_valid(s: AppV, ks: Seq<Key>)
    requires
        s.wf(),
    ensures
        step_all(s, ks).state.edit.input_mode == InputMode::Editing ==> edit_buffer_ok(
            step_all(s, ks).state.edit.input.text,
        ),
{
    lemma_step_all_preserves_wf(s, ks);
}

/// Move-first is idempotent: in the list view with the overlay closed and
/// a non-empty list, pressing it twice yields the state one press yields.
pub proof fn lemma_move_first_idempotent(s: AppV)
    requires
        s.wf(),
        s.state.command.input_mode == InputMode::Normal,
        s.phase == Phase::ListView,
        s.entries.len() > 0,
    ensures
        step(step(s, Key::Char('g')), Key::Char('g')) == step(s, Key::Char('g')),
{
    assert(step(step(s, Key::Char('g')), Key::Char('g')) =~~= step(s, Key::Char('g')));
}

/// Whatever the current phase, typing the overlay trigger, then the quit
/// command's letter, then confirm sets the global exit flag.
pub proof fn lemma_quit_command_sets_exit(s: AppV)
    requires
        s.wf(),
        s.state.command.input_mode == InputMode::Normal,
    ensures
        step_all(s, seq![Key::Char(':'), Key::Char('q'), Key::Enter]).exit,
{
    let ks = seq![Key::Char(':'), Key::Char('q'), Key::Enter];
    let s1 = step(s, ks[0]);
    let s2 = step(s1, ks[1]);
    let s3 = step(s2, ks[2]);
    assert(s.state.command.buffer =~= Seq::<char>::empty());
    assert(s2.state.command.buffer =~= seq![':', 'q']);
    assert(s3.exit);
    let t1 = ks.drop_first();
    let t2 = t1.drop_first();
    let t3 = t2.drop_first();
    assert(t1 =~= seq![Key::Char('q'), Key::Enter]);
    assert(t2 =~= seq![Key::Enter]);
    assert(t3 =~= Seq::<Key>::empty());
    assert(t1[0] == ks[1] && t2[0] == ks[2]);
    assert(step_all(s, ks) == step_all(s1, t1));
    assert(step_all(s1, t1) == step_all(s2, t2));
    assert(step_all(s2, t2) == step_all(s3, t3));
    assert(step_all(s3, t3) == s3);
}

/// The reserved phases for editing reference entities have no transition
/// into them: no keystroke ever reaches them from the live phases.
pub proof fn lemma_reserved_phases_unreachable(s: AppV, k: Key)
    requires
        s.phase != Phase::EditCoffee,
        s.phase != Phase::EditGrinder,
    ensures
        step(s, k).phase != Phase::EditCoffee,
        step(s, k).phase != Phase::EditGrinder,
{
}

/// Opening a numeric-short field's edit session seeds its buffer with
/// exactly the text the detail view displays for that field, without the
/// unit suffix.
pub proof fn lemma_edit_seed_matches_display(s: AppV, i: usize, f: usize, ratio: Seq<char>)
    requires
        s.wf(),
        s.state.command.input_mode == InputMode::Normal,
        s.phase == Phase::EditEntry(i),
        s.state.edit.input_mode == InputMode::Normal,
        s.state.edit.list_state.selected == Some(f),
        Entry::spec_field_type(f as int) == FieldType::ShortString,
    ensures
        step(s, Key::Char('e')).state.edit.input.text == field_value_text(
            s.entries[i as int],
            f as int,
        ),
        detail_line(s.entries[i as int], s.coffees, s.grinders, ratio, f as int) == field_label(
            f as int,
        ) + step(s, Key::Char('e')).state.edit.input.text + field_unit(f as int),
{
}

} // verus!
