//! Read-only projections of the state for the render step.
//!
//! Rendering is a pure read: for each frame the renderer asks for the
//! title, the list line of every entry, and the nine detail lines of the
//! entry being edited. Every projection is stated exactly over the views.

use vstd::prelude::*;
use crate::app::{resolves_coffee, resolves_grinder, App, Phase};
use crate::entry::{field_value_text, CoffeeV, Entry, EntryV, GrinderV};

verus! {

/// The name of the first category-A entity carrying `id`.
pub open spec fn coffee_name_of(cs: Seq<CoffeeV>, id: u128) -> Seq<char>
    decreases cs.len(),
{
    if cs.len() == 0 {
        Seq::<char>::empty()
    } else if cs[0].uuid == id {
        cs[0].name
    } else {
        coffee_name_of(cs.drop_first(), id)
    }
}

/// The name of the first category-B entity carrying `id`.
pub open spec fn grinder_name_of(gs: Seq<GrinderV>, id: u128) -> Seq<char>
    decreases gs.len(),
{
    if gs.len() == 0 {
        Seq::<char>::empty()
    } else if gs[0].uuid == id {
        gs[0].name
    } else {
        grinder_name_of(gs.drop_first(), id)
    }
}

proof fn lemma_coffee_name_skip(cs: Seq<CoffeeV>, id: u128, i: int)
    requires
        0 <= i <= cs.len(),
        forall|j: int| 0 <= j < i ==> (#[trigger] cs[j]).uuid != id,
    ensures
        coffee_name_of(cs.skip(i), id) == coffee_name_of(cs, id),
    decreases i,
{
    if i > 0 {
        lemma_coffee_name_skip(cs, id, i - 1);
        assert(cs.skip(i - 1).drop_first() =~= cs.skip(i));
        assert(cs.skip(i - 1)[0] == cs[i - 1]);
        assert(coffee_name_of(cs.skip(i - 1), id) == coffee_name_of(
            cs.skip(i - 1).drop_first(),
            id,
        ));
    } else {
        assert(cs.skip(0) =~= cs);
    }
}

proof fn lemma_grinder_name_skip(gs: Seq<GrinderV>, id: u128, i: int)
    requires
        0 <= i <= gs.len(),
        forall|j: int| 0 <= j < i ==> (#[trigger] gs[j]).uuid != id,
    ensures
        grinder_name_of(gs.skip(i), id) == grinder_name_of(gs, id),
    decreases i,
{
    if i > 0 {
        lemma_grinder_name_skip(gs, id, i - 1);
        assert(gs.skip(i - 1).drop_first() =~= gs.skip(i));
        assert(gs.skip(i - 1)[0] == gs[i - 1]);
        assert(grinder_name_of(gs.skip(i - 1), id) == grinder_name_of(
            gs.skip(i - 1).drop_first(),
            id,
        ));
    } else {
        assert(gs.skip(0) =~= gs);
    }
}

/// The label before the measurement text on a numeric-short detail line.
pub open spec fn field_label(f: int) -> Seq<char> {
    if f == 3 {
        "  Grind setting: "@
    } else if f == 4 {
        "  Dose: "@
    } else if f == 5 {
        "  Output: "@
    } else {
        "  Duration: "@
    }
}

/// The unit suffix after the measurement text on a numeric-short detail
/// line.
pub open spec fn field_unit(f: int) -> Seq<char> {
    if f == 3 {
        Seq::<char>::empty()
    } else if f == 4 {
        " g"@
    } else if f == 5 {
        " g "@
    } else {
        " sec"@
    }
}

/// Detail line `row` of an entry, given the entity lists and the
/// externally computed ratio text.
pub open spec fn detail_line(
    e: EntryV,
    cs: Seq<CoffeeV>,
    gs: Seq<GrinderV>,
    ratio: Seq<char>,
    row: int,
) -> Seq<char> {
    if row == 0 {
        "  Date brewed: "@ + e.dt_taken.spec_format()
    } else if row == 1 {
        "  Coffee: "@ + coffee_name_of(cs, e.coffee_id)
    } else if row == 2 {
        "  Grinder: "@ + grinder_name_of(gs, e.grinder_id)
    } else if row == 6 {
        "  Ratio: "@ + ratio + " / 1"@
    } else if row == 8 {
        "  Notes: "@ + e.notes
    } else {
        field_label(row) + field_value_text(e, row) + field_unit(row)
    }
}

/// The list line of an entry: a favorite star, the brew time, and the
/// coffee's name.
pub open spec fn entry_item_text(e: EntryV, cs: Seq<CoffeeV>) -> Seq<char> {
    seq![' '] + (if e.favorite {
        seq!['*']
    } else {
        seq![' ']
    }) + seq![' '] + e.dt_taken.spec_format() + seq![' ', '|', ' '] + coffee_name_of(
        cs,
        e.coffee_id,
    )
}

impl App {
    /// Whether `id` resolves to a known category-A entity.
    pub fn has_coffee(&self, id: u128) -> (r: bool)
        ensures
            r == resolves_coffee(self@.coffees, id),
    {
        let n = self.coffees.len();
        let mut i: usize = 0;
        while i < n
            invariant
                i <= n,
                n == self@.coffees.len(),
                forall|j: int| 0 <= j < i ==> (#[trigger] self@.coffees[j]).uuid != id,
            decreases n - i,
        {
            if self.coffees[i].uuid == id {
                proof {
                    assert(self@.coffees[i as int].uuid == id);
                }
                return true;
            }
            i = i + 1;
        }
        false
    }

    /// Whether `id` resolves to a known category-B entity.
    pub fn has_grinder(&self, id: u128) -> (r: bool)
        ensures
            r == resolves_grinder(self@.grinders, id),
    {
        let n = self.grinders.len();
        let mut i: usize = 0;
        while i < n
            invariant
                i <= n,
                n == self@.grinders.len(),
                forall|j: int| 0 <= j < i ==> (#[trigger] self@.grinders[j]).uuid != id,
            decreases n - i,
        {
            if self.grinders[i].uuid == id {
                proof {
                    assert(self@.grinders[i as int].uuid == id);
                }
                return true;
            }
            i = i + 1;
        }
        false
    }

    /// The name of the category-A entity `id` resolves to.
    pub fn find_coffee_name(&self, id: u128) -> (r: String)
        requires
            resolves_coffee(self@.coffees, id),
        ensures
            r@ == coffee_name_of(self@.coffees, id),
    {
        let n = self.coffees.len();
        let mut i: usize = 0;
        while i < n
            invariant
                i <= n,
                n == self@.coffees.len(),
                resolves_coffee(self@.coffees, id),
                forall|j: int| 0 <= j < i ==> (#[trigger] self@.coffees[j]).uuid != id,
            decreases n - i,
        {
            if self.coffees[i].uuid == id {
                proof {
                    lemma_coffee_name_skip(self@.coffees, id, i as int);
                    assert(self@.coffees.skip(i as int)[0] == self@.coffees[i as int]);
                }
                return self.coffees[i].name.clone();
            }
            i = i + 1;
        }
        proof {
            let j = choose|j: int|
                0 <= j < self@.coffees.len() && self@.coffees[j].uuid == id;
            assert(false);
        }
        String::new()
    }

    /// The name of the category-B entity `id` resolves to.
    pub fn find_grinder_name(&self, id: u128) -> (r: String)
        requires
            resolves_grinder(self@.grinders, id),
        ensures
            r@ == grinder_name_of(self@.grinders, id),
    {
        let n = self.grinders.len();
        let mut i: usize = 0;
        while i < n
            invariant
                i <= n,
                n == self@.grinders.len(),
                resolves_grinder(self@.grinders, id),
                forall|j: int| 0 <= j < i ==> (#[trigger] self@.grinders[j]).uuid != id,
            decreases n - i,
        {
            if self.grinders[i].uuid == id {
                proof {
                    lemma_grinder_name_skip(self@.grinders, id, i as int);
                    assert(self@.grinders.skip(i as int)[0] == self@.grinders[i as int]);
                }
                return self.grinders[i].name.clone();
            }
            i = i + 1;
        }
        proof {
            let j = choose|j: int|
                0 <= j < self@.grinders.len() && self@.grinders[j].uuid == id;
            assert(false);
        }
        String::new()
    }

    /// The window title for the current phase.
    pub fn title(&self) -> (r: String)
        ensures
            self@.phase == Phase::ListView ==> r@ == " Coffee Tracking - Entries "@,
            self@.phase != Phase::ListView ==> r@ == " Coffee Tracking "@,
    {
        match self.phase {
            Phase::ListView => String::from_str(" Coffee Tracking - Entries "),
            _ => String::from_str(" Coffee Tracking "),
        }
    }

    /// The list line of `entry`.
    pub fn format_entry_item(&self, entry: &Entry) -> (r: String)
        requires
            entry@.dt_taken.wf(),
            resolves_coffee(self@.coffees, entry@.coffee_id),
        ensures
            r@ == entry_item_text(entry@, self@.coffees),
    {
        let mut s = String::new();
        crate::text::push_char(&mut s, ' ');
        if entry.favorite {
            crate::text::push_char(&mut s, '*');
        } else {
            crate::text::push_char(&mut s, ' ');
        }
        crate::text::push_char(&mut s, ' ');
        let dt = entry.dt_taken.format();
        s.append(dt.as_str());
        crate::text::push_char(&mut s, ' ');
        crate::text::push_char(&mut s, '|');
        crate::text::push_char(&mut s, ' ');
        let name = self.find_coffee_name(entry.coffee_id);
        s.append(name.as_str());
        assert(s@ =~= entry_item_text(entry@, self@.coffees));
        s
    }

    /// The nine detail lines of `entry`; the ratio text is computed by the
    /// caller, since it is derived from measurements rather than stored.
    pub fn format_entry_details(&self, entry: &Entry, ratio: &str) -> (r: Vec<String>)
        requires
            entry@.dt_taken.wf(),
            resolves_coffee(self@.coffees, entry@.coffee_id),
            resolves_grinder(self@.grinders, entry@.grinder_id),
        ensures
            r@.len() == 9,
            forall|row: int|
                0 <= row < 9 ==> (#[trigger] r@[row])@ == detail_line(
                    entry@,
                    self@.coffees,
                    self@.grinders,
                    ratio@,
                    row,
                ),
    {
        let mut lines: Vec<String> = Vec::new();

        let mut l0 = String::from_str("  Date brewed: ");
        let dt = entry.dt_taken.format();
        l0.append(dt.as_str());
        lines.push(l0);

        let mut l1 = String::from_str("  Coffee: ");
        let cname = self.find_coffee_name(entry.coffee_id);
        l1.append(cname.as_str());
        lines.push(l1);

        let mut l2 = String::from_str("  Grinder: ");
        let gname = self.find_grinder_name(entry.grinder_id);
        l2.append(gname.as_str());
        lines.push(l2);

        let mut l3 = String::from_str("  Grind setting: ");
        l3.append(entry.grind_setting.as_str());
        lines.push(l3);

        let mut l4 = String::from_str("  Dose: ");
        l4.append(entry.dose.as_str());
        l4.append(" g");
        lines.push(l4);

        let mut l5 = String::from_str("  Output: ");
        l5.append(entry.output.as_str());
        l5.append(" g ");
        lines.push(l5);

        let mut l6 = String::from_str("  Ratio: ");
        l6.append(ratio);
        l6.append(" / 1");
        lines.push(l6);

        let mut l7 = String::from_str("  Duration: ");
        l7.append(entry.duration.as_str());
        l7.append(" sec");
        lines.push(l7);

        let mut l8 = String::from_str("  Notes: ");
        l8.append(entry.notes.as_str());
        lines.push(l8);

        proof {
            assert(field_label(3) + field_value_text(entry@, 3) + field_unit(3) =~= "  Grind setting: "@
                + entry@.grind_setting);
            assert(field_label(4) + field_value_text(entry@, 4) + field_unit(4) =~= "  Dose: "@
                + entry@.dose + " g"@);
            assert(field_label(5) + field_value_text(entry@, 5) + field_unit(5) =~= "  Output: "@
                + entry@.output + " g "@);
            assert(field_label(7) + field_value_text(entry@, 7) + field_unit(7) =~= "  Duration: "@
                + entry@.duration + " sec"@);
        }
        lines
    }
}

} // verus!
