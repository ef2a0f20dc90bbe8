//! The data model: logged entries, the reference entities they point to,
//! and the schema that maps a field position to its editing kind.
//!
//! Numeric measurements are held as their decimal text, exactly as they are
//! displayed and edited; each stored text is always non-empty and accepted
//! by the decimal grammar. Timestamps are held as plain calendar fields.
//! Reference identities are 128-bit values drawn from a random identifier
//! generator at construction time.

use vstd::prelude::*;
use chrono::{Datelike, Timelike};
use crate::numeric::is_valid_float;
use crate::text::{append_pad2, append_pad4, pad2, pad4, push_char};

verus! {

/// Relies on `uuid::Uuid::new_v4` and `Uuid::as_u128`: a fresh random
/// version-4 identifier as its 128-bit value. Nothing is promised of the
/// result, since it is random.
#[verifier::external_body]
fn fresh_uuid() -> (r: u128) {
    uuid::Uuid::new_v4().as_u128()
}

/// Relies on `chrono::Local::now`, `chrono::TimeDelta::seconds`,
/// `chrono::DateTime::checked_add_signed` and the `Datelike` / `Timelike`
/// accessors: the local calendar fields (year, month, day, hour, minute) of
/// the current time advanced by `secs` seconds. Only the documented ranges
/// of the accessors are promised; the values depend on the clock and the
/// machine's time zone. Should the advanced time leave chrono's
/// representable range, the fields of the current time itself come back.
/// The bound on `secs` keeps `TimeDelta::seconds` from panicking.
#[verifier::external_body]
fn local_now_plus(secs: u64) -> (r: (i32, u32, u32, u32, u32))
    requires
        secs < 0x10000000000,
    ensures
        1 <= r.1 <= 12,
        1 <= r.2 <= 31,
        r.3 < 24,
        r.4 < 60,
{
    let now = chrono::Local::now();
    let dt = match now.checked_add_signed(chrono::TimeDelta::seconds(secs as i64)) {
        Some(d) => d,
        None => now,
    };
    (dt.year(), dt.month(), dt.day(), dt.hour(), dt.minute())
}

/// A calendar timestamp, minute precision, held as plain fields.
#[derive(Clone, Copy, Debug, PartialEq, Eq, Structural)]
pub struct Timestamp {
    pub year: u32,
    pub month: u32,
    pub day: u32,
    pub hour: u32,
    pub minute: u32,
}

impl Timestamp {
    /// Every field sits in its calendar range.
    pub open spec fn wf(self) -> bool {
        self.year < 10000 && 1 <= self.month <= 12 && 1 <= self.day <= 31 && self.hour < 24
            && self.minute < 60
    }

    /// The display text `YYYY/MM/DD HH:MM`.
    pub open spec fn spec_format(self) -> Seq<char> {
        pad4(self.year as int) + seq!['/'] + pad2(self.month as int) + seq!['/'] + pad2(
            self.day as int,
        ) + seq![' '] + pad2(self.hour as int) + seq![':'] + pad2(self.minute as int)
    }

    /// A timestamp with each field clamped into its calendar range.
    pub fn new(year: i32, month: u32, day: u32, hour: u32, minute: u32) -> (t: Timestamp)
        ensures
            t.wf(),
            0 <= year < 10000 ==> t.year == year,
            1 <= month <= 12 ==> t.month == month,
            1 <= day <= 31 ==> t.day == day,
            hour < 24 ==> t.hour == hour,
            minute < 60 ==> t.minute == minute,
    {
        let y: u32 = if year < 0 {
            0
        } else if year > 9999 {
            9999
        } else {
            year as u32
        };
        let mo: u32 = if month < 1 {
            1
        } else if month > 12 {
            12
        } else {
            month
        };
        let d: u32 = if day < 1 {
            1
        } else if day > 31 {
            31
        } else {
            day
        };
        let h: u32 = if hour > 23 {
            23
        } else {
            hour
        };
        let mi: u32 = if minute > 59 {
            59
        } else {
            minute
        };
        Timestamp { year: y, month: mo, day: d, hour: h, minute: mi }
    }

    /// The local calendar time now, advanced by `secs` seconds; the values
    /// come from the machine clock, so nothing is promised of them beyond
    /// well-formedness.
    pub fn now_plus(secs: u64) -> (t: Timestamp)
        requires
            secs < 0x10000000000,
        ensures
            t.wf(),
    {
        let (y, mo, d, h, mi) = local_now_plus(secs);
        Timestamp::new(y, mo, d, h, mi)
    }

    /// Decides `wf`.
    pub fn is_wf(&self) -> (r: bool)
        ensures
            r == self.wf(),
    {
        self.year < 10000 && 1 <= self.month && self.month <= 12 && 1 <= self.day && self.day <= 31
            && self.hour < 24 && self.minute < 60
    }

    /// Formats the timestamp as `YYYY/MM/DD HH:MM`.
    pub fn format(&self) -> (r: String)
        requires
            self.wf(),
        ensures
            r@ == self.spec_format(),
    {
        let mut s = String::new();
        append_pad4(&mut s, self.year);
        push_char(&mut s, '/');
        append_pad2(&mut s, self.month);
        push_char(&mut s, '/');
        append_pad2(&mut s, self.day);
        push_char(&mut s, ' ');
        append_pad2(&mut s, self.hour);
        push_char(&mut s, ':');
        append_pad2(&mut s, self.minute);
        assert(s@ =~= self.spec_format());
        s
    }
}

/// The semantic editing kind of a field position.
#[derive(Clone, Copy, Debug, PartialEq, Eq, Structural)]
pub enum FieldType {
    Date,
    CoffeeType,
    GrinderType,
    ShortString,
    LongString,
    Undefined,
}

/// How many fields an entry's detail view shows.
pub const NUM_FIELDS: usize = 9;

/// The mathematical value of an entry.
#[verifier::ext_equal]
pub ghost struct EntryV {
    pub dt_added: Timestamp,
    pub dt_taken: Timestamp,
    pub coffee_id: u128,
    pub grinder_id: u128,
    pub grind_setting: Seq<char>,
    pub duration: Seq<char>,
    pub dose: Seq<char>,
    pub output: Seq<char>,
    pub favorite: bool,
    pub notes: Seq<char>,
}

impl EntryV {
    /// Timestamps are calendar-valid and every measurement text is a
    /// non-empty decimal the grammar accepts.
    pub open spec fn wf(self) -> bool {
        self.dt_added.wf() && self.dt_taken.wf() && measurement_ok(self.grind_setting)
            && measurement_ok(self.duration) && measurement_ok(self.dose) && measurement_ok(
            self.output,
        )
    }
}

/// A stored measurement text: non-empty and accepted by the decimal grammar.
pub open spec fn measurement_ok(s: Seq<char>) -> bool {
    s.len() > 0 && is_valid_float(s)
}

/// One logged observation.
#[derive(Debug)]
pub struct Entry {
    pub dt_added: Timestamp,
    pub dt_taken: Timestamp,
    pub coffee_id: u128,
    pub grinder_id: u128,
    pub grind_setting: String,
    pub duration: String,
    pub dose: String,
    pub output: String,
    pub favorite: bool,
    pub notes: String,
}

impl View for Entry {
    type V = EntryV;

    open spec fn view(&self) -> EntryV {
        EntryV {
            dt_added: self.dt_added,
            dt_taken: self.dt_taken,
            coffee_id: self.coffee_id,
            grinder_id: self.grinder_id,
            grind_setting: self.grind_setting@,
            duration: self.duration@,
            dose: self.dose@,
            output: self.output@,
            favorite: self.favorite,
            notes: self.notes@,
        }
    }
}

impl Entry {
    /// The editing kind of field position `i`.
    pub open spec fn spec_field_type(i: int) -> FieldType {
        if i == 0 {
            FieldType::Date
        } else if i == 1 {
            FieldType::CoffeeType
        } else if i == 2 {
            FieldType::GrinderType
        } else if i > 2 && i != 6 && i != 8 {
            FieldType::ShortString
        } else if i == 8 {
            FieldType::LongString
        } else {
            FieldType::Undefined
        }
    }

    /// Decides the entry's well-formedness: calendar-valid timestamps and
    /// four non-empty measurement texts the decimal grammar accepts.
    pub fn check_wf(&self) -> (r: bool)
        ensures
            r == self@.wf(),
    {
        self.dt_added.is_wf() && self.dt_taken.is_wf() && !self.grind_setting.as_str().is_empty()
            && crate::numeric::valid_float(self.grind_setting.as_str())
            && !self.duration.as_str().is_empty() && crate::numeric::valid_float(
            self.duration.as_str(),
        ) && !self.dose.as_str().is_empty() && crate::numeric::valid_float(self.dose.as_str())
            && !self.output.as_str().is_empty() && crate::numeric::valid_float(
            self.output.as_str(),
        )
    }

    /// Maps a field position to its editing kind; the mapping is total.
    pub fn field_type(i: usize) -> (t: FieldType)
        ensures
            t == Entry::spec_field_type(i as int),
    {
        if i == 0 {
            FieldType::Date
        } else if i == 1 {
            FieldType::CoffeeType
        } else if i == 2 {
            FieldType::GrinderType
        } else if i > 2 && i != 6 && i != 8 {
            FieldType::ShortString
        } else if i == 8 {
            FieldType::LongString
        } else {
            FieldType::Undefined
        }
    }
}

/// The measurement text shown and edited at field position `f`: the four
/// numeric-short slots map to the four measurements; every other position
/// reads as zero.
pub open spec fn field_value_text(e: EntryV, f: int) -> Seq<char> {
    if f == 3 {
        e.grind_setting
    } else if f == 4 {
        e.dose
    } else if f == 5 {
        e.output
    } else if f == 7 {
        e.duration
    } else {
        seq!['0']
    }
}

/// The entry with the measurement at field position `f` replaced by `t`;
/// positions outside the numeric-short slots store nothing.
pub open spec fn with_field_text(e: EntryV, f: int, t: Seq<char>) -> EntryV {
    if f == 3 {
        EntryV { grind_setting: t, ..e }
    } else if f == 4 {
        EntryV { dose: t, ..e }
    } else if f == 5 {
        EntryV { output: t, ..e }
    } else if f == 7 {
        EntryV { duration: t, ..e }
    } else {
        e
    }
}

/// The mathematical value of a category-A reference entity.
#[verifier::ext_equal]
pub ghost struct CoffeeV {
    pub name: Seq<char>,
    pub uuid: u128,
}

/// A named coffee, identified by an opaque 128-bit id.
#[derive(Debug)]
pub struct Coffee {
    pub name: String,
    pub uuid: u128,
}

impl View for Coffee {
    type V = CoffeeV;

    open spec fn view(&self) -> CoffeeV {
        CoffeeV { name: self.name@, uuid: self.uuid }
    }
}

impl Coffee {
    /// A coffee under `name` with a freshly drawn id.
    pub fn new(name: String) -> (c: Coffee)
        ensures
            c@.name == name@,
    {
        Coffee { name, uuid: fresh_uuid() }
    }
}

/// The mathematical value of a category-B reference entity.
#[verifier::ext_equal]
pub ghost struct GrinderV {
    pub name: Seq<char>,
    pub uuid: u128,
}

/// A named grinder, identified by an opaque 128-bit id.
#[derive(Debug)]
pub struct Grinder {
    pub name: String,
    pub uuid: u128,
}

impl View for Grinder {
    type V = GrinderV;

    open spec fn view(&self) -> GrinderV {
        GrinderV { name: self.name@, uuid: self.uuid }
    }
}

impl Grinder {
    /// A grinder under `name` with a freshly drawn id.
    pub fn new(name: String) -> (g: Grinder)
        ensures
            g@.name == name@,
    {
        Grinder { name, uuid: fresh_uuid() }
    }
}

} // verus!
