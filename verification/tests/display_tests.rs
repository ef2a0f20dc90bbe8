use coffee_tracker::app::App;
use coffee_tracker::edit_buffer::EditBuffer;
use coffee_tracker::entry::{Entry, FieldType, Timestamp};
use coffee_tracker::keys::Key;
use coffee_tracker::selection::Selection;

#[test]
fn timestamp_formats_zero_padded() {
    let t = Timestamp::new(2026, 10, 12, 14, 5);
    assert_eq!(t.format(), "2026/10/12 14:05");
    let early = Timestamp::new(987, 1, 2, 3, 4);
    assert_eq!(early.format(), "0987/01/02 03:04");
}

#[test]
fn timestamp_clamps_out_of_range_fields() {
    let t = Timestamp::new(-5, 0, 40, 99, 99);
    assert_eq!(t.format(), "0000/01/31 23:59");
    let t2 = Timestamp::new(123456, 13, 0, 24, 60);
    assert_eq!(t2.format(), "9999/12/01 23:59");
}

#[test]
fn clock_timestamps_are_calendar_valid() {
    let t = Timestamp::now_plus(0);
    assert!(t.is_wf());
    assert!((1..=12).contains(&t.month));
    assert!((1..=31).contains(&t.day));
    assert!(t.hour < 24 && t.minute < 60);
    assert_eq!(t.format().len(), 16);
    let later = Timestamp::now_plus(600);
    assert!(later.is_wf());
}

#[test]
fn field_schema_is_total_and_stable() {
    assert_eq!(Entry::field_type(0), FieldType::Date);
    assert_eq!(Entry::field_type(1), FieldType::CoffeeType);
    assert_eq!(Entry::field_type(2), FieldType::GrinderType);
    assert_eq!(Entry::field_type(3), FieldType::ShortString);
    assert_eq!(Entry::field_type(4), FieldType::ShortString);
    assert_eq!(Entry::field_type(5), FieldType::ShortString);
    assert_eq!(Entry::field_type(6), FieldType::Undefined);
    assert_eq!(Entry::field_type(7), FieldType::ShortString);
    assert_eq!(Entry::field_type(8), FieldType::LongString);
}

#[test]
fn title_follows_phase() {
    let mut app = App::default();
    assert_eq!(app.title(), " Coffee Tracking - Entries ");
    app.handle_key_event(Key::Enter);
    assert_eq!(app.title(), " Coffee Tracking ");
}

#[test]
fn detail_lines_show_stored_texts() {
    let app = App::default();
    let entry = &app.entries[0];
    let lines = app.format_entry_details(entry, "2.5");
    assert_eq!(lines.len(), 9);
    assert!(lines[0].starts_with("  Date brewed: "));
    assert_eq!(lines[1], "  Coffee: B&W FSL28");
    assert_eq!(lines[2], "  Grinder: Niche Zero");
    assert_eq!(lines[3], "  Grind setting: 0");
    assert_eq!(lines[4], "  Dose: 18 g");
    assert_eq!(lines[5], "  Output: 45.1 g ");
    assert_eq!(lines[6], "  Ratio: 2.5 / 1");
    assert_eq!(lines[7], "  Duration: 26 sec");
    assert_eq!(lines[8], "  Notes: ");
}

#[test]
fn detail_line_minus_unit_matches_edit_seed() {
    let app = App::default();
    let entry = &app.entries[0];
    let lines = app.format_entry_details(entry, "2.5");
    let dose_line = &lines[4];
    let value = dose_line
        .strip_prefix("  Dose: ")
        .and_then(|rest| rest.strip_suffix(" g"))
        .unwrap();
    assert_eq!(value, app.field_val_as_string(0, 4));
}

#[test]
fn list_line_shows_star_date_and_coffee() {
    let app = App::default();
    let plain = app.format_entry_item(&app.entries[0]);
    let starred = app.format_entry_item(&app.entries[1]);
    assert!(plain.starts_with("   "));
    assert!(starred.starts_with(" * "));
    assert!(plain.ends_with(" | B&W FSL28"));
    assert!(starred.ends_with(" | B&W FSL28"));
    let third = app.format_entry_item(&app.entries[2]);
    assert!(third.ends_with(" | Folgers"));
    // " " + star + " " + "YYYY/MM/DD HH:MM" + " | " + name
    assert_eq!(plain.len(), 3 + 16 + 3 + "B&W FSL28".len());
}

#[test]
fn entity_lookup_finds_names() {
    let app = App::default();
    assert!(app.has_coffee(app.entries[0].coffee_id));
    assert!(app.has_grinder(app.entries[0].grinder_id));
    assert_eq!(app.find_coffee_name(app.entries[2].coffee_id), "Folgers");
    assert_eq!(app.find_grinder_name(app.entries[0].grinder_id), "Niche Zero");
    let mut bogus: u128 = 0;
    while app.coffees.iter().any(|c| c.uuid == bogus) {
        bogus += 1;
    }
    assert!(!app.has_coffee(bogus));
    let mut bogus_g: u128 = 0;
    while app.grinders.iter().any(|g| g.uuid == bogus_g) {
        bogus_g += 1;
    }
    assert!(!app.has_grinder(bogus_g));
}

#[test]
fn field_values_outside_numeric_slots_read_zero() {
    let app = App::default();
    assert_eq!(app.field_val_as_string(0, 0), "0");
    assert_eq!(app.field_val_as_string(0, 6), "0");
    assert_eq!(app.field_val_as_string(0, 8), "0");
    assert_eq!(app.field_val_as_string(0, 3), "0");
    assert_eq!(app.field_val_as_string(0, 5), "45.1");
    assert_eq!(app.field_val_as_string(0, 7), "26");
}

#[test]
fn selection_moves_clamp_on_fixed_list() {
    let mut s = Selection::new();
    assert_eq!(s.selected(), None);
    s.select_next(0);
    assert_eq!(s.selected(), None);
    s.select_next(3);
    assert_eq!(s.selected(), Some(0));
    s.select_next(3);
    s.select_next(3);
    s.select_next(3);
    assert_eq!(s.selected(), Some(2));
    s.select_previous(3);
    assert_eq!(s.selected(), Some(1));
    s.select_first(3);
    assert_eq!(s.selected(), Some(0));
    let mut fresh = Selection::new();
    fresh.select_previous(4);
    assert_eq!(fresh.selected(), Some(3));
}

#[test]
fn edit_buffer_implements_line_editing() {
    let mut b = EditBuffer::from_str("18");
    assert_eq!(b.text(), "18");
    b.apply_key(Key::Char('5'));
    assert_eq!(b.text(), "185");
    b.apply_key(Key::Left);
    b.apply_key(Key::Char('.'));
    assert_eq!(b.text(), "18.5");
    b.apply_key(Key::Home);
    b.apply_key(Key::Delete);
    assert_eq!(b.text(), "8.5");
    b.apply_key(Key::End);
    b.apply_key(Key::Backspace);
    assert_eq!(b.text(), "8.");
    b.apply_key(Key::Esc);
    assert_eq!(b.text(), "8.");
}
