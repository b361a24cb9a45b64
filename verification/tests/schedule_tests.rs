use alarm_clock::Class;
use alarm_clock::ClassTable;
use alarm_clock::input::class_from_input;
use alarm_clock::input::parse_u32_or_zero;

#[test]
fn class_new_is_blank() {
    let c = Class::new();
    assert_eq!(c.get_name(), "");
    assert_eq!(c.get_teacher(), "");
    assert_eq!(c.hour(), 0);
    assert_eq!(c.minute(), 0);
    assert_eq!(c.weekday(), 0);
}

#[test]
fn class_new_from_keeps_fields() {
    let c = Class::new_from(String::from("math"), String::from("li"), 8, 30, 0);
    assert_eq!(c.get_name(), "math");
    assert_eq!(c.get_teacher(), "li");
    assert_eq!(c.hour(), 8);
    assert_eq!(c.minute(), 30);
    assert_eq!(c.weekday(), 0);
}

#[test]
fn class_set_replaces_labels_only() {
    let mut c = Class::new_from(String::from("math"), String::from("li"), 9, 0, 2);
    c.set(String::from("physics"), String::from("wang"));
    assert_eq!(c.get_name(), "physics");
    assert_eq!(c.get_teacher(), "wang");
    assert_eq!(c.hour(), 9);
    assert_eq!(c.minute(), 0);
    assert_eq!(c.weekday(), 2);
}

#[test]
fn class_clone_is_equal() {
    let c = Class::new_from(String::from("art"), String::from("zhao"), 15, 45, 6);
    let d = c.clone();
    assert_eq!(d.get_name(), c.get_name());
    assert_eq!(d.get_teacher(), c.get_teacher());
    assert_eq!(d.hour(), c.hour());
    assert_eq!(d.minute(), c.minute());
    assert_eq!(d.weekday(), c.weekday());
}

#[test]
fn table_add_and_list_keeps_order() {
    let mut t = ClassTable::new();
    assert_eq!(t.len(), 0);
    t.add_class(Class::new_from(String::from("a"), String::from("x"), 1, 2, 3));
    t.add_class(Class::new_from(String::from("b"), String::from("y"), 4, 5, 6));
    assert_eq!(t.len(), 2);
    let list = t.get_class_list();
    assert_eq!(list.len(), 2);
    assert_eq!(list[0].get_name(), "a");
    assert_eq!(list[1].get_name(), "b");
    assert_eq!(list[1].minute(), 5);
}

#[test]
fn table_clone_is_entrywise_equal() {
    let mut t = ClassTable::new();
    t.add_class(Class::new_from(String::from("a"), String::from("x"), 1, 2, 3));
    t.add_class(Class::new_from(String::from("b"), String::from("y"), 4, 5, 6));
    let u = t.clone();
    assert_eq!(u.len(), 2);
    assert_eq!(u.get_class_list()[0].get_name(), "a");
    assert_eq!(u.get_class_list()[0].get_teacher(), "x");
    assert_eq!(u.get_class_list()[1].hour(), 4);
    assert_eq!(u.get_class_list()[1].weekday(), 6);
}

#[test]
fn parse_reads_plain_decimals() {
    assert_eq!(parse_u32_or_zero("0"), 0);
    assert_eq!(parse_u32_or_zero("7"), 7);
    assert_eq!(parse_u32_or_zero("007"), 7);
    assert_eq!(parse_u32_or_zero("830"), 830);
    assert_eq!(parse_u32_or_zero("4294967295"), 4294967295);
}

#[test]
fn parse_falls_back_to_zero() {
    assert_eq!(parse_u32_or_zero(""), 0);
    assert_eq!(parse_u32_or_zero("12a"), 0);
    assert_eq!(parse_u32_or_zero("a12"), 0);
    assert_eq!(parse_u32_or_zero(" 12"), 0);
    assert_eq!(parse_u32_or_zero("-3"), 0);
    assert_eq!(parse_u32_or_zero("4294967296"), 0);
    assert_eq!(parse_u32_or_zero("99999999999999999999"), 0);
}

#[test]
fn input_builds_entry_when_all_fields_filled() {
    let r = class_from_input(String::from("math"), String::from("li"), "8", "30", "0");
    let c = r.expect("all fields were filled");
    assert_eq!(c.get_name(), "math");
    assert_eq!(c.get_teacher(), "li");
    assert_eq!(c.hour(), 8);
    assert_eq!(c.minute(), 30);
    assert_eq!(c.weekday(), 0);
}

#[test]
fn input_rejects_any_blank_field() {
    assert!(class_from_input(String::new(), String::from("li"), "8", "30", "0").is_none());
    assert!(class_from_input(String::from("math"), String::new(), "8", "30", "0").is_none());
    assert!(class_from_input(String::from("math"), String::from("li"), "", "30", "0").is_none());
    assert!(class_from_input(String::from("math"), String::from("li"), "8", "", "0").is_none());
    assert!(class_from_input(String::from("math"), String::from("li"), "8", "30", "").is_none());
}

#[test]
fn input_reads_bad_numbers_as_zero() {
    let r = class_from_input(String::from("math"), String::from("li"), "abc", "61x", "9");
    let c = r.expect("no field was blank");
    assert_eq!(c.hour(), 0);
    assert_eq!(c.minute(), 0);
    assert_eq!(c.weekday(), 9);
}
