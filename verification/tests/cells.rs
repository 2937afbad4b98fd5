use late_init::{LateInit, LateInitUnchecked};
use std::rc::Rc;

#[test]
fn checked_prefilled_reports_present() {
    let cell = LateInit::with(5i32);
    assert_eq!(cell.late_try_get_ref(), Some(&5));
}

#[test]
fn checked_empty_then_initialize() {
    let mut cell: LateInit<i32> = LateInit::new();
    assert_eq!(cell.late_try_get_ref(), None);
    cell.late_init_mut(7);
    assert_eq!(cell.late_try_get_ref(), Some(&7));
}

#[test]
fn checked_try_get_mut_absent_then_present() {
    let mut cell: LateInit<String> = LateInit::new();
    assert!(cell.late_try_get_mut().is_none());
    cell.late_init_mut(String::from("set"));
    assert_eq!(cell.late_try_get_mut(), Some(&mut String::from("set")));
}

#[test]
fn checked_mut_and_shared_accessors_alias() {
    let mut cell = LateInit::with(1i32);
    *cell.late_get_mut() = 99;
    assert_eq!(*cell.late_get_ref(), 99);
    if let Some(v) = cell.late_try_get_mut() {
        *v = 100;
    }
    assert_eq!(cell.late_try_get_ref(), Some(&100));
}

#[test]
fn checked_debug_placeholder_when_uninitialized() {
    let cell: LateInit<i32> = LateInit::new();
    assert_eq!(cell.debug_string(), "LateInit(\"<UNINIT>\")");
}

#[test]
fn checked_debug_shows_value_when_present() {
    let cell = LateInit::with(42i32);
    assert_eq!(cell.debug_string(), "LateInit(42)");
}

#[test]
fn checked_i32_scenario() {
    let mut cell: LateInit<i32> = LateInit::new();
    assert_eq!(cell.late_try_get_ref(), None);
    cell.late_init_mut(42);
    assert_eq!(cell.late_try_get_ref(), Some(&42));
    assert_eq!(*cell.late_get_ref(), 42);
}

#[test]
fn unchecked_prefilled_yields_value_from_every_accessor() {
    let mut cell = LateInitUnchecked::with(11u32);
    assert_eq!(*cell.late_get_ref(), 11);
    assert_eq!(*cell.late_get_mut(), 11);
}

#[test]
fn unchecked_initialize_then_read() {
    let mut cell: LateInitUnchecked<String> = LateInitUnchecked::new();
    cell.late_init_mut(String::from("written"));
    assert_eq!(cell.late_get_ref(), "written");
}

#[test]
fn unchecked_no_premature_teardown_of_fresh_value() {
    let counted = Rc::new(17i32);
    let mut cell: LateInitUnchecked<Rc<i32>> = LateInitUnchecked::new();
    cell.late_init_mut(Rc::clone(&counted));
    // the freshly written clone is alive inside the cell, not torn down
    assert_eq!(Rc::strong_count(&counted), 2);
    assert_eq!(**cell.late_get_ref(), 17);
}

#[test]
fn unchecked_debug_shows_value_when_written() {
    let cell = LateInitUnchecked::with(7i32);
    assert_eq!(cell.debug_string(), "LateInitUnchecked(7)");
}

#[test]
fn unchecked_mut_and_shared_accessors_alias() {
    let mut cell = LateInitUnchecked::with(String::from("a"));
    cell.late_get_mut().push('b');
    assert_eq!(cell.late_get_ref(), "ab");
}

#[test]
fn unchecked_string_overwrite_scenario() {
    let mut cell = LateInitUnchecked::with(String::from("boot"));
    assert_eq!(cell.late_get_ref(), "boot");
    cell.late_init_mut(String::from("ready"));
    assert_eq!(cell.late_get_ref(), "ready");
}

#[test]
fn unchecked_overwrite_leaks_instead_of_tearing_down() {
    let first = Rc::new(String::from("boot"));
    let second = Rc::new(String::from("ready"));
    let mut cell = LateInitUnchecked::with(Rc::clone(&first));
    cell.late_init_mut(Rc::clone(&second));
    // the overwritten clone of `first` leaks: had it been torn down, the
    // count would have fallen back to one
    assert_eq!(Rc::strong_count(&first), 2);
    assert_eq!(Rc::strong_count(&second), 2);
    assert_eq!(cell.late_get_ref().as_str(), "ready");
}
