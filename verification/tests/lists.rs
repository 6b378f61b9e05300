use wren::Configuration;
use wren::Type;
use wren::VM;

#[test]
fn list() {
    let mut vm = VM::new(Configuration::new());
    vm.set_slot_new_list(0);
    for i in 1..4i32 {
        vm.set_slot_double(1, (i as f64).to_bits());
        vm.insert_in_list(0, -1, 1);
    }
    assert_eq!(vm.get_list_count(0), 3);

    vm.set_slot_double(1, (4.0f64).to_bits());
    vm.insert_in_list(0, 3, 1);
    assert_eq!(vm.get_list_count(0), 4);

    vm.get_list_element(0, 2, 1);
    assert_eq!(f64::from_bits(vm.get_slot_double(1).unwrap()), 3.0);
}

#[test]
fn append_builds_in_order() {
    let mut vm = VM::new(Configuration::new());
    vm.set_slot_new_list(0);
    for i in 0..5i32 {
        vm.set_slot_double(1, (i as f64).to_bits());
        assert!(vm.insert_in_list(0, vm.get_list_count(0), 1));
    }
    assert_eq!(vm.get_list_count(0), 5);
    for i in 0..5i32 {
        assert!(vm.get_list_element(0, i, 2));
        assert_eq!(f64::from_bits(vm.get_slot_double(2).unwrap()), i as f64);
    }
}

#[test]
fn insert_past_count_fails() {
    let mut vm = VM::new(Configuration::new());
    vm.set_slot_new_list(0);
    vm.set_slot_double(1, (1.0f64).to_bits());
    assert!(!vm.insert_in_list(0, 1, 1));
    assert_eq!(vm.get_list_count(0), 0);
}

#[test]
fn insert_into_non_list_fails() {
    let mut vm = VM::new(Configuration::new());
    vm.set_slot_double(0, (0.0f64).to_bits());
    vm.set_slot_double(1, (1.0f64).to_bits());
    assert!(!vm.insert_in_list(0, -1, 1));
    assert_eq!(vm.get_list_count(0), 0);
    assert_eq!(vm.get_slot_type(0), Type::Num);
    assert_eq!(f64::from_bits(vm.get_slot_double(0).unwrap()), 0.0);
}

#[test]
fn insert_from_unpopulated_slot_fails() {
    let mut vm = VM::new(Configuration::new());
    vm.set_slot_new_list(0);
    assert!(!vm.insert_in_list(0, -1, 1));
    assert_eq!(vm.get_list_count(0), 0);
}

#[test]
fn element_from_non_list_reports_nothing() {
    let mut vm = VM::new(Configuration::new());
    vm.set_slot_bool(0, true);
    assert!(!vm.get_list_element(0, 0, 1));
    assert_eq!(vm.get_slot_type(1), Type::Null);
    assert_eq!(vm.get_slot_bool(0), Some(true));
}

#[test]
fn element_out_of_bounds_writes_null() {
    let mut vm = VM::new(Configuration::new());
    vm.set_slot_new_list(0);
    vm.set_slot_double(1, (1.0f64).to_bits());
    assert!(vm.insert_in_list(0, 0, 1));
    vm.set_slot_bool(2, true);
    assert!(!vm.get_list_element(0, 1, 2));
    assert_eq!(vm.get_slot_type(2), Type::Null);
    assert!(!vm.get_list_element(0, -1, 2));
    assert_eq!(vm.get_list_count(0), 1);
}

#[test]
fn negative_insert_counts_from_end() {
    let mut vm = VM::new(Configuration::new());
    vm.set_slot_new_list(0);
    for i in 1..4i32 {
        vm.set_slot_double(1, (i as f64).to_bits());
        assert!(vm.insert_in_list(0, -1, 1));
    }
    // `-2` inserts just before the last element.
    vm.set_slot_double(1, (9.0f64).to_bits());
    assert!(vm.insert_in_list(0, -2, 1));
    assert_eq!(vm.get_list_count(0), 4);
    assert!(vm.get_list_element(0, 2, 1));
    assert_eq!(f64::from_bits(vm.get_slot_double(1).unwrap()), 9.0);
    // An index before the start is refused.
    vm.set_slot_double(1, (8.0f64).to_bits());
    assert!(!vm.insert_in_list(0, -6, 1));
    assert_eq!(vm.get_list_count(0), 4);
}
