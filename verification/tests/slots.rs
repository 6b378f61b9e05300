use wren::Configuration;
use wren::Type;
use wren::VM;

#[test]
fn bool_round_trip() {
    let mut vm = VM::new(Configuration::new());
    vm.set_slot_bool(0, true);
    assert_eq!(vm.get_slot_bool(0), Some(true));
    vm.set_slot_bool(0, false);
    assert_eq!(vm.get_slot_bool(0), Some(false));
    assert_eq!(vm.get_slot_type(0), Type::Bool);
}

#[test]
fn double_round_trip() {
    let mut vm = VM::new(Configuration::new());
    vm.set_slot_double(3, (6.25f64).to_bits());
    assert_eq!(vm.get_slot_double(3), Some((6.25f64).to_bits()));
    assert_eq!(vm.get_slot_type(3), Type::Num);
    // Growing to slot 3 leaves the skipped slots null.
    assert_eq!(vm.get_slot_count(), 4);
    assert_eq!(vm.get_slot_type(1), Type::Null);
}

#[test]
fn bytes_round_trip() {
    let mut vm = VM::new(Configuration::new());
    vm.set_slot_bytes(0, &[0u8, 159, 146, 150]);
    assert_eq!(vm.get_slot_bytes(0), Some(vec![0u8, 159, 146, 150]));
    assert_eq!(vm.get_slot_type(0), Type::String);
}

#[test]
fn string_round_trip() {
    let mut vm = VM::new(Configuration::new());
    vm.set_slot_string(0, "héllo");
    assert_eq!(vm.get_slot_string(0), Some(String::from("héllo")));
    // The same slot reads back as its UTF-8 bytes.
    assert_eq!(vm.get_slot_bytes(0), Some(Vec::from("héllo".as_bytes())));
}

#[test]
fn malformed_text_reads_as_absent() {
    let mut vm = VM::new(Configuration::new());
    vm.set_slot_bytes(0, &[0xff, 0xfe]);
    assert_eq!(vm.get_slot_string(0), None);
    assert_eq!(vm.get_slot_bytes(0), Some(vec![0xffu8, 0xfe]));
}

#[test]
fn tag_mismatch_reads_as_absent() {
    let mut vm = VM::new(Configuration::new());
    vm.set_slot_bool(0, true);
    assert_eq!(vm.get_slot_double(0), None);
    assert_eq!(vm.get_slot_bytes(0), None);
    assert_eq!(vm.get_slot_string(0), None);
    assert_eq!(vm.get_slot_foreign(0), None);
    vm.set_slot_double(1, (1.5f64).to_bits());
    assert_eq!(vm.get_slot_bool(1), None);
    vm.set_slot_null(2);
    assert_eq!(vm.get_slot_bool(2), None);
    assert_eq!(vm.get_slot_double(2), None);
}

#[test]
fn unpopulated_slot_reads_as_absent() {
    let mut vm = VM::new(Configuration::new());
    assert_eq!(vm.get_slot_count(), 0);
    assert_eq!(vm.get_slot_bool(0), None);
    assert_eq!(vm.get_slot_double(7), None);
    assert_eq!(vm.get_slot_type(7), Type::Null);
    assert_eq!(vm.get_slot_bool(-1), None);
}

#[test]
fn writes_validate_their_slot() {
    let mut vm = VM::new(Configuration::new());
    vm.set_slot_bool(-3, true);
    assert_eq!(vm.get_slot_count(), 0);
    vm.set_slot_bool(2, true);
    assert_eq!(vm.get_slot_count(), 3);
    assert_eq!(vm.get_slot_bool(2), Some(true));
}

#[test]
fn foreign_objects_get_fresh_references() {
    let mut vm = VM::new(Configuration::new());
    vm.set_slot_null(0);
    let first = vm.set_slot_new_foreign(1, 0, 16);
    assert_eq!(first, Some(0));
    assert_eq!(vm.get_slot_type(1), Type::Foreign);
    assert_eq!(vm.get_slot_foreign(1), Some(0));
    let second = vm.set_slot_new_foreign(2, 0, 8);
    assert_eq!(second, Some(1));
    // A class slot beyond the register file is refused.
    assert_eq!(vm.set_slot_new_foreign(3, 9, 8), None);
}

#[test]
fn handles_preserve_their_value() {
    let mut vm = VM::new(Configuration::new());
    vm.set_slot_bool(0, true);
    let h = vm.get_slot_handle(0).unwrap();
    vm.set_slot_null(0);
    assert_eq!(vm.get_slot_type(0), Type::Null);
    vm.set_slot_handle(0, h);
    assert_eq!(vm.get_slot_bool(0), Some(true));
    vm.release_handle(h);
}

#[test]
fn handle_from_unpopulated_slot_is_absent() {
    let mut vm = VM::new(Configuration::new());
    assert!(vm.get_slot_handle(0).is_none());
}

#[test]
fn call_handles_hold_an_opaque_method() {
    let mut vm = VM::new(Configuration::new());
    let h = vm.make_call_handle("add(_,_)");
    vm.set_slot_handle(0, h);
    assert_eq!(vm.get_slot_type(0), Type::Unknown);
    assert_eq!(vm.get_slot_bool(0), None);
    vm.release_handle(h);
}
