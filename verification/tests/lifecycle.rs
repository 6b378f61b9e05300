use wren::Configuration;
use wren::Type;
use wren::VM;
use wren::WrenVM;

#[test]
fn owned_vm_tears_its_runtime_down() {
    let vm = VM::new(Configuration::new());
    assert!(vm.teardown());
}

#[test]
fn borrowed_vm_never_tears_down() {
    let raw = WrenVM::new(Configuration::new());
    let vm = VM::from_ptr(raw);
    assert!(!vm.teardown());
}

#[test]
fn borrowed_vm_works_the_slots_but_never_frees() {
    let raw = WrenVM::new(Configuration::new());
    let mut inner = VM::from_ptr(raw);
    inner.set_slot_bool(0, true);
    assert_eq!(inner.get_slot_bool(0), Some(true));
    assert!(!inner.teardown());
}

#[test]
fn collection_is_invisible_to_the_host() {
    let mut vm = VM::new(Configuration::new());
    vm.set_slot_string(0, "kept");
    let h = vm.get_slot_handle(0).unwrap();
    vm.collect_garbage();
    assert_eq!(vm.get_slot_string(0), Some(String::from("kept")));
    vm.set_slot_null(0);
    vm.collect_garbage();
    vm.set_slot_handle(0, h);
    assert_eq!(vm.get_slot_string(0), Some(String::from("kept")));
    vm.release_handle(h);
}

#[test]
fn user_data_threads_through() {
    let mut cfg = Configuration::new();
    cfg.set_user_data(41);
    let mut vm = VM::new(cfg);
    assert_eq!(vm.get_user_data(), 41);
    vm.set_user_data(42);
    assert_eq!(vm.get_user_data(), 42);
}

#[test]
fn configuration_records_its_settings() {
    let mut cfg = Configuration::new();
    cfg.set_reallocate_fn(1);
    cfg.set_load_module_fn(2);
    cfg.set_bind_foreign_method_fn(3);
    cfg.set_bind_foreign_class_fn(4);
    cfg.set_write_fn(5);
    cfg.set_error_fn(6);
    cfg.set_initial_heap_size(1 << 20);
    cfg.set_min_heap_size(1 << 16);
    cfg.set_heap_growth_percent(50);
    let vm = VM::new(cfg);
    assert!(vm.teardown());
}

#[test]
fn fresh_vm_has_no_slots() {
    let vm = VM::new(Configuration::new());
    assert_eq!(vm.get_slot_count(), 0);
    assert_eq!(vm.get_slot_type(0), Type::Null);
}

#[test]
fn abort_stages_the_error_value() {
    let mut vm = VM::new(Configuration::new());
    vm.set_slot_string(0, "fiber failed");
    vm.abort_fiber(0);
    // The staged slots are untouched by the abort request.
    assert_eq!(vm.get_slot_string(0), Some(String::from("fiber failed")));
}
