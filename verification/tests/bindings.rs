use wren::registry::ClassRegistry;
use wren::registry::ForeignClassMethods;
use wren::registry::MethodRegistry;
use wren::registry::compose_class_key;
use wren::registry::compose_method_key;

#[test]
fn method_key_composition() {
    let key = compose_method_key("main", "Math", true, "sin(_)");
    assert_eq!(key, Vec::from("mainMathsin(_)s".as_bytes()));
    let key = compose_method_key("main", "Math", false, "sin(_)");
    assert_eq!(key, Vec::from("mainMathsin(_)".as_bytes()));
}

#[test]
fn class_key_composition() {
    assert_eq!(compose_class_key("main", "Vector"), Vec::from("mainVector".as_bytes()));
}

#[test]
fn method_lookup_is_exact() {
    let mut reg = MethodRegistry::new();
    reg.register("main", "Math", true, "sin(_)", 7);
    reg.seal();
    assert_eq!(reg.bind_method("main", "Math", true, "sin(_)"), Some(7));
    // Any other module, class, signature or static marker misses the key.
    assert_eq!(reg.bind_method("main", "Math", false, "sin(_)"), None);
    assert_eq!(reg.bind_method("main", "Math", true, "cos(_)"), None);
    assert_eq!(reg.bind_method("other", "Math", true, "sin(_)"), None);
    // The registries match on the composite key alone, so a combination
    // that concatenates to the same bytes resolves to the same entry.
    assert_eq!(reg.bind_method("main", "Maths", true, "in(_)"), Some(7));
    assert_eq!(reg.bind_method("main", "Math", true, "sin(_,_)"), None);
}

#[test]
fn first_registration_wins() {
    let mut reg = MethodRegistry::new();
    reg.register("main", "A", false, "f()", 1);
    reg.register("main", "B", false, "g()", 2);
    reg.register("main", "A", false, "f()", 3);
    reg.seal();
    assert_eq!(reg.bind_method("main", "A", false, "f()"), Some(1));
    assert_eq!(reg.bind_method("main", "B", false, "g()"), Some(2));
}

#[test]
fn class_lookup_returns_the_registered_pair() {
    let mut fcm = ForeignClassMethods::new();
    assert_eq!(fcm.get(), (None, None));
    fcm.set_allocate_fn(11);
    fcm.set_finalize_fn(12);
    assert_eq!(fcm.get(), (Some(11), Some(12)));

    let mut reg = ClassRegistry::new();
    reg.register("main", "Vector", fcm);
    reg.seal();
    let found = reg.bind_class("main", "Vector").expect("registered class must resolve");
    assert_eq!(found.get(), (Some(11), Some(12)));
    // An unresolved class binding yields nothing; instantiating such a class
    // would be unsafe, so the binding callback must treat this as fatal.
    assert!(reg.bind_class("main", "Matrix").is_none());
    assert!(reg.bind_class("lib", "Vector").is_none());
}
