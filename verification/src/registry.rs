//! The foreign binding registries.
//!
//! A script's `foreign` methods and classes are resolved during compilation
//! through two lookup callbacks.  The registries behind them map a composite
//! key — module, class and signature run together, with a trailing `s`
//! marking a static method — to the host implementation, named by an opaque
//! token.  Both registries are populated before the first interpretation and
//! sealed; they are never mutated afterwards, so re-entrant callbacks may
//! read them freely.

use vstd::prelude::*;
use vstd::utf8::encode_utf8;

verus! {

/// The allocate/finalize pair bound to one foreign class.  `allocate` runs
/// when a script constructs the class and must initialise the native storage
/// of slot zero; `finalize` runs at collection time and must not re-enter
/// the runtime.
#[derive(Copy, Clone, Debug)]
pub struct ForeignClassMethods {
    pub allocate: Option<usize>,
    pub finalize: Option<usize>,
}

impl ForeignClassMethods {
    /// A pair with neither function bound yet.
    pub fn new() -> (fcm: ForeignClassMethods)
        ensures
            fcm == (ForeignClassMethods { allocate: None::<usize>, finalize: None::<usize> }),
    {
        ForeignClassMethods { allocate: None, finalize: None }
    }

    pub fn set_allocate_fn(&mut self, f: usize)
        ensures
            *final(self) == (ForeignClassMethods { allocate: Some(f), ..*old(self) }),
    {
        self.allocate = Some(f);
    }

    pub fn set_finalize_fn(&mut self, f: usize)
        ensures
            *final(self) == (ForeignClassMethods { finalize: Some(f), ..*old(self) }),
    {
        self.finalize = Some(f);
    }

    /// The pair as handed across the boundary.
    pub fn get(&self) -> (pair: (Option<usize>, Option<usize>))
        ensures
            pair == (self.allocate, self.finalize),
    {
        (self.allocate, self.finalize)
    }
}

/// The composite key of a foreign method: module, class and signature run
/// together, with a trailing `s` for a static method.
pub open spec fn method_key_spec(
    module: Seq<char>,
    class: Seq<char>,
    is_static: bool,
    signature: Seq<char>,
) -> Seq<u8> {
    encode_utf8(module) + encode_utf8(class) + encode_utf8(signature) + (if is_static {
        seq![115u8]
    } else {
        Seq::<u8>::empty()
    })
}

/// The composite key of a foreign class: module and class run together.
pub open spec fn class_key_spec(module: Seq<char>, class: Seq<char>) -> Seq<u8> {
    encode_utf8(module) + encode_utf8(class)
}

/// What a scan of a registry finds under `key`: the first entry whose key
/// matches exactly, byte for byte.
pub open spec fn lookup_spec<T>(entries: Seq<(Seq<u8>, T)>, key: Seq<u8>) -> Option<T>
    decreases entries.len(),
{
    if entries.len() == 0 {
        None
    } else if entries[0].0 == key {
        Some(entries[0].1)
    } else {
        lookup_spec(entries.subrange(1, entries.len() as int), key)
    }
}

/// A lookup finds something under `key` exactly when an entry was registered
/// under that precise byte sequence; any other key misses it.
pub proof fn lemma_lookup_exact<T>(entries: Seq<(Seq<u8>, T)>, key: Seq<u8>)
    ensures
        (lookup_spec(entries, key) is Some) <==> (exists|i: int|
            0 <= i < entries.len() && #[trigger] entries[i].0 == key),
    decreases entries.len(),
{
    if entries.len() > 0 {
        let rest = entries.subrange(1, entries.len() as int);
        lemma_lookup_exact(rest, key);
        if entries[0].0 == key {
        } else {
            if lookup_spec(entries, key) is Some {
                let j = choose|j: int| 0 <= j < rest.len() && #[trigger] rest[j].0 == key;
                assert(entries[j + 1].0 == key);
            } else {
                if exists|i: int| 0 <= i < entries.len() && #[trigger] entries[i].0 == key {
                    let i = choose|i: int|
                        0 <= i < entries.len() && #[trigger] entries[i].0 == key;
                    assert(rest[i - 1].0 == key);
                }
            }
        }
    }
}

/// Registering a key makes it retrievable, and a key nothing was registered
/// under retrieves exactly what it did before.
pub proof fn lemma_register_then_lookup<T>(entries: Seq<(Seq<u8>, T)>, key: Seq<u8>, m: T)
    ensures
        lookup_spec(entries.push((key, m)), key) is Some,
        (forall|i: int| 0 <= i < entries.len() ==> #[trigger] entries[i].0 != key)
            ==> lookup_spec(entries.push((key, m)), key) == Some(m),
        forall|other: Seq<u8>|
            other != key ==> #[trigger] lookup_spec(entries.push((key, m)), other) == lookup_spec(
                entries,
                other,
            ),
    decreases entries.len(),
{
    let pushed = entries.push((key, m));
    if entries.len() == 0 {
        assert(pushed.len() == 1);
        assert(pushed.subrange(1, 1) =~= Seq::<(Seq<u8>, T)>::empty());
        assert forall|other: Seq<u8>| other != key implies #[trigger] lookup_spec(pushed, other)
            == lookup_spec(entries, other) by {
            assert(pushed[0].0 == key);
            assert(lookup_spec(pushed.subrange(1, 1), other) is None);
        }
    } else {
        let rest = entries.subrange(1, entries.len() as int);
        lemma_register_then_lookup(rest, key, m);
        assert(pushed.subrange(1, pushed.len() as int) =~= rest.push((key, m)));
        if forall|i: int| 0 <= i < entries.len() ==> #[trigger] entries[i].0 != key {
            assert forall|i: int| 0 <= i < rest.len() implies #[trigger] rest[i].0 != key by {
                assert(entries[i + 1].0 != key);
            }
        }
        assert forall|other: Seq<u8>| other != key implies #[trigger] lookup_spec(pushed, other)
            == lookup_spec(entries, other) by {
            assert(lookup_spec(rest.push((key, m)), other) == lookup_spec(rest, other));
        }
    }
}

/// Byte-for-byte equality of a stored key and a probe.
fn bytes_eq(a: &Vec<u8>, b: &Vec<u8>) -> (eq: bool)
    ensures
        eq == (a@ == b@),
{
    if a.len() != b.len() {
        return false;
    }
    let mut i: usize = 0;
    while i < a.len()
        invariant
            i <= a@.len(),
            a@.len() == b@.len(),
            forall|j: int| 0 <= j < i as int ==> a@[j] == b@[j],
        decreases a@.len() - i,
    {
        if a[i] != b[i] {
            return false;
        }
        i = i + 1;
    }
    proof {
        assert(a@ =~= b@);
    }
    true
}

/// Scans entries front to back for the first exact key match.
fn scan<T: Copy>(entries: &Vec<(Vec<u8>, T)>, key: &Vec<u8>) -> (r: Option<T>)
    ensures
        r == lookup_spec(entries@.map_values(|e: (Vec<u8>, T)| (e.0@, e.1)), key@),
{
    let ghost model = entries@.map_values(|e: (Vec<u8>, T)| (e.0@, e.1));
    proof {
        assert(model.len() == entries@.len());
        assert(model.subrange(0, model.len() as int) =~= model);
    }
    let mut i: usize = 0;
    while i < entries.len()
        invariant
            i <= entries@.len(),
            model == entries@.map_values(|e: (Vec<u8>, T)| (e.0@, e.1)),
            model.len() == entries@.len(),
            lookup_spec(model, key@) == lookup_spec(
                model.subrange(i as int, model.len() as int),
                key@,
            ),
        decreases entries@.len() - i,
    {
        proof {
            let tail = model.subrange(i as int, model.len() as int);
            assert(tail.len() > 0);
            assert(tail[0] == model[i as int]);
            assert(model[i as int] == (entries@[i as int].0@, entries@[i as int].1));
            assert(tail.subrange(1, tail.len() as int) =~= model.subrange(
                i as int + 1,
                model.len() as int,
            ));
        }
        let hit = bytes_eq(&entries[i].0, key);
        if hit {
            return Some(entries[i].1);
        }
        i = i + 1;
    }
    proof {
        assert(model.subrange(i as int, model.len() as int).len() == 0);
    }
    None
}

/// The registry resolving foreign method declarations.
pub struct MethodRegistry {
    entries: Vec<(Vec<u8>, usize)>,
    sealed: bool,
}

impl View for MethodRegistry {
    type V = Seq<(Seq<u8>, usize)>;

    closed spec fn view(&self) -> Seq<(Seq<u8>, usize)> {
        self.entries@.map_values(|e: (Vec<u8>, usize)| (e.0@, e.1))
    }
}

impl MethodRegistry {
    /// Whether the population phase has ended.
    pub closed spec fn sealed(&self) -> bool {
        self.sealed
    }

    /// An empty, still open registry.
    pub fn new() -> (reg: MethodRegistry)
        ensures
            reg@ == Seq::<(Seq<u8>, usize)>::empty(),
            !reg.sealed(),
    {
        let reg = MethodRegistry { entries: Vec::new(), sealed: false };
        proof {
            assert(reg@ =~= Seq::<(Seq<u8>, usize)>::empty());
        }
        reg
    }

    /// Registers a method implementation under its composite key.  Only an
    /// unsealed registry may be populated: the tables are read-only once the
    /// runtime starts interpreting.
    pub fn register(
        &mut self,
        module: &str,
        class: &str,
        is_static: bool,
        signature: &str,
        method: usize,
    )
        requires
            !old(self).sealed(),
        ensures
            final(self)@ == old(self)@.push(
                (method_key_spec(module@, class@, is_static, signature@), method),
            ),
            !final(self).sealed(),
    {
        let key = compose_method_key(module, class, is_static, signature);
        self.entries.push((key, method));
        proof {
            assert(final(self)@ =~= old(self)@.push(
                (method_key_spec(module@, class@, is_static, signature@), method),
            ));
        }
    }

    /// Ends the population phase.
    pub fn seal(&mut self)
        ensures
            final(self)@ == old(self)@,
            final(self).sealed(),
    {
        self.sealed = true;
    }

    /// Resolves one foreign method declaration, as the runtime asks it
    /// during compilation.  An unresolved key yields nothing: the method
    /// stays unimplemented, and the runtime raises an error only if a script
    /// actually invokes it.
    pub fn bind_method(&self, module: &str, class: &str, is_static: bool, signature: &str) -> (r:
        Option<usize>)
        ensures
            r == lookup_spec(self@, method_key_spec(module@, class@, is_static, signature@)),
    {
        let key = compose_method_key(module, class, is_static, signature);
        scan(&self.entries, &key)
    }
}

/// The registry resolving foreign class declarations.
pub struct ClassRegistry {
    entries: Vec<(Vec<u8>, ForeignClassMethods)>,
    sealed: bool,
}

impl View for ClassRegistry {
    type V = Seq<(Seq<u8>, ForeignClassMethods)>;

    closed spec fn view(&self) -> Seq<(Seq<u8>, ForeignClassMethods)> {
        self.entries@.map_values(|e: (Vec<u8>, ForeignClassMethods)| (e.0@, e.1))
    }
}

impl ClassRegistry {
    /// Whether the population phase has ended.
    pub closed spec fn sealed(&self) -> bool {
        self.sealed
    }

    /// An empty, still open registry.
    pub fn new() -> (reg: ClassRegistry)
        ensures
            reg@ == Seq::<(Seq<u8>, ForeignClassMethods)>::empty(),
            !reg.sealed(),
    {
        let reg = ClassRegistry { entries: Vec::new(), sealed: false };
        proof {
            assert(reg@ =~= Seq::<(Seq<u8>, ForeignClassMethods)>::empty());
        }
        reg
    }

    /// Registers the allocate/finalize pair of one foreign class.
    pub fn register(&mut self, module: &str, class: &str, methods: ForeignClassMethods)
        requires
            !old(self).sealed(),
        ensures
            final(self)@ == old(self)@.push((class_key_spec(module@, class@), methods)),
            !final(self).sealed(),
    {
        let key = compose_class_key(module, class);
        self.entries.push((key, methods));
        proof {
            assert(final(self)@ =~= old(self)@.push((class_key_spec(module@, class@), methods)));
        }
    }

    /// Ends the population phase.
    pub fn seal(&mut self)
        ensures
            final(self)@ == old(self)@,
            final(self).sealed(),
    {
        self.sealed = true;
    }

    /// Resolves one foreign class declaration.  Unlike a method, an
    /// unresolved class is fatal for the caller: a foreign class with no
    /// allocator cannot be instantiated safely, so the binding callback must
    /// abort on a `None` rather than hand the runtime a vacant pair.
    pub fn bind_class(&self, module: &str, class: &str) -> (r: Option<ForeignClassMethods>)
        ensures
            r == lookup_spec(self@, class_key_spec(module@, class@)),
    {
        let key = compose_class_key(module, class);
        scan(&self.entries, &key)
    }
}

/// Builds the composite key of a foreign method.
pub fn compose_method_key(module: &str, class: &str, is_static: bool, signature: &str) -> (key:
    Vec<u8>)
    ensures
        key@ == method_key_spec(module@, class@, is_static, signature@),
{
    let mut key = vstd::slice::slice_to_vec(module.as_bytes());
    let mut rest = vstd::slice::slice_to_vec(class.as_bytes());
    key.append(&mut rest);
    let mut sig = vstd::slice::slice_to_vec(signature.as_bytes());
    key.append(&mut sig);
    if is_static {
        key.push(115);
    }
    proof {
        assert(key@ =~= method_key_spec(module@, class@, is_static, signature@));
    }
    key
}

/// Builds the composite key of a foreign class.
pub fn compose_class_key(module: &str, class: &str) -> (key: Vec<u8>)
    ensures
        key@ == class_key_spec(module@, class@),
{
    let mut key = vstd::slice::slice_to_vec(module.as_bytes());
    let mut rest = vstd::slice::slice_to_vec(class.as_bytes());
    key.append(&mut rest);
    proof {
        assert(key@ =~= class_key_spec(module@, class@));
    }
    key
}

} // verus!
