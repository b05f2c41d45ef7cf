//! The class registry: a lookup table from a stable type-identity key to
//! the metadata a class was registered with.
//!
//! A key is any process-stable integer token identifying a type; the caller
//! that owns the table assigns them. The table itself is a plain value here;
//! process-wide sharing and locking belong to the embedding program, which
//! holds one instance behind a lock and keeps each critical section to a
//! single call.

use vstd::prelude::*;

use std::collections::HashMap;

verus! {

broadcast use vstd::std_specs::hash::group_hash_axioms;

/// The metadata stored for one registered class: its display name.
#[derive(Debug)]
pub struct ClassInfo {
    pub name: String,
}

impl View for ClassInfo {
    type V = Seq<char>;

    open spec fn view(&self) -> Seq<char> {
        self.name@
    }
}

/// The registry: at most one entry per type-identity key, each holding the
/// name the class was registered under.
pub struct ClassRegistry {
    map: HashMap<u64, ClassInfo>,
}

impl View for ClassRegistry {
    type V = Map<u64, Seq<char>>;

    closed spec fn view(&self) -> Map<u64, Seq<char>> {
        self.map@.map_values(|ci: ClassInfo| ci.name@)
    }
}

impl ClassRegistry {
    /// An empty registry.
    pub fn new() -> (r: Self)
        ensures
            r@ == Map::<u64, Seq<char>>::empty(),
    {
        let r = ClassRegistry { map: HashMap::new() };
        proof {
            assert(r@ =~= Map::<u64, Seq<char>>::empty());
        }
        r
    }

    /// Accesses the stored metadata of the class behind `type_id`, handing
    /// it to `f`; returns what `f` made of it, or `None` when the class is
    /// not registered.
    pub fn with_class_info<F: FnOnce(&ClassInfo) -> R, R>(&self, type_id: u64, f: F) -> (r: Option<
        R,
    >)
        requires
            forall|ci: &ClassInfo| ci@ == self@[type_id] ==> call_requires(f, (ci,)),
        ensures
            r is Some <==> self@.contains_key(type_id),
            match r {
                Some(out) => exists|ci: &ClassInfo|
                    ci@ == self@[type_id] && call_ensures(f, (ci,), out),
                None => !self@.contains_key(type_id),
            },
    {
        match self.map.get(&type_id) {
            Some(ci) => {
                proof {
                    assert(self.map@.contains_key(type_id) && self.map@[type_id] == *ci);
                    assert(self@.contains_key(type_id));
                    assert(ci@ == self@[type_id]);
                }
                let out = f(ci);
                Some(out)
            },
            None => {
                proof {
                    assert(!self.map@.contains_key(type_id));
                    assert(!self@.contains_key(type_id));
                }
                None
            },
        }
    }

    /// The name the class behind `type_id` is registered under, if it is
    /// registered.
    pub fn class_name(&self, type_id: u64) -> (r: Option<String>)
        ensures
            match r {
                Some(s) => self@.contains_key(type_id) && s@ == self@[type_id],
                None => !self@.contains_key(type_id),
            },
    {
        match self.map.get(&type_id) {
            Some(ci) => {
                proof {
                    assert(self.map@.contains_key(type_id) && self.map@[type_id] == *ci);
                }
                Some(ci.name.clone())
            },
            None => {
                proof {
                    assert(!self.map@.contains_key(type_id));
                }
                None
            },
        }
    }

    /// The registered name of the class behind `type_id`, or the caller's
    /// fallback description when it is not registered. The fallback is for
    /// diagnostics only; its format is not part of any contract.
    pub fn class_name_or_default(&self, type_id: u64, fallback: String) -> (r: String)
        ensures
            self@.contains_key(type_id) ==> r@ == self@[type_id],
            !self@.contains_key(type_id) ==> r@ == fallback@,
    {
        match self.class_name(type_id) {
            Some(s) => s,
            None => fallback,
        }
    }

    /// Registers the class behind `type_id` under a custom name, replacing
    /// any earlier entry whole; returns the earlier entry so the caller can
    /// detect re-registration. Registration itself never fails.
    pub fn register_class_as(&mut self, type_id: u64, name: String) -> (prev: Option<ClassInfo>)
        ensures
            final(self)@ == old(self)@.insert(type_id, name@),
            match prev {
                Some(ci) => old(self)@.contains_key(type_id) && ci@ == old(self)@[type_id],
                None => !old(self)@.contains_key(type_id),
            },
    {
        let prev = self.map.insert(type_id, ClassInfo { name });
        proof {
            assert(final(self)@ =~= old(self)@.insert(type_id, final(self).map@[type_id]@));
        }
        prev
    }

    /// Removes every entry; afterwards no key is registered. Meant for
    /// teardown between test runs, not for normal operation.
    pub fn cleanup(&mut self)
        ensures
            final(self)@ == Map::<u64, Seq<char>>::empty(),
            forall|type_id: u64| !final(self)@.contains_key(type_id),
    {
        self.map.clear();
        proof {
            assert(final(self)@ =~= Map::<u64, Seq<char>>::empty());
        }
    }
}

} // verus!
