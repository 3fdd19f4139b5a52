//! API keys held by reference.
use crate::keyed::TextMap;
use vstd::prelude::*;

verus! {

/// API keys by reference, held in memory.
pub struct SecretStore {
    values: TextMap<String>,
}

impl SecretStore {
    /// Well-formedness of the underlying map.
    pub closed spec fn wf(&self) -> bool {
        self.values.wf()
    }

    /// The keys, by reference.
    pub closed spec fn view(&self) -> Map<Seq<char>, String> {
        self.values@
    }

    /// An empty store.
    pub fn new() -> (r: Self)
        ensures
            r.wf(),
            r@ == Map::<Seq<char>, String>::empty(),
    {
        SecretStore { values: TextMap::new() }
    }

    /// Stores `secret` under `reference`.
    pub fn set(&mut self, reference: String, secret: String) -> (r: Result<(), String>)
        requires
            old(self).wf(),
        ensures
            final(self).wf(),
            r is Ok,
            final(self)@ == old(self)@.insert(reference@, secret),
    {
        self.values.insert(reference, secret);
        Ok(())
    }

    /// The key stored under `reference`.
    pub fn get(&self, reference: &str) -> (r: Result<Option<String>, String>)
        requires
            self.wf(),
        ensures
            r == Ok::<Option<String>, String>(
                if self@.contains_key(reference@) {
                    Some(self@[reference@])
                } else {
                    None
                },
            ),
    {
        match self.values.get(reference) {
            Some(value) => Ok(Some(value.clone())),
            None => Ok(None),
        }
    }

    /// Forgets the key stored under `reference`.
    pub fn remove(&mut self, reference: &str) -> (r: Result<(), String>)
        requires
            old(self).wf(),
        ensures
            final(self).wf(),
            r is Ok,
            final(self)@ == old(self)@.remove(reference@),
    {
        let _ = self.values.remove(reference);
        Ok(())
    }
}

impl Default for SecretStore {
    /// An empty store.
    fn default() -> (r: Self)
        ensures
            r.wf(),
            r@ == Map::<Seq<char>, String>::empty(),
    {
        SecretStore::new()
    }
}

} // verus!
