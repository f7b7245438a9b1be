//! The message surface of the store worker pool: each request is a value
//! handed to a worker, which applies it to the store and answers. Store
//! errors are reported as strings; the in-memory store itself cannot fail.

use vstd::prelude::*;
use crate::store::{Store, VnData, has_vn, hooks_of, spec_put_vn, spec_put_hook,
    spec_delete_vn, spec_delete_hook};
use crate::models::{Vn, HookView, VnModel, hook_models, vn_models};
use crate::text::contains_ci;

verus! {

/// Retrieves all information about a VN.
pub struct GetVnData(pub u64);

/// Retrieves a VN row.
pub struct GetVn(pub u64);

/// Retrieves the hooks of a VN.
pub struct GetHooks(pub Vn);

/// Adds a VN row if its id is absent.
pub struct PutVn {
    pub id: u64,
    pub title: String,
}

/// Adds or updates the hook of one version of a VN.
pub struct PutHook {
    pub vn: Vn,
    pub version: String,
    pub code: String,
}

/// Searches VN rows by title substring.
pub struct SearchVn(pub String);

/// Deletes a VN alongside all of its hooks.
pub struct DelVnData(pub u64);

/// Removes the hook of one version of a VN.
pub struct DelHook {
    pub vn: Vn,
    pub version: String,
}

impl GetVnData {
    /// One worker's turn: the combined read.
    pub fn apply(self, store: &Store) -> (r: Result<Option<VnData>, String>)
        ensures
            match r {
                Ok(Some(d)) => d.data@.id == self.0 && store@.vns.contains(d.data@)
                    && hook_models(d.hooks@) == hooks_of(store@, self.0),
                Ok(None) => !has_vn(store@, self.0),
                Err(_) => false,
            },
    {
        Ok(store.get_vn_data(self.0))
    }
}

impl GetVn {
    /// One worker's turn: the row read.
    pub fn apply(self, store: &Store) -> (r: Result<Option<Vn>, String>)
        ensures
            match r {
                Ok(Some(v)) => v@.id == self.0 && store@.vns.contains(v@),
                Ok(None) => !has_vn(store@, self.0),
                Err(_) => false,
            },
    {
        Ok(store.get_vn(self.0))
    }
}

impl GetHooks {
    /// One worker's turn: the hooks of the row, packed with it.
    pub fn apply(self, store: &Store) -> (r: Result<VnData, String>)
        ensures
            match r {
                Ok(d) => d.data@ == self.0@
                    && hook_models(d.hooks@) == hooks_of(store@, self.0@.id),
                Err(_) => false,
            },
    {
        let hooks = store.get_hooks(&self.0);
        Ok(VnData { data: self.0, hooks })
    }
}

impl PutVn {
    /// One worker's turn: insert-if-absent.
    pub fn apply(self, store: &mut Store) -> (r: Result<Vn, String>)
        requires
            old(store).wf(),
        ensures
            final(store).wf(),
            final(store)@ == spec_put_vn(old(store)@, self.id, self.title@),
            match r {
                Ok(v) => v@.id == self.id && final(store)@.vns.contains(v@),
                Err(_) => false,
            },
    {
        let row = store.put_vn(self.id, self.title);
        proof {
            if has_vn(old(store)@, self.id) {
                assert(final(store)@.vns.contains(row@));
            } else {
                assert(final(store)@.vns[old(store)@.vns.len() as int] == row@);
            }
        }
        Ok(row)
    }
}

impl PutHook {
    /// One worker's turn: insert-or-update on the key `(vn.id, version)`.
    pub fn apply(self, store: &mut Store) -> (r: Result<HookView, String>)
        requires
            old(store).wf(),
            has_vn(old(store)@, self.vn.id),
            old(store)@.next_hook_id < u64::MAX,
        ensures
            final(store).wf(),
            final(store)@ == spec_put_hook(old(store)@, self.vn.id, self.version@,
                self.code@),
            match r {
                Ok(h) => h.vn_id == self.vn.id && h.version@ == self.version@
                    && h.code@ == self.code@,
                Err(_) => false,
            },
    {
        Ok(store.put_hook(&self.vn, self.version, self.code))
    }
}

impl SearchVn {
    /// One worker's turn: the case-insensitive substring search.
    pub fn apply(self, store: &Store) -> (r: Result<Vec<Vn>, String>)
        ensures
            match r {
                Ok(vns) => vn_models(vns@) == store@.vns.filter(
                    |v: VnModel| contains_ci(v.title, self.0@)),
                Err(_) => false,
            },
    {
        Ok(store.search_vn(self.0.as_str()))
    }
}

impl DelVnData {
    /// One worker's turn: the cascading delete.
    pub fn apply(self, store: &mut Store) -> (r: Result<usize, String>)
        requires
            old(store).wf(),
        ensures
            final(store).wf(),
            final(store)@ == spec_delete_vn(old(store)@, self.0),
            match r {
                Ok(n) => n == old(store)@.vns.len() - final(store)@.vns.len()
                    && ((n == 0) <==> !has_vn(old(store)@, self.0)),
                Err(_) => false,
            },
    {
        Ok(store.delete_vn(self.0))
    }
}

impl DelHook {
    /// One worker's turn: removing the hook of one version.
    pub fn apply(self, store: &mut Store) -> (r: Result<usize, String>)
        requires
            old(store).wf(),
        ensures
            final(store).wf(),
            final(store)@ == spec_delete_hook(old(store)@, self.vn.id, self.version@),
            match r {
                Ok(n) => n == old(store)@.hooks.len() - final(store)@.hooks.len(),
                Err(_) => false,
            },
    {
        Ok(store.delete_hook(&self.vn, &self.version))
    }
}

} // verus!
