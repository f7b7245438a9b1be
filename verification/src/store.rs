//! The local catalogue store: visual-novel rows and hook rows with
//! insert-or-update semantics on the key `(vn_id, version)` and cascading
//! deletion, as the worker pool serialises them.

use vstd::prelude::*;
use crate::models::{Vn, Hook, HookView, VnModel, HookModel, vn_models, hook_models};
use crate::text::{contains_ci, chars_of, contains_chars_ci};

verus! {

/// Mathematical image of the whole store.
pub struct StoreModel {
    pub vns: Seq<VnModel>,
    pub hooks: Seq<HookModel>,
    pub next_hook_id: u64,
}

/// There is a VN row with this id.
pub open spec fn has_vn(m: StoreModel, id: u64) -> bool {
    exists|i: int| 0 <= i < m.vns.len() && (#[trigger] m.vns[i]).id == id
}

/// There is a hook row with this key.
pub open spec fn has_hook(m: StoreModel, vn_id: u64, version: Seq<char>) -> bool {
    exists|i: int| 0 <= i < m.hooks.len()
        && (#[trigger] m.hooks[i]).vn_id == vn_id && m.hooks[i].version == version
}

/// The hook rows of one VN, in insertion order.
pub open spec fn hooks_of(m: StoreModel, vn_id: u64) -> Seq<HookModel> {
    m.hooks.filter(|h: HookModel| h.vn_id == vn_id)
}

/// The well-formedness of the store: unique VN ids, unique hook ids and
/// keys, and every hook referring to an existing VN.
pub open spec fn store_wf(m: StoreModel) -> bool {
    &&& (forall|i: int, j: int| 0 <= i < j < m.vns.len()
            ==> (#[trigger] m.vns[i]).id != (#[trigger] m.vns[j]).id)
    &&& (forall|i: int| 0 <= i < m.hooks.len() ==> (#[trigger] m.hooks[i]).id < m.next_hook_id)
    &&& (forall|i: int, j: int| 0 <= i < j < m.hooks.len()
            ==> (#[trigger] m.hooks[i]).id != (#[trigger] m.hooks[j]).id)
    &&& (forall|i: int, j: int| 0 <= i < j < m.hooks.len()
            ==> !((#[trigger] m.hooks[i]).vn_id == (#[trigger] m.hooks[j]).vn_id
                && m.hooks[i].version == m.hooks[j].version))
    &&& (forall|i: int| 0 <= i < m.hooks.len()
            ==> has_vn(m, (#[trigger] m.hooks[i]).vn_id))
}

/// What `put_vn` does to the store: a row is appended only when the id is
/// absent; an existing row is never touched.
pub open spec fn spec_put_vn(m: StoreModel, id: u64, title: Seq<char>) -> StoreModel {
    if has_vn(m, id) {
        m
    } else {
        StoreModel { vns: m.vns.push(VnModel { id, title }), ..m }
    }
}

/// What `delete_vn` does to the store: the VN row goes, and all of its
/// hooks with it.
pub open spec fn spec_delete_vn(m: StoreModel, id: u64) -> StoreModel {
    StoreModel {
        vns: m.vns.filter(|v: VnModel| v.id != id),
        hooks: m.hooks.filter(|h: HookModel| h.vn_id != id),
        ..m
    }
}

/// What `delete_hook` does to the store: the row with the key goes.
pub open spec fn spec_delete_hook(m: StoreModel, vn_id: u64, version: Seq<char>) -> StoreModel {
    StoreModel {
        hooks: m.hooks.filter(|h: HookModel| !(h.vn_id == vn_id && h.version == version)),
        ..m
    }
}

/// What `put_hook` does to the store: an existing row with the key keeps its
/// place and id and gets the new code; otherwise a fresh row is appended.
pub open spec fn spec_put_hook(
    m: StoreModel,
    vn_id: u64,
    version: Seq<char>,
    code: Seq<char>,
) -> StoreModel {
    if has_hook(m, vn_id, version) {
        StoreModel {
            hooks: Seq::new(m.hooks.len(), |i: int|
                if m.hooks[i].vn_id == vn_id && m.hooks[i].version == version {
                    HookModel { code, ..m.hooks[i] }
                } else {
                    m.hooks[i]
                }),
            ..m
        }
    } else {
        StoreModel {
            hooks: m.hooks.push(HookModel { id: m.next_hook_id, vn_id, version, code }),
            next_hook_id: (m.next_hook_id + 1) as u64,
            ..m
        }
    }
}

/// A combined read result: a VN together with its hooks.
pub struct VnData {
    pub data: Vn,
    pub hooks: Vec<Hook>,
}

/// The in-memory catalogue store behind the worker pool.
pub struct Store {
    vns: Vec<Vn>,
    hooks: Vec<Hook>,
    next_hook_id: u64,
}

impl View for Store {
    type V = StoreModel;

    closed spec fn view(&self) -> StoreModel {
        StoreModel {
            vns: vn_models(self.vns@),
            hooks: hook_models(self.hooks@),
            next_hook_id: self.next_hook_id,
        }
    }
}

impl Store {
    pub open spec fn wf(&self) -> bool {
        store_wf(self@)
    }

    /// An empty catalogue.
    pub fn new() -> (r: Store)
        ensures
            r.wf(),
            r@.vns =~= Seq::<VnModel>::empty(),
            r@.hooks =~= Seq::<HookModel>::empty(),
            r@.next_hook_id == 0,
    {
        Store { vns: Vec::new(), hooks: Vec::new(), next_hook_id: 0 }
    }

    /// Reads the VN row with this id, if any.
    pub fn get_vn(&self, id: u64) -> (r: Option<Vn>)
        ensures
            match r {
                Some(v) => v@.id == id && self@.vns.contains(v@),
                None => !has_vn(self@, id),
            },
    {
        let mut i: usize = 0;
        while i < self.vns.len()
            invariant
                i <= self.vns@.len(),
                forall|j: int| 0 <= j < i ==> (#[trigger] self@.vns[j]).id != id,
            decreases self.vns@.len() - i,
        {
            if self.vns[i].id == id {
                let v = self.vns[i].duplicate();
                proof {
                    assert(self@.vns[i as int] == v@);
                }
                return Some(v);
            }
            i = i + 1;
        }
        None
    }

    /// Reads the hook rows of this VN, in insertion order.
    pub fn get_hooks(&self, vn: &Vn) -> (r: Vec<Hook>)
        ensures
            hook_models(r@) == hooks_of(self@, vn.id),
    {
        let mut r: Vec<Hook> = Vec::new();
        let mut i: usize = 0;
        proof {
            reveal(Seq::filter);
            assert(hook_models(r@) =~= self@.hooks.subrange(0, 0).filter(
                |h: HookModel| h.vn_id == vn.id));
        }
        while i < self.hooks.len()
            invariant
                i <= self.hooks@.len(),
                hook_models(r@) == self@.hooks.subrange(0, i as int).filter(
                    |h: HookModel| h.vn_id == vn.id@),
            decreases self.hooks@.len() - i,
        {
            proof {
                reveal(Seq::filter);
                assert(self@.hooks.subrange(0, i + 1).drop_last()
                    =~= self@.hooks.subrange(0, i as int));
            }
            if self.hooks[i].vn_id == vn.id {
                r.push(self.hooks[i].duplicate());
                proof {
                    assert(hook_models(r@) =~= self@.hooks.subrange(0, i as int).filter(
                        |h: HookModel| h.vn_id == vn.id@).push(self@.hooks[i as int]));
                }
            }
            i = i + 1;
        }
        proof {
            assert(self@.hooks.subrange(0, self@.hooks.len() as int) =~= self@.hooks);
        }
        r
    }

    /// Reads a VN together with its hooks; `None` when there is no such VN.
    pub fn get_vn_data(&self, id: u64) -> (r: Option<VnData>)
        ensures
            match r {
                Some(d) => d.data@.id == id && self@.vns.contains(d.data@)
                    && hook_models(d.hooks@) == hooks_of(self@, id),
                None => !has_vn(self@, id),
            },
    {
        match self.get_vn(id) {
            Some(vn) => {
                let hooks = self.get_hooks(&vn);
                Some(VnData { data: vn, hooks })
            },
            None => None,
        }
    }

    /// Case-insensitive substring search on titles (ASCII fold), in
    /// insertion order.
    pub fn search_vn(&self, title: &str) -> (r: Vec<Vn>)
        ensures
            vn_models(r@) == self@.vns.filter(|v: VnModel| contains_ci(v.title, title@)),
    {
        let needle = chars_of(title);
        let mut r: Vec<Vn> = Vec::new();
        let mut i: usize = 0;
        proof {
            reveal(Seq::filter);
            assert(vn_models(r@) =~= self@.vns.subrange(0, 0).filter(
                |v: VnModel| contains_ci(v.title, title@)));
        }
        while i < self.vns.len()
            invariant
                i <= self.vns@.len(),
                needle@ == title@,
                vn_models(r@) == self@.vns.subrange(0, i as int).filter(
                    |v: VnModel| contains_ci(v.title, title@)),
            decreases self.vns@.len() - i,
        {
            proof {
                reveal(Seq::filter);
                assert(self@.vns.subrange(0, i + 1).drop_last()
                    =~= self@.vns.subrange(0, i as int));
            }
            let hay = chars_of(self.vns[i].title.as_str());
            if contains_chars_ci(&hay, &needle) {
                r.push(self.vns[i].duplicate());
                proof {
                    assert(vn_models(r@) =~= self@.vns.subrange(0, i as int).filter(
                        |v: VnModel| contains_ci(v.title, title@)).push(self@.vns[i as int]));
                }
            }
            i = i + 1;
        }
        proof {
            assert(self@.vns.subrange(0, self@.vns.len() as int) =~= self@.vns);
        }
        r
    }

    /// Inserts a VN row if the id is absent; an existing row is returned
    /// unchanged and its title is never overwritten.
    pub fn put_vn(&mut self, id: u64, title: String) -> (r: Vn)
        requires
            old(self).wf(),
        ensures
            final(self).wf(),
            final(self)@ == spec_put_vn(old(self)@, id, title@),
            final(self)@.hooks == old(self)@.hooks,
            final(self)@.next_hook_id == old(self)@.next_hook_id,
            r@.id == id,
            has_vn(final(self)@, id),
            has_vn(old(self)@, id) ==> {
                &&& final(self)@ == old(self)@
                &&& old(self)@.vns.contains(r@)
            },
            !has_vn(old(self)@, id) ==> {
                &&& final(self)@.vns == old(self)@.vns.push(VnModel { id, title: title@ })
                &&& r@ == (VnModel { id, title: title@ })
            },
    {
        match self.get_vn(id) {
            Some(vn) => {
                proof {
                    let w = choose|w: int| 0 <= w < self@.vns.len() && self@.vns[w] == vn@;
                    assert((#[trigger] self@.vns[w]).id == id);
                }
                vn
            },
            None => {
                let vn = Vn { id, title };
                let r = vn.duplicate();
                self.vns.push(vn);
                proof {
                    assert(final(self)@.vns =~= old(self)@.vns.push(r@));
                    assert(final(self)@.hooks =~= old(self)@.hooks);
                    assert((#[trigger] final(self)@.vns[old(self)@.vns.len() as int]).id == id);
                    assert forall|i: int| 0 <= i < final(self)@.hooks.len()
                        implies has_vn(final(self)@, (#[trigger] final(self)@.hooks[i]).vn_id) by {
                        let m0 = old(self)@;
                        assert(has_vn(m0, m0.hooks[i].vn_id));
                        let w = choose|j: int| 0 <= j < m0.vns.len()
                            && (#[trigger] m0.vns[j]).id == m0.hooks[i].vn_id;
                        assert(final(self)@.vns[w].id == m0.hooks[i].vn_id);
                    }
                }
                r
            },
        }
    }

    /// Inserts or updates the hook row with key `(vn.id, version)`: an
    /// existing row keeps its place and id and gets the new code; otherwise
    /// a fresh row is appended. Returns the resulting row.
    pub fn put_hook(&mut self, vn: &Vn, version: String, code: String) -> (r: HookView)
        requires
            old(self).wf(),
            has_vn(old(self)@, vn.id),
            old(self)@.next_hook_id < u64::MAX,
        ensures
            final(self).wf(),
            final(self)@ == spec_put_hook(old(self)@, vn.id, version@, code@),
            final(self)@.vns == old(self)@.vns,
            r.vn_id == vn.id && r.version@ == version@ && r.code@ == code@,
            has_hook(old(self)@, vn.id, version@) ==> {
                &&& final(self)@.next_hook_id == old(self)@.next_hook_id
                &&& final(self)@.hooks.len() == old(self)@.hooks.len()
                &&& (forall|i: int| 0 <= i < old(self)@.hooks.len()
                    ==> #[trigger] final(self)@.hooks[i] == (
                        if old(self)@.hooks[i].vn_id == vn.id
                            && old(self)@.hooks[i].version == version@ {
                            HookModel { code: code@, ..old(self)@.hooks[i] }
                        } else {
                            old(self)@.hooks[i]
                        }))
            },
            !has_hook(old(self)@, vn.id, version@) ==> {
                &&& final(self)@.hooks == old(self)@.hooks.push(HookModel {
                    id: old(self)@.next_hook_id,
                    vn_id: vn.id,
                    version: version@,
                    code: code@,
                })
                &&& final(self)@.next_hook_id == old(self)@.next_hook_id + 1
            },
    {
        let n = self.hooks.len();
        let mut i: usize = 0;
        while i < n
            invariant
                old(self).wf(),
                self == old(self),
                n == self.hooks@.len(),
                i <= n,
                forall|j: int| 0 <= j < i
                    ==> !((#[trigger] self@.hooks[j]).vn_id == vn.id
                        && self@.hooks[j].version == version@),
            decreases n - i,
    {
            if self.hooks[i].vn_id == vn.id && self.hooks[i].version == version {
                let old_hook = &self.hooks[i];
                let updated = Hook {
                    id: old_hook.id,
                    vn_id: old_hook.vn_id,
                    version: old_hook.version.clone(),
                    code: code.clone(),
                };
                self.hooks.remove(i);
                self.hooks.insert(i, updated);
                proof {
                    let m0 = old(self)@;
                    let mi = final(self)@;
                    assert(self.hooks@ =~= old(self).hooks@.update(i as int, Hook {
                        id: m0.hooks[i as int].id,
                        vn_id: vn.id,
                        version: old(self).hooks@[i as int].version,
                        code: code,
                    }));
                    assert(mi.hooks =~= m0.hooks.update(i as int, HookModel {
                        code: code@, ..m0.hooks[i as int]
                    }));
                    assert forall|k: int| 0 <= k < m0.hooks.len()
                        implies #[trigger] mi.hooks[k] == (
                            if m0.hooks[k].vn_id == vn.id && m0.hooks[k].version == version@ {
                                HookModel { code: code@, ..m0.hooks[k] }
                            } else {
                                m0.hooks[k]
                            }) by {
                        if k != i {
                            assert(!(m0.hooks[k].vn_id == vn.id && m0.hooks[k].version == version@));
                        }
                    }
                    assert forall|k: int| 0 <= k < mi.hooks.len()
                        implies has_vn(mi, (#[trigger] mi.hooks[k]).vn_id) by {
                        assert(has_vn(m0, m0.hooks[k].vn_id));
                        let w = choose|j: int| 0 <= j < m0.vns.len()
                            && (#[trigger] m0.vns[j]).id == m0.hooks[k].vn_id;
                        assert(mi.vns[w].id == mi.hooks[k].vn_id);
                    }
                    assert((#[trigger] m0.hooks[i as int]).vn_id == vn.id
                        && m0.hooks[i as int].version == version@);
                    assert(has_hook(m0, vn.id, version@));
                    assert(mi.hooks =~= spec_put_hook(m0, vn.id, version@, code@).hooks);
                    assert(mi == spec_put_hook(m0, vn.id, version@, code@));
                }
                return HookView { vn_id: vn.id, version, code };
            }
            i = i + 1;
        }
        let fresh = Hook {
            id: self.next_hook_id,
            vn_id: vn.id,
            version: version.clone(),
            code: code.clone(),
        };
        self.hooks.push(fresh);
        self.next_hook_id = self.next_hook_id + 1;
        proof {
            let m0 = old(self)@;
            let mi = final(self)@;
            assert(mi.hooks =~= m0.hooks.push(HookModel {
                id: m0.next_hook_id,
                vn_id: vn.id,
                version: version@,
                code: code@,
            }));
            assert(mi.vns =~= m0.vns);
            assert forall|k: int| 0 <= k < mi.hooks.len()
                implies has_vn(mi, (#[trigger] mi.hooks[k]).vn_id) by {
                if k < m0.hooks.len() {
                    assert(has_vn(m0, m0.hooks[k].vn_id));
                    let w = choose|j: int| 0 <= j < m0.vns.len()
                        && (#[trigger] m0.vns[j]).id == m0.hooks[k].vn_id;
                    assert(mi.vns[w].id == mi.hooks[k].vn_id);
                } else {
                    assert(has_vn(m0, vn.id));
                    let w = choose|j: int| 0 <= j < m0.vns.len()
                        && (#[trigger] m0.vns[j]).id == vn.id;
                    assert(mi.vns[w].id == mi.hooks[k].vn_id);
                }
            }
            assert(!has_hook(m0, vn.id, version@));
            assert(mi == spec_put_hook(m0, vn.id, version@, code@));
        }
        HookView { vn_id: vn.id, version, code }
    }

    /// Removes the VN row with this id and, by cascade, all of its hooks.
    /// Returns the number of VN rows removed.
    pub fn delete_vn(&mut self, id: u64) -> (r: usize)
        requires
            old(self).wf(),
        ensures
            final(self).wf(),
            final(self)@ == spec_delete_vn(old(self)@, id),
            final(self)@.vns == old(self)@.vns.filter(|v: VnModel| v.id != id),
            final(self)@.hooks == old(self)@.hooks.filter(|h: HookModel| h.vn_id != id),
            final(self)@.next_hook_id == old(self)@.next_hook_id,
            r == old(self)@.vns.len() - final(self)@.vns.len(),
            r == 0 <==> !has_vn(old(self)@, id),
    {
        let mut kept: Vec<Vn> = Vec::new();
        let ghost mut pos: Seq<int> = Seq::empty();
        let mut i: usize = 0;
        proof {
            reveal(Seq::filter);
            assert(vn_models(kept@) =~= self@.vns.subrange(0, 0).filter(|v: VnModel| v.id != id));
        }
        while i < self.vns.len()
            invariant
                old(self).wf(),
                self == old(self),
                i <= self.vns@.len(),
                vn_models(kept@) == self@.vns.subrange(0, i as int).filter(|v: VnModel| v.id != id),
                pos.len() == kept@.len(),
                forall|a: int| 0 <= a < pos.len() ==> 0 <= #[trigger] pos[a] < i
                    && kept@[a]@ == self@.vns[pos[a]] && kept@[a]@.id != id,
                forall|a: int, b: int| 0 <= a < b < pos.len() ==> pos[a] < pos[b],
                kept@.len() <= i,
                (kept@.len() < i) <==> (exists|j: int| 0 <= j < i
                    && (#[trigger] self@.vns[j]).id == id),
            decreases self.vns@.len() - i,
        {
            proof {
                reveal(Seq::filter);
                assert(self@.vns.subrange(0, i + 1).drop_last() =~= self@.vns.subrange(0, i as int));
            }
            if self.vns[i].id != id {
                let ghost prev = kept@;
                let ghost prev_pos = pos;
                kept.push(self.vns[i].duplicate());
                proof {
                    pos = pos.push(i as int);
                    assert(vn_models(kept@) =~= self@.vns.subrange(0, i as int).filter(
                        |v: VnModel| v.id != id).push(self@.vns[i as int]));
                    assert forall|a: int| 0 <= a < pos.len() implies 0 <= #[trigger] pos[a] <= i
                        && kept@[a]@ == self@.vns[pos[a]] && kept@[a]@.id != id by {
                        if a < pos.len() - 1 {
                            assert(kept@[a] == prev[a] && pos[a] == prev_pos[a]);
                        } else {
                            assert(kept@[a]@ == self@.vns[i as int]);
                            assert((self@.vns[i as int]).id != id);
                        }
                    }
                }
            } else {
                proof {
                    assert((#[trigger] self@.vns[i as int]).id == id);
                }
            }
            i = i + 1;
        }
        proof {
            assert(self@.vns.subrange(0, self@.vns.len() as int) =~= self@.vns);
        }
        let removed = self.vns.len() - kept.len();
        let mut kept_hooks: Vec<Hook> = Vec::new();
        let ghost mut hpos: Seq<int> = Seq::empty();
        let mut k: usize = 0;
        proof {
            reveal(Seq::filter);
            assert(hook_models(kept_hooks@) =~= self@.hooks.subrange(0, 0).filter(
                |h: HookModel| h.vn_id != id));
        }
        while k < self.hooks.len()
            invariant
                old(self).wf(),
                self == old(self),
                k <= self.hooks@.len(),
                hook_models(kept_hooks@) == self@.hooks.subrange(0, k as int).filter(
                    |h: HookModel| h.vn_id != id),
                hpos.len() == kept_hooks@.len(),
                forall|a: int| 0 <= a < hpos.len() ==> 0 <= #[trigger] hpos[a] < k
                    && kept_hooks@[a]@ == self@.hooks[hpos[a]] && kept_hooks@[a]@.vn_id != id,
                forall|a: int, b: int| 0 <= a < b < hpos.len() ==> hpos[a] < hpos[b],
            decreases self.hooks@.len() - k,
        {
            proof {
                reveal(Seq::filter);
                assert(self@.hooks.subrange(0, k + 1).drop_last()
                    =~= self@.hooks.subrange(0, k as int));
            }
            if self.hooks[k].vn_id != id {
                kept_hooks.push(self.hooks[k].duplicate());
                proof {
                    hpos = hpos.push(k as int);
                    assert(hook_models(kept_hooks@) =~= self@.hooks.subrange(0, k as int).filter(
                        |h: HookModel| h.vn_id != id).push(self@.hooks[k as int]));
                }
            }
            k = k + 1;
        }
        proof {
            assert(self@.hooks.subrange(0, self@.hooks.len() as int) =~= self@.hooks);
        }
        self.vns = kept;
        self.hooks = kept_hooks;
        proof {
            let m0 = old(self)@;
            let mi = final(self)@;
            assert forall|a: int, b: int| 0 <= a < b < mi.vns.len()
                implies (#[trigger] mi.vns[a]).id != (#[trigger] mi.vns[b]).id by {
                assert(mi.vns[a] == m0.vns[pos[a]] && mi.vns[b] == m0.vns[pos[b]]);
            }
            assert forall|a: int, b: int| 0 <= a < b < mi.hooks.len()
                implies (#[trigger] mi.hooks[a]).id != (#[trigger] mi.hooks[b]).id
                    && !(mi.hooks[a].vn_id == mi.hooks[b].vn_id
                        && mi.hooks[a].version == mi.hooks[b].version) by {
                assert(mi.hooks[a] == m0.hooks[hpos[a]] && mi.hooks[b] == m0.hooks[hpos[b]]);
            }
            assert forall|a: int| 0 <= a < mi.hooks.len()
                implies (#[trigger] mi.hooks[a]).id < mi.next_hook_id by {
                assert(mi.hooks[a] == m0.hooks[hpos[a]]);
            }
            assert forall|a: int| 0 <= a < mi.hooks.len()
                implies has_vn(mi, (#[trigger] mi.hooks[a]).vn_id) by {
                assert(mi.hooks[a] == m0.hooks[hpos[a]]);
                assert(has_vn(m0, m0.hooks[hpos[a]].vn_id));
                let w = choose|w: int| 0 <= w < m0.vns.len()
                    && (#[trigger] m0.vns[w]).id == m0.hooks[hpos[a]].vn_id;
                // that VN is not the deleted one, so it survives the filter
                m0.vns.lemma_filter_contains(|v: VnModel| v.id != id, w);
                assert(mi.vns.contains(m0.vns[w]));
                let u = choose|u: int| 0 <= u < mi.vns.len() && mi.vns[u] == m0.vns[w];
                assert((#[trigger] mi.vns[u]).id == mi.hooks[a].vn_id);
            }
        }
        removed
    }

    /// Removes the hook row with key `(vn.id, version)`, if any. Returns the
    /// number of hook rows removed.
    pub fn delete_hook(&mut self, vn: &Vn, version: &String) -> (r: usize)
        requires
            old(self).wf(),
        ensures
            final(self).wf(),
            final(self)@ == spec_delete_hook(old(self)@, vn.id, version@),
            final(self)@.vns == old(self)@.vns,
            final(self)@.next_hook_id == old(self)@.next_hook_id,
            final(self)@.hooks == old(self)@.hooks.filter(
                |h: HookModel| !(h.vn_id == vn.id && h.version == version@)),
            r == old(self)@.hooks.len() - final(self)@.hooks.len(),
            r == 0 <==> !has_hook(old(self)@, vn.id, version@),
    {
        let mut kept: Vec<Hook> = Vec::new();
        let ghost mut hpos: Seq<int> = Seq::empty();
        let mut i: usize = 0;
        proof {
            reveal(Seq::filter);
            assert(hook_models(kept@) =~= self@.hooks.subrange(0, 0).filter(
                |h: HookModel| !(h.vn_id == vn.id@ && h.version == version@)));
        }
        while i < self.hooks.len()
            invariant
                old(self).wf(),
                self == old(self),
                i <= self.hooks@.len(),
                hook_models(kept@) == self@.hooks.subrange(0, i as int).filter(
                    |h: HookModel| !(h.vn_id == vn.id@ && h.version == version@)),
                hpos.len() == kept@.len(),
                forall|a: int| 0 <= a < hpos.len() ==> 0 <= #[trigger] hpos[a] < i
                    && kept@[a]@ == self@.hooks[hpos[a]],
                forall|a: int, b: int| 0 <= a < b < hpos.len() ==> hpos[a] < hpos[b],
                kept@.len() <= i,
                (kept@.len() < i) <==> (exists|j: int| 0 <= j < i
                    && (#[trigger] self@.hooks[j]).vn_id == vn.id@
                    && self@.hooks[j].version == version@),
            decreases self.hooks@.len() - i,
        {
            proof {
                reveal(Seq::filter);
                assert(self@.hooks.subrange(0, i + 1).drop_last()
                    =~= self@.hooks.subrange(0, i as int));
            }
            if self.hooks[i].vn_id == vn.id && self.hooks[i].version == *version {
                proof {
                    assert((#[trigger] self@.hooks[i as int]).vn_id == vn.id@
                        && self@.hooks[i as int].version == version@);
                }
            } else {
                kept.push(self.hooks[i].duplicate());
                proof {
                    hpos = hpos.push(i as int);
                    assert(hook_models(kept@) =~= self@.hooks.subrange(0, i as int).filter(
                        |h: HookModel| !(h.vn_id == vn.id@ && h.version == version@))
                        .push(self@.hooks[i as int]));
                }
            }
            i = i + 1;
        }
        proof {
            assert(self@.hooks.subrange(0, self@.hooks.len() as int) =~= self@.hooks);
        }
        let removed = self.hooks.len() - kept.len();
        self.hooks = kept;
        proof {
            let m0 = old(self)@;
            let mi = final(self)@;
            assert forall|a: int, b: int| 0 <= a < b < mi.hooks.len()
                implies (#[trigger] mi.hooks[a]).id != (#[trigger] mi.hooks[b]).id
                    && !(mi.hooks[a].vn_id == mi.hooks[b].vn_id
                        && mi.hooks[a].version == mi.hooks[b].version) by {
                assert(mi.hooks[a] == m0.hooks[hpos[a]] && mi.hooks[b] == m0.hooks[hpos[b]]);
            }
            assert forall|a: int| 0 <= a < mi.hooks.len()
                implies (#[trigger] mi.hooks[a]).id < mi.next_hook_id
                    && has_vn(mi, mi.hooks[a].vn_id) by {
                assert(mi.hooks[a] == m0.hooks[hpos[a]]);
                assert(has_vn(m0, m0.hooks[hpos[a]].vn_id));
                let w = choose|w: int| 0 <= w < m0.vns.len()
                    && (#[trigger] m0.vns[w]).id == m0.hooks[hpos[a]].vn_id;
                assert(mi.vns == m0.vns);
                assert((#[trigger] mi.vns[w]).id == mi.hooks[a].vn_id);
            }
        }
        removed
    }

    /// The number of VN rows.
    pub fn count_vns(&self) -> (r: usize)
        ensures
            r == self@.vns.len(),
    {
        self.vns.len()
    }

    /// The number of hook rows.
    pub fn count_hooks(&self) -> (r: usize)
        ensures
            r == self@.hooks.len(),
    {
        self.hooks.len()
    }

    /// Whether another hook row can still get a fresh id.
    pub fn has_hook_id_headroom(&self) -> (r: bool)
        ensures
            r == (self@.next_hook_id < u64::MAX),
    {
        self.next_hook_id < u64::MAX
    }
}

/// Every element of a filtered sequence has a source position.
proof fn lemma_filter_element_witness<A>(s: Seq<A>, pred: spec_fn(A) -> bool, i: int)
    requires
        0 <= i < s.filter(pred).len(),
    ensures
        exists|a: int| 0 <= a < s.len() && s[a] == s.filter(pred)[i],
    decreases s.len(),
{
    reveal(Seq::filter);
    if s.len() > 0 {
        let pre = s.drop_last();
        let g = pre.filter(pred);
        if pred(s.last()) && i == g.len() {
            assert(s[s.len() - 1] == s.filter(pred)[i]);
        } else {
            lemma_filter_element_witness(pre, pred, i);
            let a = choose|a: int| 0 <= a < pre.len() && pre[a] == g[i];
            assert(s[a] == s.filter(pred)[i]);
        }
    }
}

/// After `delete_vn(id)` the VN is gone and it has no hooks left: a later
/// `get_vn(id)` returns `None` and `get_hooks` of any prior hook of it is
/// empty.
pub proof fn lemma_delete_vn_clears(m0: StoreModel, mi: StoreModel, id: u64)
    requires
        mi.vns == m0.vns.filter(|v: VnModel| v.id != id),
        mi.hooks == m0.hooks.filter(|h: HookModel| h.vn_id != id),
    ensures
        !has_vn(mi, id),
        hooks_of(mi, id) =~= Seq::<HookModel>::empty(),
{
    assert forall|i: int| 0 <= i < mi.vns.len() implies (#[trigger] mi.vns[i]).id != id by {
        m0.vns.lemma_filter_pred(|v: VnModel| v.id != id, i);
    }
    let p = |h: HookModel| h.vn_id == id;
    let h = hooks_of(mi, id);
    if h.len() > 0 {
        mi.hooks.lemma_filter_pred(p, 0);
        assert(h[0].vn_id == id);
        lemma_filter_element_witness(mi.hooks, p, 0);
        let a = choose|a: int| 0 <= a < mi.hooks.len() && mi.hooks[a] == h[0];
        m0.hooks.lemma_filter_pred(|hh: HookModel| hh.vn_id != id, a);
        assert(mi.hooks[a].vn_id != id);
    }
}

/// `put_hook` keeps the store well-formed and leaves a row with its key.
pub proof fn lemma_spec_put_hook_wf(m: StoreModel, vn_id: u64, version: Seq<char>, code: Seq<char>)
    requires
        store_wf(m),
        has_vn(m, vn_id),
        m.next_hook_id < u64::MAX,
    ensures
        store_wf(spec_put_hook(m, vn_id, version, code)),
        has_hook(spec_put_hook(m, vn_id, version, code), vn_id, version),
{
    let mi = spec_put_hook(m, vn_id, version, code);
    if has_hook(m, vn_id, version) {
        let w = choose|w: int| 0 <= w < m.hooks.len()
            && (#[trigger] m.hooks[w]).vn_id == vn_id && m.hooks[w].version == version;
        assert((#[trigger] mi.hooks[w]).vn_id == vn_id && mi.hooks[w].version == version);
        assert forall|i: int| 0 <= i < mi.hooks.len()
            implies has_vn(mi, (#[trigger] mi.hooks[i]).vn_id) by {
            assert(mi.hooks[i].vn_id == m.hooks[i].vn_id);
            assert(has_vn(m, m.hooks[i].vn_id));
            let u = choose|u: int| 0 <= u < m.vns.len()
                && (#[trigger] m.vns[u]).id == m.hooks[i].vn_id;
            assert((#[trigger] mi.vns[u]).id == mi.hooks[i].vn_id);
        }
    } else {
        let n = m.hooks.len() as int;
        assert((#[trigger] mi.hooks[n]).vn_id == vn_id && mi.hooks[n].version == version);
        assert forall|i: int, j: int| 0 <= i < j < mi.hooks.len()
            implies !((#[trigger] mi.hooks[i]).vn_id == (#[trigger] mi.hooks[j]).vn_id
                && mi.hooks[i].version == mi.hooks[j].version) by {
            if j == n {
                assert(!((#[trigger] m.hooks[i]).vn_id == vn_id && m.hooks[i].version == version));
            }
        }
        assert forall|i: int| 0 <= i < mi.hooks.len()
            implies has_vn(mi, (#[trigger] mi.hooks[i]).vn_id) by {
            let target = mi.hooks[i].vn_id;
            assert(has_vn(m, target));
            let u = choose|u: int| 0 <= u < m.vns.len() && (#[trigger] m.vns[u]).id == target;
            assert((#[trigger] mi.vns[u]).id == target);
        }
    }
}

/// Writing the hook of one key twice leaves exactly one row for that key,
/// holding the second code.
pub proof fn lemma_put_hook_last_wins(
    m: StoreModel,
    vn_id: u64,
    version: Seq<char>,
    c1: Seq<char>,
    c2: Seq<char>,
)
    requires
        store_wf(m),
        has_vn(m, vn_id),
        m.next_hook_id < u64::MAX - 1,
    ensures
        ({
            let m2 = spec_put_hook(spec_put_hook(m, vn_id, version, c1), vn_id, version, c2);
            &&& exists|i: int| 0 <= i < m2.hooks.len()
                && (#[trigger] m2.hooks[i]).vn_id == vn_id && m2.hooks[i].version == version
            &&& forall|i: int| 0 <= i < m2.hooks.len()
                && (#[trigger] m2.hooks[i]).vn_id == vn_id && m2.hooks[i].version == version
                ==> m2.hooks[i].code == c2
            &&& forall|i: int, j: int|
                0 <= i < m2.hooks.len() && 0 <= j < m2.hooks.len() && i != j
                ==> !((#[trigger] m2.hooks[i]).vn_id == vn_id && m2.hooks[i].version == version
                    && (#[trigger] m2.hooks[j]).vn_id == vn_id && m2.hooks[j].version == version)
        }),
{
    let m1 = spec_put_hook(m, vn_id, version, c1);
    lemma_spec_put_hook_wf(m, vn_id, version, c1);
    lemma_spec_put_hook_wf(m1, vn_id, version, c2);
    let m2 = spec_put_hook(m1, vn_id, version, c2);
    assert(has_hook(m1, vn_id, version));
    let w = choose|w: int| 0 <= w < m1.hooks.len()
        && (#[trigger] m1.hooks[w]).vn_id == vn_id && m1.hooks[w].version == version;
    assert((#[trigger] m2.hooks[w]).vn_id == vn_id && m2.hooks[w].version == version);
}

} // verus!

