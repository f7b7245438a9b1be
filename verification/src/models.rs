//! Rows of the local catalogue: visual novels and their text-hook codes.

use vstd::prelude::*;

verus! {

/// A visual novel row. `id` is the identifier assigned by the remote service.
pub struct Vn {
    pub id: u64,
    pub title: String,
}

/// A stored hook row; `(vn_id, version)` is its logical key.
pub struct Hook {
    pub id: u64,
    pub vn_id: u64,
    pub version: String,
    pub code: String,
}

/// A hook row without its surrogate id, as handed back to callers.
pub struct HookView {
    pub vn_id: u64,
    pub version: String,
    pub code: String,
}

/// Mathematical image of a [`Vn`] row.
pub struct VnModel {
    pub id: u64,
    pub title: Seq<char>,
}

/// Mathematical image of a [`Hook`] row.
pub struct HookModel {
    pub id: u64,
    pub vn_id: u64,
    pub version: Seq<char>,
    pub code: Seq<char>,
}

impl View for Vn {
    type V = VnModel;

    open spec fn view(&self) -> VnModel {
        VnModel { id: self.id, title: self.title@ }
    }
}

impl View for Hook {
    type V = HookModel;

    open spec fn view(&self) -> HookModel {
        HookModel { id: self.id, vn_id: self.vn_id, version: self.version@, code: self.code@ }
    }
}

impl View for HookView {
    type V = HookModel;

    open spec fn view(&self) -> HookModel {
        HookModel { id: 0, vn_id: self.vn_id, version: self.version@, code: self.code@ }
    }
}

impl Vn {
    /// A field-for-field copy.
    pub fn duplicate(&self) -> (r: Vn)
        ensures
            r@ == self@,
    {
        Vn { id: self.id, title: self.title.clone() }
    }
}

impl Hook {
    /// A field-for-field copy.
    pub fn duplicate(&self) -> (r: Hook)
        ensures
            r@ == self@,
    {
        Hook {
            id: self.id,
            vn_id: self.vn_id,
            version: self.version.clone(),
            code: self.code.clone(),
        }
    }
}

/// The models of a sequence of rows.
pub open spec fn vn_models(s: Seq<Vn>) -> Seq<VnModel> {
    s.map_values(|v: Vn| v@)
}

/// The models of a sequence of hook rows.
pub open spec fn hook_models(s: Seq<Hook>) -> Seq<HookModel> {
    s.map_values(|h: Hook| h@)
}

} // verus!
