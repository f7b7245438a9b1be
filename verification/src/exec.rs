//! The executor: the workflows that compose the remote client and the local
//! store. Each workflow is a small state machine: it answers directly where
//! the store suffices, and otherwise hands back the request line to put on
//! the wire together with the state to resume with once the reply arrives.

use vstd::prelude::*;
use crate::protocol::{Kind, Flags, Request, Get, get_line, id_atom, title_atom, kind_char};
use crate::store::{
    Store, StoreModel, VnData, has_vn, has_hook, hooks_of, spec_put_hook, spec_put_vn,
    spec_delete_vn, spec_delete_hook,
};
use crate::models::{Vn, HookView, VnModel, HookModel, hook_models};
use crate::text::{
    is_u64_digits, digits_val, dec_digits, chars_of, fmt_u64, contains_ci, plus_for_whitespace,
    replace_whitespace,
};

verus! {

/// The reference named by a short token such as `v17`: its kind letter
/// followed by decimal digits denoting a positive number.
pub open spec fn spec_parse_vndb_ref(s: Seq<char>) -> Option<(Kind, u64)> {
    if s.len() >= 2 && crate::protocol::kind_of_char(s[0]) is Some
        && is_u64_digits(s, 1, s.len() as int)
        && digits_val(s.subrange(1, s.len() as int)) > 0 {
        Some((
            crate::protocol::kind_of_char(s[0])->0,
            digits_val(s.subrange(1, s.len() as int)) as u64,
        ))
    } else {
        None
    }
}

/// Reads a reference such as `v17` or `c123`; the id must be positive.
pub fn parse_vndb_ref(text: &str) -> (r: Option<(Kind, u64)>)
    ensures
        r == spec_parse_vndb_ref(text@),
{
    let s = chars_of(text);
    if s.len() < 2 {
        return None;
    }
    let kind = match Kind::from_prefix(s[0]) {
        Some(kind) => kind,
        None => {
            return None;
        },
    };
    match crate::text::parse_u64(&s, 1, s.len()) {
        Some(v) if v > 0 => Some((kind, v)),
        _ => None,
    }
}

/// A VN record decoded from a `results` payload; the remote may omit the
/// title.
pub struct RemoteVn {
    pub id: u64,
    pub title: Option<String>,
}

/// Mathematical image of a [`RemoteVn`].
pub struct RemoteVnModel {
    pub id: u64,
    pub title: Option<Seq<char>>,
}

impl View for RemoteVn {
    type V = RemoteVnModel;

    open spec fn view(&self) -> RemoteVnModel {
        RemoteVnModel {
            id: self.id,
            title: match self.title {
                Some(ref t) => Some(t@),
                None => None,
            },
        }
    }
}

/// What one request/response exchange produced, as plain values the
/// surrounding runtime decoded from the wire.
pub enum RemoteEvent {
    /// The exchange failed in transport: the request could not be written
    /// or no response could be read.
    Failed,
    /// A frame arrived that was not `results`, or whose payload did not
    /// decode as VN records.
    Unexpected,
    /// The decoded VN records of a `results` frame.
    Vns(Vec<RemoteVn>),
    /// The raw payload of a `results` frame for a non-VN object.
    Raw(String),
}

/// The error taxonomy every workflow reports with.
#[derive(Debug)]
pub enum ResponseError {
    /// The remote could not be reached, written to or read from.
    BadVndb,
    /// The remote answered with an unexpected frame.
    BadVndbResponse,
    /// A fuzzy title search matched more than one VN.
    TooMany(usize, String),
    /// A local title search matched more than one VN.
    TooManyDb(usize),
    /// No VN could be resolved.
    UnknownVn,
    /// A reference of a kind other than `v` was given to a VN-only workflow.
    InvalidVnId(Kind, u64),
    /// Anything else; never suppressed.
    Internal(String),
}

/// The user-visible line of each error.
pub open spec fn response_error_text(e: ResponseError) -> Seq<char> {
    match e {
        ResponseError::BadVndb => "Error with VNDB. Forgive me, I cannot execute your request"@,
        ResponseError::BadVndbResponse => "Bad VNDB response. Forgive me."@,
        ResponseError::UnknownVn => "No such VN could be found."@,
        ResponseError::TooMany(num, title) => "There are too many hits>='"@
            + dec_digits(num as int) + "'. Try yourself -> https://vndb.org/v/all?sq="@
            + plus_for_whitespace(title@),
        ResponseError::TooManyDb(num) => "Found '"@ + dec_digits(num as int)
            + "' matches in DB. Try a better query."@,
        ResponseError::InvalidVnId(kind, num) => seq![kind_char(kind)] + dec_digits(num as int)
            + " is not an VN ID"@,
        ResponseError::Internal(desc) => "ごめんなさい、エラー: "@ + desc@,
    }
}

impl ResponseError {
    /// Renders the error as its user-visible line.
    pub fn to_text(&self) -> (r: String)
        ensures
            r@ == response_error_text(*self),
    {
        let mut out = String::new();
        match self {
            ResponseError::BadVndb => {
                out.append("Error with VNDB. Forgive me, I cannot execute your request");
            },
            ResponseError::BadVndbResponse => {
                out.append("Bad VNDB response. Forgive me.");
            },
            ResponseError::UnknownVn => {
                out.append("No such VN could be found.");
            },
            ResponseError::TooMany(num, title) => {
                out.append("There are too many hits>='");
                let digits = fmt_u64(*num as u64);
                out.append(digits.as_str());
                out.append("'. Try yourself -> https://vndb.org/v/all?sq=");
                let plussed = replace_whitespace(title.as_str());
                out.append(plussed.as_str());
            },
            ResponseError::TooManyDb(num) => {
                out.append("Found '");
                let digits = fmt_u64(*num as u64);
                out.append(digits.as_str());
                out.append("' matches in DB. Try a better query.");
            },
            ResponseError::InvalidVnId(kind, num) => {
                out.append(kind.short());
                let digits = fmt_u64(*num as u64);
                out.append(digits.as_str());
                out.append(" is not an VN ID");
            },
            ResponseError::Internal(desc) => {
                out.append("ごめんなさい、エラー: ");
                out.append(desc.as_str());
            },
        }
        proof {
            assert(out@ =~= response_error_text(*self));
        }
        out
    }
}

/// The executor: owns the local store; remote exchanges are handed to the
/// runtime as request lines and resumed with the decoded reply.
pub struct Executor {
    pub store: Store,
}

impl Executor {
    pub fn new(store: Store) -> (r: Executor)
        ensures
            r.store@ == store@,
    {
        Executor { store }
    }

    /// An executor over a fresh store; `threads` sizes the worker pool the
    /// runtime may drive it with.
    pub fn default_threads(threads: usize) -> (r: Executor)
        ensures
            r.store.wf(),
            r.store@.vns =~= Seq::<VnModel>::empty(),
            r.store@.hooks =~= Seq::<HookModel>::empty(),
    {
        let _ = threads;
        Executor { store: Store::new() }
    }
}

/// The filter atoms of an exact-title lookup.
pub open spec fn exact_title_filters(t: Seq<char>) -> Seq<Seq<char>> {
    seq![title_atom("title"@, " = "@, t), title_atom("original"@, " = "@, t)]
}

/// The filter atoms of a fuzzy-title search.
pub open spec fn fuzzy_title_filters(t: Seq<char>) -> Seq<Seq<char>> {
    seq![title_atom("title"@, " ~ "@, t), title_atom("original"@, " ~ "@, t)]
}

/// The request line asking for the VN with this id.
pub open spec fn vn_by_id_line(id: u64) -> Seq<char> {
    get_line(Kind::Vn, Flags { basic: true }, seq![id_atom(id)], None)
}

/// The request line of an exact-title lookup.
pub open spec fn exact_title_line(t: Seq<char>) -> Seq<char> {
    get_line(Kind::Vn, Flags { basic: true }, exact_title_filters(t), None)
}

/// The request line of a fuzzy-title search.
pub open spec fn fuzzy_title_line(t: Seq<char>) -> Seq<char> {
    get_line(Kind::Vn, Flags { basic: true }, fuzzy_title_filters(t), None)
}

/// Asks the remote for one VN record by id; exactly one item is expected.
pub struct GetVn {
    pub id: u64,
}

impl GetVn {
    pub fn new(id: u64) -> (r: GetVn)
        ensures
            r.id == id,
    {
        GetVn { id }
    }

    /// The request to put on the wire.
    pub fn query(&self) -> (r: Request)
        ensures
            r.line@ == vn_by_id_line(self.id),
    {
        Get::vn_by_id(self.id).to_request()
    }

    /// Concludes the workflow from the decoded reply: the first returned
    /// record, `UnknownVn` when the remote knows no such id.
    pub fn finish(&self, event: RemoteEvent) -> (r: Result<RemoteVn, ResponseError>)
        ensures
            match event {
                RemoteEvent::Failed => r == Err::<RemoteVn, ResponseError>(
                    ResponseError::BadVndb),
                RemoteEvent::Unexpected | RemoteEvent::Raw(_) => r == Err::<
                    RemoteVn,
                    ResponseError,
                >(ResponseError::BadVndbResponse),
                RemoteEvent::Vns(items) => {
                    if items@.len() == 0 {
                        r == Err::<RemoteVn, ResponseError>(ResponseError::UnknownVn)
                    } else {
                        r matches Ok(v) && v@ == items@[0]@
                    }
                },
            },
    {
        match event {
            RemoteEvent::Failed => Err(ResponseError::BadVndb),
            RemoteEvent::Unexpected => Err(ResponseError::BadVndbResponse),
            RemoteEvent::Raw(_) => Err(ResponseError::BadVndbResponse),
            RemoteEvent::Vns(mut items) => {
                if items.len() == 0 {
                    Err(ResponseError::UnknownVn)
                } else {
                    let first = items.remove(0);
                    Ok(first)
                }
            },
        }
    }
}

/// Reads the VN row with this id from the local store.
pub struct GetVnDb(pub GetVn);

impl GetVnDb {
    pub fn new(id: u64) -> (r: GetVnDb)
        ensures
            r.0.id == id,
    {
        GetVnDb(GetVn::new(id))
    }
}

/// Resolves one VN record by title: an exact lookup first, then a fuzzy
/// search when the exact lookup is not decisive.
pub struct FindVn {
    pub title: String,
}

/// Where the `FindVn` ladder stands.
pub enum FindVnFlow {
    /// The exact-title reply is awaited.
    AwaitExact,
    /// The fuzzy-title reply is awaited.
    AwaitFuzzy,
}

/// What a `FindVn` round produced: the next request, or the conclusion.
pub enum FindVnStep {
    Query(Request, FindVnFlow),
    Done(Result<RemoteVn, ResponseError>),
}

impl FindVn {
    pub fn new(title: String) -> (r: FindVn)
        ensures
            r.title@ == title@,
    {
        FindVn { title }
    }

    /// The opening request: the exact-title lookup.
    pub fn query(&self) -> (r: Request)
        ensures
            r.line@ == exact_title_line(self.title@),
    {
        Get::vn_by_exact_title(self.title.as_str()).to_request()
    }

    /// Advances the ladder with a decoded reply: one exact hit concludes;
    /// anything else falls back to the fuzzy search, whose reply concludes
    /// with the record, `UnknownVn` or `TooMany`.
    pub fn step(&self, flow: FindVnFlow, event: RemoteEvent) -> (r: FindVnStep)
        ensures
            match event {
                RemoteEvent::Failed => r matches FindVnStep::Done(e)
                    && e == Err::<RemoteVn, ResponseError>(ResponseError::BadVndb),
                RemoteEvent::Unexpected | RemoteEvent::Raw(_) => r matches FindVnStep::Done(e)
                    && e == Err::<RemoteVn, ResponseError>(ResponseError::BadVndbResponse),
                RemoteEvent::Vns(items) => match flow {
                    FindVnFlow::AwaitExact => {
                        if items@.len() == 1 {
                            r matches FindVnStep::Done(e) && e matches Ok(v) && v@ == items@[0]@
                        } else {
                            r matches FindVnStep::Query(q, f)
                                && q.line@ == fuzzy_title_line(self.title@)
                                && f == FindVnFlow::AwaitFuzzy
                        }
                    },
                    FindVnFlow::AwaitFuzzy => {
                        if items@.len() == 0 {
                            r matches FindVnStep::Done(e)
                                && e == Err::<RemoteVn, ResponseError>(ResponseError::UnknownVn)
                        } else if items@.len() == 1 {
                            r matches FindVnStep::Done(e) && e matches Ok(v) && v@ == items@[0]@
                        } else {
                            r matches FindVnStep::Done(e) && (e matches Err(err)
                                && err matches ResponseError::TooMany(n, t)
                                && n == items@.len() && t@ == self.title@)
                        }
                    },
                },
            },
    {
        match event {
            RemoteEvent::Failed => FindVnStep::Done(Err(ResponseError::BadVndb)),
            RemoteEvent::Unexpected => FindVnStep::Done(Err(ResponseError::BadVndbResponse)),
            RemoteEvent::Raw(_) => FindVnStep::Done(Err(ResponseError::BadVndbResponse)),
            RemoteEvent::Vns(mut items) => match flow {
                FindVnFlow::AwaitExact => {
                    if items.len() == 1 {
                        let first = items.remove(0);
                        FindVnStep::Done(Ok(first))
                    } else {
                        let q = Get::vn_by_title(self.title.as_str()).to_request();
                        FindVnStep::Query(q, FindVnFlow::AwaitFuzzy)
                    }
                },
                FindVnFlow::AwaitFuzzy => {
                    if items.len() == 0 {
                        FindVnStep::Done(Err(ResponseError::UnknownVn))
                    } else if items.len() == 1 {
                        let first = items.remove(0);
                        FindVnStep::Done(Ok(first))
                    } else {
                        let n = items.len();
                        FindVnStep::Done(Err(ResponseError::TooMany(n, self.title.clone())))
                    }
                },
            },
        }
    }
}

/// Searches the local store by title substring.
pub struct FindVnDb(pub FindVn);

impl FindVnDb {
    pub fn new(title: String) -> (r: FindVnDb)
        ensures
            r.0.title@ == title@,
    {
        FindVnDb(FindVn::new(title))
    }
}

/// A thin pass-through: fetches one remote object of any kind by id.
pub struct GetVndbObject {
    pub id: u64,
    pub kind: Kind,
}

impl GetVndbObject {
    pub fn new(id: u64, kind: Kind) -> (r: GetVndbObject)
        ensures
            r.id == id && r.kind == kind,
    {
        GetVndbObject { id, kind }
    }

    /// The request to put on the wire.
    pub fn query(&self) -> (r: Request)
        ensures
            r.line@ == get_line(self.kind, Flags { basic: true }, seq![id_atom(self.id)], None),
    {
        Get::get_by_id(self.kind, self.id).to_request()
    }

    /// Concludes with the raw results payload.
    pub fn finish(&self, event: RemoteEvent) -> (r: Result<String, ResponseError>)
        ensures
            match event {
                RemoteEvent::Failed => r == Err::<String, ResponseError>(ResponseError::BadVndb),
                RemoteEvent::Unexpected | RemoteEvent::Vns(_) => r == Err::<
                    String,
                    ResponseError,
                >(ResponseError::BadVndbResponse),
                RemoteEvent::Raw(payload) => r matches Ok(p) && p@ == payload@,
            },
    {
        match event {
            RemoteEvent::Failed => Err(ResponseError::BadVndb),
            RemoteEvent::Unexpected => Err(ResponseError::BadVndbResponse),
            RemoteEvent::Vns(_) => Err(ResponseError::BadVndbResponse),
            RemoteEvent::Raw(payload) => Ok(payload),
        }
    }
}

impl Executor {
    /// `GetVnDb`: a single local read.
    pub fn handle_get_vn_db(&self, msg: GetVnDb) -> (r: Result<Option<Vn>, ResponseError>)
        ensures
            match r {
                Ok(Some(v)) => v@.id == msg.0.id && self.store@.vns.contains(v@),
                Ok(None) => !has_vn(self.store@, msg.0.id),
                Err(_) => false,
            },
    {
        Ok(self.store.get_vn(msg.0.id))
    }

    /// `FindVnDb`: a local substring search; decisive only when it matches
    /// at most one row.
    pub fn handle_find_vn_db(&self, msg: FindVnDb) -> (r: Result<Option<Vn>, ResponseError>)
        ensures
            ({
                let found = self.store@.vns.filter(
                    |v: VnModel| contains_ci(v.title, msg.0.title@));
                match r {
                    Ok(Some(v)) => found.len() == 1 && v@ == found[0],
                    Ok(None) => found.len() == 0,
                    Err(e) => found.len() > 1 && (e matches ResponseError::TooManyDb(n)
                        && n == found.len()),
                }
            }),
    {
        let mut vns = self.store.search_vn(msg.0.title.as_str());
        let ghost found = self.store@.vns.filter(|v: VnModel| contains_ci(v.title, msg.0.title@));
        if vns.len() == 0 {
            Ok(None)
        } else if vns.len() == 1 {
            let v = vns.remove(0);
            proof {
                assert(v@ == found[0]);
            }
            Ok(Some(v))
        } else {
            Err(ResponseError::TooManyDb(vns.len()))
        }
    }
}

/// `d` is the read result for the VN with this id in store `m`.
pub open spec fn vn_data_of(m: StoreModel, id: u64, d: VnData) -> bool {
    &&& d.data@.id == id
    &&& m.vns.contains(d.data@)
    &&& hook_models(d.hooks@) == hooks_of(m, id)
}

/// How a hook lookup for a remotely found id concludes against store `m`.
pub open spec fn hook_data_outcome(m: StoreModel, id: u64, r: GetHookStep) -> bool {
    if has_vn(m, id) {
        r matches GetHookStep::Done(e) && (e matches Ok(d) && vn_data_of(m, id, d))
    } else {
        r matches GetHookStep::Done(e)
            && e == Err::<VnData, ResponseError>(ResponseError::UnknownVn)
    }
}

/// `GetHook`: resolves a VN reference or title and reads its hooks.
pub struct GetHook(pub String);

/// Where the `GetHook` ladder stands.
pub enum GetHookFlow {
    AwaitExact,
    AwaitFuzzy,
}

/// What a `GetHook` round produced.
pub enum GetHookStep {
    Query(Request, GetHookFlow),
    Done(Result<VnData, ResponseError>),
}

impl Executor {
    /// Opens the `GetHook` ladder: a reference reads the store directly; a
    /// title prefers a unique local match and otherwise asks the remote.
    pub fn handle_get_hook(&self, msg: &GetHook) -> (r: GetHookStep)
        ensures
            ({
                let m = self.store@;
                let title = msg.0@;
                match spec_parse_vndb_ref(title) {
                    Some((kind, id)) => {
                        if kind != Kind::Vn {
                            r matches GetHookStep::Done(e) && e == Err::<VnData, ResponseError>(
                                ResponseError::InvalidVnId(kind, id))
                        } else {
                            hook_data_outcome(m, id, r)
                        }
                    },
                    None => {
                        let found = m.vns.filter(|v: VnModel| contains_ci(v.title, title));
                        if found.len() == 1 {
                            r matches GetHookStep::Done(e) && (e matches Ok(d)
                                && d.data@ == found[0]
                                && hook_models(d.hooks@) == hooks_of(m, found[0].id))
                        } else if found.len() == 0 {
                            r matches GetHookStep::Query(q, f)
                                && q.line@ == exact_title_line(title)
                                && f == GetHookFlow::AwaitExact
                        } else {
                            r matches GetHookStep::Done(e) && (e matches Err(err)
                                && err matches ResponseError::TooManyDb(n) && n == found.len())
                        }
                    },
                }
            }),
    {
        match parse_vndb_ref(msg.0.as_str()) {
            Some((kind, id)) => {
                if !matches!(kind, Kind::Vn) {
                    return GetHookStep::Done(Err(ResponseError::InvalidVnId(kind, id)));
                }
                match self.store.get_vn_data(id) {
                    Some(d) => GetHookStep::Done(Ok(d)),
                    None => GetHookStep::Done(Err(ResponseError::UnknownVn)),
                }
            },
            None => {
                let mut vns = self.store.search_vn(msg.0.as_str());
                let ghost found = self.store@.vns.filter(
                    |v: VnModel| contains_ci(v.title, msg.0@));
                if vns.len() == 1 {
                    let vn = vns.remove(0);
                    proof {
                        assert(vn@ == found[0]);
                    }
                    let hooks = self.store.get_hooks(&vn);
                    GetHookStep::Done(Ok(VnData { data: vn, hooks }))
                } else if vns.len() == 0 {
                    let q = Get::vn_by_exact_title(msg.0.as_str()).to_request();
                    GetHookStep::Query(q, GetHookFlow::AwaitExact)
                } else {
                    GetHookStep::Done(Err(ResponseError::TooManyDb(vns.len())))
                }
            },
        }
    }

    /// Resumes the `GetHook` ladder with a decoded remote reply.
    pub fn resume_get_hook(&self, msg: &GetHook, flow: GetHookFlow, event: RemoteEvent)
        -> (r: GetHookStep)
        ensures
            ({
                let m = self.store@;
                let title = msg.0@;
                match event {
                    RemoteEvent::Failed => r matches GetHookStep::Done(e)
                        && e == Err::<VnData, ResponseError>(ResponseError::BadVndb),
                    RemoteEvent::Unexpected | RemoteEvent::Raw(_) => r matches GetHookStep::Done(
                        e) && e == Err::<VnData, ResponseError>(ResponseError::BadVndbResponse),
                    RemoteEvent::Vns(items) => match flow {
                        GetHookFlow::AwaitExact => {
                            if items@.len() == 1 {
                                hook_data_outcome(m, items@[0].id, r)
                            } else {
                                r matches GetHookStep::Query(q, f)
                                    && q.line@ == fuzzy_title_line(title)
                                    && f == GetHookFlow::AwaitFuzzy
                            }
                        },
                        GetHookFlow::AwaitFuzzy => {
                            if items@.len() == 0 {
                                r matches GetHookStep::Done(e)
                                    && e == Err::<VnData, ResponseError>(
                                    ResponseError::UnknownVn)
                            } else if items@.len() == 1 {
                                hook_data_outcome(m, items@[0].id, r)
                            } else {
                                r matches GetHookStep::Done(e) && (e matches Err(err)
                                    && err matches ResponseError::TooMany(n, t)
                                    && n == items@.len() && t@ == title)
                            }
                        },
                    },
                }
            }),
    {
        match event {
            RemoteEvent::Failed => GetHookStep::Done(Err(ResponseError::BadVndb)),
            RemoteEvent::Unexpected => GetHookStep::Done(Err(ResponseError::BadVndbResponse)),
            RemoteEvent::Raw(_) => GetHookStep::Done(Err(ResponseError::BadVndbResponse)),
            RemoteEvent::Vns(items) => match flow {
                GetHookFlow::AwaitExact => {
                    if items.len() == 1 {
                        self.hook_data_by_id(items[0].id)
                    } else {
                        let q = Get::vn_by_title(msg.0.as_str()).to_request();
                        GetHookStep::Query(q, GetHookFlow::AwaitFuzzy)
                    }
                },
                GetHookFlow::AwaitFuzzy => {
                    if items.len() == 0 {
                        GetHookStep::Done(Err(ResponseError::UnknownVn))
                    } else if items.len() == 1 {
                        self.hook_data_by_id(items[0].id)
                    } else {
                        let n = items.len();
                        GetHookStep::Done(Err(ResponseError::TooMany(n, msg.0.clone())))
                    }
                },
            },
        }
    }

    /// Reads the hooks of a remotely found id out of the local store.
    fn hook_data_by_id(&self, id: u64) -> (r: GetHookStep)
        ensures
            hook_data_outcome(self.store@, id, r),
    {
        match self.store.get_vn_data(id) {
            Some(d) => GetHookStep::Done(Ok(d)),
            None => GetHookStep::Done(Err(ResponseError::UnknownVn)),
        }
    }
}

/// `SetHook`: resolves a VN, inserting it locally when it is only known
/// remotely, then writes the hook row.
pub struct SetHook {
    pub title: String,
    pub version: String,
    pub code: String,
}

impl SetHook {
    pub fn new(title: String, version: String, code: String) -> (r: SetHook)
        ensures
            r.title@ == title@ && r.version@ == version@ && r.code@ == code@,
    {
        SetHook { title, version, code }
    }
}

/// Where the `SetHook` ladder stands.
pub enum SetHookFlow {
    /// The reference named an id the store does not know yet; its record is
    /// awaited.
    AwaitVnById(u64),
    AwaitExact,
    AwaitFuzzy,
}

/// What a `SetHook` round produced.
pub enum SetHookStep {
    Query(Request, SetHookFlow),
    Done(Result<HookView, ResponseError>),
}

/// The store after a VN row (with this id and title) is ensured and the
/// hook row is written.
pub open spec fn spec_set_hook(
    m: StoreModel,
    id: u64,
    title: Seq<char>,
    version: Seq<char>,
    code: Seq<char>,
) -> StoreModel {
    spec_put_hook(spec_put_vn(m, id, title), id, version, code)
}

/// A concluded hook write: the store took the row and the returned row
/// carries the written fields.
pub open spec fn set_hook_written(
    m0: StoreModel,
    m1: StoreModel,
    id: u64,
    title: Seq<char>,
    version: Seq<char>,
    code: Seq<char>,
    r: SetHookStep,
) -> bool {
    &&& m1 == spec_set_hook(m0, id, title, version, code)
    &&& (r matches SetHookStep::Done(e) && (e matches Ok(h)
        && h.vn_id == id && h.version@ == version && h.code@ == code))
}

impl Executor {
    /// Opens the `SetHook` ladder.
    pub fn handle_set_hook(&mut self, msg: &SetHook) -> (r: SetHookStep)
        requires
            old(self).store.wf(),
            old(self).store@.next_hook_id < u64::MAX,
        ensures
            final(self).store.wf(),
            ({
                let m = old(self).store@;
                let mi = final(self).store@;
                let title = msg.title@;
                match spec_parse_vndb_ref(title) {
                    Some((kind, id)) => {
                        if kind != Kind::Vn {
                            mi == m && (r matches SetHookStep::Done(e)
                                && e == Err::<HookView, ResponseError>(
                                ResponseError::InvalidVnId(kind, id)))
                        } else if has_vn(m, id) {
                            // the stored title is kept, whatever it is
                            exists|t: Seq<char>| set_hook_written(
                                m, mi, id, t, msg.version@, msg.code@, r)
                        } else {
                            mi == m && (r matches SetHookStep::Query(q, f)
                                && q.line@ == vn_by_id_line(id)
                                && f == SetHookFlow::AwaitVnById(id))
                        }
                    },
                    None => mi == m && (r matches SetHookStep::Query(q, f)
                        && q.line@ == exact_title_line(title)
                        && f == SetHookFlow::AwaitExact),
                }
            }),
    {
        match parse_vndb_ref(msg.title.as_str()) {
            Some((kind, id)) => {
                if !matches!(kind, Kind::Vn) {
                    return SetHookStep::Done(Err(ResponseError::InvalidVnId(kind, id)));
                }
                match self.store.get_vn(id) {
                    Some(vn) => {
                        proof {
                            let w = choose|w: int| 0 <= w < self.store@.vns.len()
                                && self.store@.vns[w] == vn@;
                            assert((#[trigger] self.store@.vns[w]).id == id);
                        }
                        let hv = self.store.put_hook(&vn, msg.version.clone(), msg.code.clone());
                        proof {
                            let m = old(self).store@;
                            assert(spec_put_vn(m, id, vn@.title) == m);
                            assert(set_hook_written(m, final(self).store@, id, vn@.title,
                                msg.version@, msg.code@,
                                SetHookStep::Done(Ok::<HookView, ResponseError>(hv))));
                        }
                        SetHookStep::Done(Ok(hv))
                    },
                    None => {
                        let q = Get::vn_by_id(id).to_request();
                        SetHookStep::Query(q, SetHookFlow::AwaitVnById(id))
                    },
                }
            },
            None => {
                let q = Get::vn_by_exact_title(msg.title.as_str()).to_request();
                SetHookStep::Query(q, SetHookFlow::AwaitExact)
            },
        }
    }

    /// Resumes the `SetHook` ladder with a decoded remote reply.
    pub fn resume_set_hook(&mut self, msg: &SetHook, flow: SetHookFlow, event: RemoteEvent)
        -> (r: SetHookStep)
        requires
            old(self).store.wf(),
            old(self).store@.next_hook_id < u64::MAX,
        ensures
            final(self).store.wf(),
            ({
                let m = old(self).store@;
                let mi = final(self).store@;
                let title = msg.title@;
                match event {
                    RemoteEvent::Failed => mi == m && (r matches SetHookStep::Done(e)
                        && e == Err::<HookView, ResponseError>(ResponseError::BadVndb)),
                    RemoteEvent::Unexpected | RemoteEvent::Raw(_) => mi == m
                        && (r matches SetHookStep::Done(e)
                        && e == Err::<HookView, ResponseError>(ResponseError::BadVndbResponse)),
                    RemoteEvent::Vns(items) => match flow {
                        SetHookFlow::AwaitVnById(_) => {
                            if items@.len() == 0 {
                                mi == m && (r matches SetHookStep::Done(e)
                                    && e == Err::<HookView, ResponseError>(
                                    ResponseError::UnknownVn))
                            } else {
                                remote_vn_written(m, mi, items@[0]@, msg.version@, msg.code@, r)
                            }
                        },
                        SetHookFlow::AwaitExact => {
                            if items@.len() == 1 {
                                remote_vn_written(m, mi, items@[0]@, msg.version@, msg.code@, r)
                            } else {
                                mi == m && (r matches SetHookStep::Query(q, f)
                                    && q.line@ == fuzzy_title_line(title)
                                    && f == SetHookFlow::AwaitFuzzy)
                            }
                        },
                        SetHookFlow::AwaitFuzzy => {
                            if items@.len() == 0 {
                                mi == m && (r matches SetHookStep::Done(e)
                                    && e == Err::<HookView, ResponseError>(
                                    ResponseError::UnknownVn))
                            } else if items@.len() == 1 {
                                remote_vn_written(m, mi, items@[0]@, msg.version@, msg.code@, r)
                            } else {
                                mi == m && (r matches SetHookStep::Done(e) && (e matches Err(err)
                                    && err matches ResponseError::TooMany(n, t)
                                    && n == items@.len() && t@ == title))
                            }
                        },
                    },
                }
            }),
    {
        match event {
            RemoteEvent::Failed => SetHookStep::Done(Err(ResponseError::BadVndb)),
            RemoteEvent::Unexpected => SetHookStep::Done(Err(ResponseError::BadVndbResponse)),
            RemoteEvent::Raw(_) => SetHookStep::Done(Err(ResponseError::BadVndbResponse)),
            RemoteEvent::Vns(mut items) => match flow {
                SetHookFlow::AwaitVnById(_) => {
                    if items.len() == 0 {
                        SetHookStep::Done(Err(ResponseError::UnknownVn))
                    } else {
                        let first = items.remove(0);
                        self.write_remote_vn(first, &msg.version, &msg.code)
                    }
                },
                SetHookFlow::AwaitExact => {
                    if items.len() == 1 {
                        let first = items.remove(0);
                        self.write_remote_vn(first, &msg.version, &msg.code)
                    } else {
                        let q = Get::vn_by_title(msg.title.as_str()).to_request();
                        SetHookStep::Query(q, SetHookFlow::AwaitFuzzy)
                    }
                },
                SetHookFlow::AwaitFuzzy => {
                    if items.len() == 0 {
                        SetHookStep::Done(Err(ResponseError::UnknownVn))
                    } else if items.len() == 1 {
                        let first = items.remove(0);
                        self.write_remote_vn(first, &msg.version, &msg.code)
                    } else {
                        let n = items.len();
                        SetHookStep::Done(Err(ResponseError::TooMany(n, msg.title.clone())))
                    }
                },
            },
        }
    }

    /// Ensures a local row for the remotely found VN, then writes the hook.
    fn write_remote_vn(&mut self, vn: RemoteVn, version: &String, code: &String)
        -> (r: SetHookStep)
        requires
            old(self).store.wf(),
            old(self).store@.next_hook_id < u64::MAX,
        ensures
            final(self).store.wf(),
            remote_vn_written(old(self).store@, final(self).store@, vn@, version@, code@, r),
    {
        let ghost m = old(self).store@;
        match vn.title {
            Some(title) => {
                let ghost t = title@;
                let row = self.store.put_vn(vn.id, title);
                let hv = self.store.put_hook(&row, version.clone(), code.clone());
                proof {
                    let mi = final(self).store@;
                    let step = SetHookStep::Done(Ok::<HookView, ResponseError>(hv));
                    assert(set_hook_written(m, mi, vn.id, t, version@, code@, step));
                }
                SetHookStep::Done(Ok(hv))
            },
            None => SetHookStep::Done(Err(ResponseError::Internal(untitled_vn_text()))),
        }
    }
}

/// The report for a remote record that carries no title.
pub open spec fn spec_untitled_vn_text() -> Seq<char> {
    "VNDB returned a VN without title"@
}

fn untitled_vn_text() -> (r: String)
    ensures
        r@ == spec_untitled_vn_text(),
{
    let mut out = String::new();
    out.append("VNDB returned a VN without title");
    proof {
        assert(out@ =~= spec_untitled_vn_text());
    }
    out
}

/// How writing a hook for a remotely found record concludes: with a title,
/// the row is ensured and the hook written; a record without title is an
/// internal error and leaves the store alone.
pub open spec fn remote_vn_written(
    m0: StoreModel,
    m1: StoreModel,
    vn: RemoteVnModel,
    version: Seq<char>,
    code: Seq<char>,
    r: SetHookStep,
) -> bool {
    match vn.title {
        Some(t) => {
            // the stored title wins where a row already exists
            if has_vn(m0, vn.id) {
                exists|t2: Seq<char>| set_hook_written(m0, m1, vn.id, t2, version, code, r)
            } else {
                set_hook_written(m0, m1, vn.id, t, version, code, r)
            }
        },
        None => m1 == m0 && (r matches SetHookStep::Done(e)
            && (e matches Err(err) && err matches ResponseError::Internal(d)
                && d@ == spec_untitled_vn_text())),
    }
}

/// `DelHook`: resolves a VN and removes the hook row for one version.
pub struct DelHook {
    pub title: String,
    pub version: String,
}

impl DelHook {
    pub fn new(title: String, version: String) -> (r: DelHook)
        ensures
            r.title@ == title@ && r.version@ == version@,
    {
        DelHook { title, version }
    }
}

/// Where the `DelHook` ladder stands.
pub enum DelHookFlow {
    AwaitExact,
    AwaitFuzzy,
}

/// What a `DelHook` round produced.
pub enum DelHookStep {
    Query(Request, DelHookFlow),
    Done(Result<usize, ResponseError>),
}

/// How removing the hook of a resolved id concludes: with a local row, the
/// hook row of the version goes and the count of removed rows is returned;
/// without one, nothing changes and the VN is unknown.
pub open spec fn hook_removed(
    m0: StoreModel,
    m1: StoreModel,
    id: u64,
    version: Seq<char>,
    r: DelHookStep,
) -> bool {
    if has_vn(m0, id) {
        &&& m1 == spec_delete_hook(m0, id, version)
        &&& (r matches DelHookStep::Done(e) && (e matches Ok(n)
            && n == m0.hooks.len() - m1.hooks.len()
            && ((n == 0) <==> !has_hook(m0, id, version))))
    } else {
        m1 == m0 && (r matches DelHookStep::Done(e)
            && e == Err::<usize, ResponseError>(ResponseError::UnknownVn))
    }
}

impl Executor {
    /// Opens the `DelHook` ladder.
    pub fn handle_del_hook(&mut self, msg: &DelHook) -> (r: DelHookStep)
        requires
            old(self).store.wf(),
        ensures
            final(self).store.wf(),
            ({
                let m = old(self).store@;
                let mi = final(self).store@;
                let title = msg.title@;
                match spec_parse_vndb_ref(title) {
                    Some((kind, id)) => {
                        if kind != Kind::Vn {
                            mi == m && (r matches DelHookStep::Done(e)
                                && e == Err::<usize, ResponseError>(
                                ResponseError::InvalidVnId(kind, id)))
                        } else {
                            hook_removed(m, mi, id, msg.version@, r)
                        }
                    },
                    None => {
                        let found = m.vns.filter(|v: VnModel| contains_ci(v.title, title));
                        if found.len() == 1 {
                            hook_removed(m, mi, found[0].id, msg.version@, r)
                        } else if found.len() == 0 {
                            mi == m && (r matches DelHookStep::Query(q, f)
                                && q.line@ == exact_title_line(title)
                                && f == DelHookFlow::AwaitExact)
                        } else {
                            mi == m && (r matches DelHookStep::Done(e) && (e matches Err(err)
                                && err matches ResponseError::TooManyDb(n)
                                && n == found.len()))
                        }
                    },
                }
            }),
    {
        match parse_vndb_ref(msg.title.as_str()) {
            Some((kind, id)) => {
                if !matches!(kind, Kind::Vn) {
                    return DelHookStep::Done(Err(ResponseError::InvalidVnId(kind, id)));
                }
                self.remove_hook_by_id(id, &msg.version)
            },
            None => {
                let mut vns = self.store.search_vn(msg.title.as_str());
                let ghost found = self.store@.vns.filter(
                    |v: VnModel| contains_ci(v.title, msg.title@));
                if vns.len() == 1 {
                    let vn = vns.remove(0);
                    proof {
                        assert(vn@ == found[0]);
                    }
                    self.remove_hook_by_id(vn.id, &msg.version)
                } else if vns.len() == 0 {
                    let q = Get::vn_by_exact_title(msg.title.as_str()).to_request();
                    DelHookStep::Query(q, DelHookFlow::AwaitExact)
                } else {
                    DelHookStep::Done(Err(ResponseError::TooManyDb(vns.len())))
                }
            },
        }
    }

    /// Resumes the `DelHook` ladder with a decoded remote reply.
    pub fn resume_del_hook(&mut self, msg: &DelHook, flow: DelHookFlow, event: RemoteEvent)
        -> (r: DelHookStep)
        requires
            old(self).store.wf(),
        ensures
            final(self).store.wf(),
            ({
                let m = old(self).store@;
                let mi = final(self).store@;
                let title = msg.title@;
                match event {
                    RemoteEvent::Failed => mi == m && (r matches DelHookStep::Done(e)
                        && e == Err::<usize, ResponseError>(ResponseError::BadVndb)),
                    RemoteEvent::Unexpected | RemoteEvent::Raw(_) => mi == m
                        && (r matches DelHookStep::Done(e)
                        && e == Err::<usize, ResponseError>(ResponseError::BadVndbResponse)),
                    RemoteEvent::Vns(items) => match flow {
                        DelHookFlow::AwaitExact => {
                            if items@.len() == 1 {
                                hook_removed(m, mi, items@[0].id, msg.version@, r)
                            } else {
                                mi == m && (r matches DelHookStep::Query(q, f)
                                    && q.line@ == fuzzy_title_line(title)
                                    && f == DelHookFlow::AwaitFuzzy)
                            }
                        },
                        DelHookFlow::AwaitFuzzy => {
                            if items@.len() == 0 {
                                mi == m && (r matches DelHookStep::Done(e)
                                    && e == Err::<usize, ResponseError>(
                                    ResponseError::UnknownVn))
                            } else if items@.len() == 1 {
                                hook_removed(m, mi, items@[0].id, msg.version@, r)
                            } else {
                                mi == m && (r matches DelHookStep::Done(e) && (e matches Err(err)
                                    && err matches ResponseError::TooMany(n, t)
                                    && n == items@.len() && t@ == title))
                            }
                        },
                    },
                }
            }),
    {
        match event {
            RemoteEvent::Failed => DelHookStep::Done(Err(ResponseError::BadVndb)),
            RemoteEvent::Unexpected => DelHookStep::Done(Err(ResponseError::BadVndbResponse)),
            RemoteEvent::Raw(_) => DelHookStep::Done(Err(ResponseError::BadVndbResponse)),
            RemoteEvent::Vns(items) => match flow {
                DelHookFlow::AwaitExact => {
                    if items.len() == 1 {
                        self.remove_hook_by_id(items[0].id, &msg.version)
                    } else {
                        let q = Get::vn_by_title(msg.title.as_str()).to_request();
                        DelHookStep::Query(q, DelHookFlow::AwaitFuzzy)
                    }
                },
                DelHookFlow::AwaitFuzzy => {
                    if items.len() == 0 {
                        DelHookStep::Done(Err(ResponseError::UnknownVn))
                    } else if items.len() == 1 {
                        self.remove_hook_by_id(items[0].id, &msg.version)
                    } else {
                        let n = items.len();
                        DelHookStep::Done(Err(ResponseError::TooMany(n, msg.title.clone())))
                    }
                },
            },
        }
    }

    /// Deletes the hook of one version for a resolved id.
    fn remove_hook_by_id(&mut self, id: u64, version: &String) -> (r: DelHookStep)
        requires
            old(self).store.wf(),
        ensures
            final(self).store.wf(),
            hook_removed(old(self).store@, final(self).store@, id, version@, r),
    {
        match self.store.get_vn(id) {
            Some(vn) => {
                proof {
                    let w = choose|w: int| 0 <= w < self.store@.vns.len()
                        && self.store@.vns[w] == vn@;
                    assert((#[trigger] self.store@.vns[w]).id == id);
                }
                let n = self.store.delete_hook(&vn, version);
                DelHookStep::Done(Ok(n))
            },
            None => DelHookStep::Done(Err(ResponseError::UnknownVn)),
        }
    }
}

/// `DelVn`: resolves a VN and removes its row and all of its hooks.
pub struct DelVn(pub String);

/// Where the `DelVn` ladder stands.
pub enum DelVnFlow {
    AwaitExact,
    AwaitFuzzy,
}

/// What a `DelVn` round produced.
pub enum DelVnStep {
    Query(Request, DelVnFlow),
    Done(Result<usize, ResponseError>),
}

/// The conclusion of removing a resolved id: its row and hooks go, and the
/// count of removed VN rows is returned; zero only means no such row.
pub open spec fn vn_removed(m0: StoreModel, m1: StoreModel, id: u64, r: DelVnStep) -> bool {
    &&& m1 == spec_delete_vn(m0, id)
    &&& (r matches DelVnStep::Done(e) && (e matches Ok(n)
        && n == m0.vns.len() - m1.vns.len()
        && ((n == 0) <==> !has_vn(m0, id))))
}

impl Executor {
    /// Opens the `DelVn` ladder: a reference deletes directly; a title is
    /// resolved locally first, then remotely.
    pub fn handle_del_vn(&mut self, msg: &DelVn) -> (r: DelVnStep)
        requires
            old(self).store.wf(),
        ensures
            final(self).store.wf(),
            ({
                let m = old(self).store@;
                let mi = final(self).store@;
                let title = msg.0@;
                match spec_parse_vndb_ref(title) {
                    Some((kind, id)) => {
                        if kind != Kind::Vn {
                            mi == m && (r matches DelVnStep::Done(e)
                                && e == Err::<usize, ResponseError>(
                                ResponseError::InvalidVnId(kind, id)))
                        } else {
                            vn_removed(m, mi, id, r)
                        }
                    },
                    None => {
                        let found = m.vns.filter(|v: VnModel| contains_ci(v.title, title));
                        if found.len() == 1 {
                            vn_removed(m, mi, found[0].id, r)
                        } else if found.len() == 0 {
                            mi == m && (r matches DelVnStep::Query(q, f)
                                && q.line@ == exact_title_line(title)
                                && f == DelVnFlow::AwaitExact)
                        } else {
                            mi == m && (r matches DelVnStep::Done(e) && (e matches Err(err)
                                && err matches ResponseError::TooManyDb(n)
                                && n == found.len()))
                        }
                    },
                }
            }),
    {
        match parse_vndb_ref(msg.0.as_str()) {
            Some((kind, id)) => {
                if !matches!(kind, Kind::Vn) {
                    return DelVnStep::Done(Err(ResponseError::InvalidVnId(kind, id)));
                }
                let n = self.store.delete_vn(id);
                DelVnStep::Done(Ok(n))
            },
            None => {
                let mut vns = self.store.search_vn(msg.0.as_str());
                let ghost found = self.store@.vns.filter(
                    |v: VnModel| contains_ci(v.title, msg.0@));
                if vns.len() == 1 {
                    let vn = vns.remove(0);
                    proof {
                        assert(vn@ == found[0]);
                    }
                    let n = self.store.delete_vn(vn.id);
                    DelVnStep::Done(Ok(n))
                } else if vns.len() == 0 {
                    let q = Get::vn_by_exact_title(msg.0.as_str()).to_request();
                    DelVnStep::Query(q, DelVnFlow::AwaitExact)
                } else {
                    DelVnStep::Done(Err(ResponseError::TooManyDb(vns.len())))
                }
            },
        }
    }

    /// Resumes the `DelVn` ladder with a decoded remote reply.
    pub fn resume_del_vn(&mut self, msg: &DelVn, flow: DelVnFlow, event: RemoteEvent)
        -> (r: DelVnStep)
        requires
            old(self).store.wf(),
        ensures
            final(self).store.wf(),
            ({
                let m = old(self).store@;
                let mi = final(self).store@;
                let title = msg.0@;
                match event {
                    RemoteEvent::Failed => mi == m && (r matches DelVnStep::Done(e)
                        && e == Err::<usize, ResponseError>(ResponseError::BadVndb)),
                    RemoteEvent::Unexpected | RemoteEvent::Raw(_) => mi == m
                        && (r matches DelVnStep::Done(e)
                        && e == Err::<usize, ResponseError>(ResponseError::BadVndbResponse)),
                    RemoteEvent::Vns(items) => match flow {
                        DelVnFlow::AwaitExact => {
                            if items@.len() == 1 {
                                vn_removed(m, mi, items@[0].id, r)
                            } else {
                                mi == m && (r matches DelVnStep::Query(q, f)
                                    && q.line@ == fuzzy_title_line(title)
                                    && f == DelVnFlow::AwaitFuzzy)
                            }
                        },
                        DelVnFlow::AwaitFuzzy => {
                            if items@.len() == 0 {
                                mi == m && (r matches DelVnStep::Done(e)
                                    && e == Err::<usize, ResponseError>(
                                    ResponseError::UnknownVn))
                            } else if items@.len() == 1 {
                                vn_removed(m, mi, items@[0].id, r)
                            } else {
                                mi == m && (r matches DelVnStep::Done(e) && (e matches Err(err)
                                    && err matches ResponseError::TooMany(n, t)
                                    && n == items@.len() && t@ == title))
                            }
                        },
                    },
                }
            }),
    {
        match event {
            RemoteEvent::Failed => DelVnStep::Done(Err(ResponseError::BadVndb)),
            RemoteEvent::Unexpected => DelVnStep::Done(Err(ResponseError::BadVndbResponse)),
            RemoteEvent::Raw(_) => DelVnStep::Done(Err(ResponseError::BadVndbResponse)),
            RemoteEvent::Vns(items) => match flow {
                DelVnFlow::AwaitExact => {
                    if items.len() == 1 {
                        let n = self.store.delete_vn(items[0].id);
                        DelVnStep::Done(Ok(n))
                    } else {
                        let q = Get::vn_by_title(msg.0.as_str()).to_request();
                        DelVnStep::Query(q, DelVnFlow::AwaitFuzzy)
                    }
                },
                DelVnFlow::AwaitFuzzy => {
                    if items.len() == 0 {
                        DelVnStep::Done(Err(ResponseError::UnknownVn))
                    } else if items.len() == 1 {
                        let n = self.store.delete_vn(items[0].id);
                        DelVnStep::Done(Ok(n))
                    } else {
                        let n = items.len();
                        DelVnStep::Done(Err(ResponseError::TooMany(n, msg.0.clone())))
                    }
                },
            },
        }
    }
}

} // verus!
