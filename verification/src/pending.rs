//! The dispatcher's command machine: a chat message parses into a command,
//! and each command walks a ladder of remote lookups and store operations
//! until it has a reply. The machine advances one remote exchange at a
//! time: a step either replies, or hands back the request to put on the
//! wire together with the state to resume with.

use vstd::prelude::*;
use crate::protocol::{Kind, Request, Get, kind_char};
use crate::store::{Store, StoreModel, has_vn, has_hook, hooks_of, spec_put_hook, spec_put_vn,
    spec_delete_vn, spec_delete_hook};
use crate::models::{Vn, VnModel, HookModel};
use crate::exec::{RemoteEvent, RemoteVn, vn_by_id_line, exact_title_line, fuzzy_title_line};
use crate::text::{
    chars_of, skip_spaces_exec, trim_seq, trim_str, is_space, dec_digits, fmt_u64,
    is_u64_digits, digits_val, plus_for_space_runs, replace_space_runs,
};
use crate::args::{shell_split, spec_shell_split, bad_quote_message};
use crate::command::{spec_command_parts, spec_scan_refs, spec_has_ref_match,
    extract_vndb_references, invalid_args_text, range_is};

verus! {

broadcast use vstd::string::group_string_axioms;

/// What a finished command says back: one line, or one line per reference.
pub enum CommandResult {
    Single(String),
    Multi(Vec<String>),
}

/// The states of the command machine. The `...SerachVn` states keep the
/// spelling their wire-format sibling has always had.
pub enum Command {
    Pong,
    Help,
    DbStats,
    GetHookHelp,
    SetHookHelp(Option<String>),
    Vn(Option<String>),
    GetHookById(u64),
    GetHookSerachVn(String),
    GetHook(String),
    SetHookById(u64, Option<String>, String, String),
    SetHookByIdGetVn(u64, String, String),
    SetHookSerachVn(String, String, String),
    SetHook(String, String, String),
    DelHookById(u64, String),
    DelHookSearchVn(String, String),
    DelHook(String, String),
    DelHookHelp(Option<String>),
    DelVnById(u64),
    DelVnSearchVn(String),
    DelVn(String),
    DelVnHelp,
    VnSearch(String),
    VnRef(Vec<(Kind, u64)>),
    /// References in flight: the remaining list, the position whose reply
    /// is awaited, and the lines produced so far.
    VnRefAt(Vec<(Kind, u64)>, usize, Vec<String>),
}

/// A VN id written as `v<digits>`, the whole of the text.
pub open spec fn spec_vn_id_ref(s: Seq<char>) -> Option<u64> {
    if s.len() >= 2 && s[0] == 'v' && is_u64_digits(s, 1, s.len() as int) {
        Some(digits_val(s.subrange(1, s.len() as int)) as u64)
    } else {
        None
    }
}

/// Reads a token of the form `v<digits>`; unlike the free-text reference
/// this accepts a zero id, as the stored catalogue simply has no such row.
pub fn parse_vn_id_ref(text: &str) -> (r: Option<u64>)
    ensures
        r == spec_vn_id_ref(text@),
{
    let s = chars_of(text);
    if s.len() < 2 || s[0] != 'v' {
        return None;
    }
    crate::text::parse_u64(&s, 1, s.len())
}

/// The parse of one chat message into the machine's starting state.
impl Command {
    /// Parses one chat message. Dot commands map to their starting states;
    /// any other message is scanned for embedded references.
    pub fn from_str(text: &str) -> (r: Option<Command>)
        ensures
            ({
                let s = text@;
                match spec_command_parts(s) {
                    Some((verb, arg)) => {
                        &&& verb == "ping"@ ==> r == Some(Command::Pong)
                        &&& verb == "help"@ ==> r == Some(Command::Help)
                        &&& verb == "db_stats"@ ==> r == Some(Command::DbStats)
                        &&& verb == "vn"@ ==> match arg {
                            Some(a) => r matches Some(c) && (c matches Command::Vn(t)
                                && t matches Some(title) && title@ == a),
                            None => r == Some(Command::Vn(None)),
                        }
                        &&& verb == "hook"@ ==> match arg {
                            Some(a) => match spec_vn_id_ref(trim_seq(a)) {
                                Some(id) => r == Some(Command::GetHookById(id)),
                                None => r matches Some(c) && (c matches Command::GetHook(t)
                                    && t@ == trim_seq(a)),
                            },
                            None => r == Some(Command::GetHookHelp),
                        }
                        &&& verb == "del_vn"@ ==> match arg {
                            Some(a) => match spec_vn_id_ref(trim_seq(a)) {
                                Some(id) => r == Some(Command::DelVnById(id)),
                                None => r matches Some(c) && (c matches Command::DelVn(t)
                                    && t@ == trim_seq(a)),
                            },
                            None => r == Some(Command::DelVnHelp),
                        }
                        &&& verb == "set_hook"@ ==> match arg {
                            Some(a) => match spec_shell_split(a) {
                                Ok(parts) => {
                                    if parts.len() == 3 {
                                        match spec_vn_id_ref(parts[0]) {
                                            Some(id) => r matches Some(c)
                                                && (c matches Command::SetHookById(i, t, v, cd)
                                                && i == id && t is None && v@ == parts[1]
                                                && cd@ == parts[2]),
                                            None => r matches Some(c)
                                                && (c matches Command::SetHook(t, v, cd)
                                                && t@ == parts[0] && v@ == parts[1]
                                                && cd@ == parts[2]),
                                        }
                                    } else {
                                        r matches Some(c) && (c matches Command::SetHookHelp(m)
                                            && m matches Some(msg)
                                            && msg@ == invalid_args_text(parts.len() as int, 3))
                                    }
                                },
                                Err(p) => r matches Some(c) && (c matches Command::SetHookHelp(m)
                                    && m matches Some(msg) && msg@ == bad_quote_message(p)),
                            },
                            None => r matches Some(c) && (c matches Command::SetHookHelp(m)
                                && m is None),
                        }
                        &&& verb == "del_hook"@ ==> match arg {
                            Some(a) => match spec_shell_split(a) {
                                Ok(parts) => {
                                    if parts.len() == 2 {
                                        match spec_vn_id_ref(parts[0]) {
                                            Some(id) => r matches Some(c)
                                                && (c matches Command::DelHookById(i, v)
                                                && i == id && v@ == parts[1]),
                                            None => r matches Some(c)
                                                && (c matches Command::DelHook(t, v)
                                                && t@ == parts[0] && v@ == parts[1]),
                                        }
                                    } else {
                                        r matches Some(c) && (c matches Command::DelHookHelp(m)
                                            && m matches Some(msg)
                                            && msg@ == invalid_args_text(parts.len() as int, 3))
                                    }
                                },
                                Err(p) => r matches Some(c) && (c matches Command::DelHookHelp(m)
                                    && m matches Some(msg) && msg@ == bad_quote_message(p)),
                            },
                            None => r matches Some(c) && (c matches Command::DelHookHelp(m)
                                && m is None),
                        }
                        &&& (verb != "ping"@ && verb != "help"@ && verb != "db_stats"@
                            && verb != "vn"@ && verb != "hook"@ && verb != "del_vn"@
                            && verb != "set_hook"@ && verb != "del_hook"@)
                            ==> r is None
                    },
                    None => {
                        if spec_has_ref_match(s) {
                            r matches Some(c) && (c matches Command::VnRef(refs) && ({
                                let found = spec_scan_refs(s, 0);
                                let kept = if found.len() <= 5 { found } else { found.take(5) };
                                &&& refs@.len() == kept.len()
                                &&& (forall|i: int| 0 <= i < kept.len()
                                    ==> #[trigger] refs@[i]
                                        == (kept[i].kind, kept[i].id))
                            }))
                        } else {
                            r is None
                        }
                    },
                }
            }),
    {
        proof {
            reveal_strlit("ping");
            reveal_strlit("help");
            reveal_strlit("db_stats");
            reveal_strlit("vn");
            reveal_strlit("hook");
            reveal_strlit("del_vn");
            reveal_strlit("set_hook");
            reveal_strlit("del_hook");
            assert("ping"@.len() == 4 && "ping"@[0] == 'p');
            assert("help"@.len() == 4 && "help"@[0] == 'h' && "help"@[1] == 'e');
            assert("hook"@.len() == 4 && "hook"@[0] == 'h' && "hook"@[1] == 'o');
            assert("db_stats"@.len() == 8 && "db_stats"@[0] == 'd');
            assert("vn"@.len() == 2);
            assert("del_vn"@.len() == 6);
            assert("set_hook"@.len() == 8 && "set_hook"@[0] == 's');
            assert("del_hook"@.len() == 8 && "del_hook"@[0] == 'd' && "del_hook"@[1] == 'e');
        }
        let s = chars_of(text);
        let i = skip_spaces_exec(&s, 0);
        if i < s.len() && s[i] == '.' && i + 1 < s.len() && !is_space(s[i + 1]) {
            let ve = crate::args::bare_end_exec(&s, i + 1);
            let we = skip_spaces_exec(&s, ve);
            let has_arg = we > ve && we < s.len();
            if range_is(&s, i + 1, ve, "ping") {
                Some(Command::Pong)
            } else if range_is(&s, i + 1, ve, "help") {
                Some(Command::Help)
            } else if range_is(&s, i + 1, ve, "db_stats") {
                Some(Command::DbStats)
            } else if range_is(&s, i + 1, ve, "vn") {
                if has_arg {
                    let title = crate::text::substring_of(&s, we, s.len());
                    Some(Command::Vn(Some(title)))
                } else {
                    Some(Command::Vn(None))
                }
            } else if range_is(&s, i + 1, ve, "hook") {
                if has_arg {
                    let raw = crate::text::substring_of(&s, we, s.len());
                    let title = trim_str(raw.as_str());
                    match parse_vn_id_ref(title.as_str()) {
                        Some(id) => Some(Command::GetHookById(id)),
                        None => Some(Command::GetHook(title)),
                    }
                } else {
                    Some(Command::GetHookHelp)
                }
            } else if range_is(&s, i + 1, ve, "del_vn") {
                if has_arg {
                    let raw = crate::text::substring_of(&s, we, s.len());
                    let title = trim_str(raw.as_str());
                    match parse_vn_id_ref(title.as_str()) {
                        Some(id) => Some(Command::DelVnById(id)),
                        None => Some(Command::DelVn(title)),
                    }
                } else {
                    Some(Command::DelVnHelp)
                }
            } else if range_is(&s, i + 1, ve, "set_hook") {
                if has_arg {
                    let raw = crate::text::substring_of(&s, we, s.len());
                    match shell_split(raw.as_str()) {
                        Ok(mut parts) => {
                            if parts.len() == 3 {
                                let title = parts.remove(0);
                                let version = parts.remove(0);
                                let code = parts.remove(0);
                                match parse_vn_id_ref(title.as_str()) {
                                    Some(id) => Some(Command::SetHookById(
                                        id, None, version, code)),
                                    None => Some(Command::SetHook(title, version, code)),
                                }
                            } else {
                                Some(Command::SetHookHelp(Some(
                                    crate::command::invalid_args_reply(parts.len(), 3))))
                            }
                        },
                        Err(e) => Some(Command::SetHookHelp(Some(e))),
                    }
                } else {
                    Some(Command::SetHookHelp(None))
                }
            } else if range_is(&s, i + 1, ve, "del_hook") {
                if has_arg {
                    let raw = crate::text::substring_of(&s, we, s.len());
                    match shell_split(raw.as_str()) {
                        Ok(mut parts) => {
                            if parts.len() == 2 {
                                let title = parts.remove(0);
                                let version = parts.remove(0);
                                match parse_vn_id_ref(title.as_str()) {
                                    Some(id) => Some(Command::DelHookById(id, version)),
                                    None => Some(Command::DelHook(title, version)),
                                }
                            } else {
                                Some(Command::DelHookHelp(Some(
                                    crate::command::invalid_args_reply(parts.len(), 3))))
                            }
                        },
                        Err(e) => Some(Command::DelHookHelp(Some(e))),
                    }
                } else {
                    Some(Command::DelHookHelp(None))
                }
            } else {
                None
            }
        } else {
            proof {
                assert(spec_command_parts(s@) is None);
            }
            match extract_vndb_references(text) {
                Some(refs) => {
                    let mut out: Vec<(Kind, u64)> = Vec::new();
                    let ghost found = spec_scan_refs(text@, 0);
                    let ghost kept = if found.len() <= 5 { found } else { found.take(5) };
                    let mut k: usize = 0;
                    while k < 5
                        invariant
                            found == spec_scan_refs(text@, 0),
                            kept == if found.len() <= 5 { found } else { found.take(5) },
                            k <= 5,
                            forall|i: int| 0 <= i < 5 ==> #[trigger] refs.refs[i]
                                == if i < found.len() && i < 5 {
                                    Some(found[i])
                                } else {
                                    None::<crate::command::Ref>
                                },
                            out@.len() == (if k <= kept.len() { k as int } else {
                                kept.len() as int }),
                            forall|i: int| 0 <= i < out@.len()
                                ==> #[trigger] out@[i] == (kept[i].kind, kept[i].id),
                        decreases 5 - k,
                    {
                        match ref_slot_of(&refs, k) {
                            Some(rf) => {
                                out.push((rf.kind, rf.id));
                            },
                            None => (),
                        }
                        k = k + 1;
                    }
                    Some(Command::VnRef(out))
                },
                None => None,
            }
        }
    }
}

/// The `i`-th scanned reference, if there is one.
fn ref_slot_of(refs: &crate::command::Refs, i: usize) -> (r: Option<crate::command::Ref>)
    requires
        i < 5,
    ensures
        r == refs.refs[i as int],
{
    match refs.refs[i] {
        Some(rf) => Some(rf),
        None => None,
    }
}

/// The one VN row with this id (meaningful under well-formedness when the
/// row exists).
pub open spec fn spec_vn_of(m: StoreModel, id: u64) -> VnModel {
    m.vns[choose|i: int| 0 <= i < m.vns.len() && (#[trigger] m.vns[i]).id == id]
}

/// Under well-formedness a contained row with an id is the row of that id.
pub proof fn lemma_vn_row(m: StoreModel, v: VnModel)
    requires
        crate::store::store_wf(m),
        m.vns.contains(v),
    ensures
        spec_vn_of(m, v.id) == v,
        has_vn(m, v.id),
{
    let i = choose|i: int| 0 <= i < m.vns.len() && m.vns[i] == v;
    assert((#[trigger] m.vns[i]).id == v.id);
    let j = choose|j: int| 0 <= j < m.vns.len() && (#[trigger] m.vns[j]).id == v.id;
    if i != j {
        if i < j {
            assert(m.vns[i].id != m.vns[j].id);
        } else {
            assert(m.vns[j].id != m.vns[i].id);
        }
    }
}

/// The hook lines of a reply, joined by ` | `.
pub open spec fn hooks_lines(hooks: Seq<HookModel>) -> Seq<char>
    decreases hooks.len(),
{
    if hooks.len() == 0 {
        Seq::empty()
    } else if hooks.len() == 1 {
        hooks[0].version + ": "@ + hooks[0].code
    } else {
        hooks_lines(hooks.drop_last()) + " | "@ + hooks.last().version + ": "@
            + hooks.last().code
    }
}

/// The reply to a hook lookup for a resolved id: the title with the one
/// code, or with every version and code.
pub open spec fn get_hook_reply(m: StoreModel, id: u64) -> Seq<char> {
    if !has_vn(m, id) {
        "No hook exists"@
    } else {
        let title = spec_vn_of(m, id).title;
        let hooks = hooks_of(m, id);
        if hooks.len() == 0 {
            "No hooks registered"@
        } else if hooks.len() == 1 {
            title + " - "@ + hooks[0].code
        } else {
            title + " - "@ + hooks_lines(hooks)
        }
    }
}

/// The reply to a successful hook write.
pub open spec fn added_hook_text(code: Seq<char>, title: Seq<char>) -> Seq<char> {
    "Added hook '"@ + code + "' for VN: "@ + title
}

/// The title the written row replies with: the stored one where a row
/// already exists, the fetched one otherwise.
pub open spec fn row_title(m: StoreModel, id: u64, title: Seq<char>) -> Seq<char> {
    if has_vn(m, id) {
        spec_vn_of(m, id).title
    } else {
        title
    }
}

/// The reply when a title search has too many hits, with white-space runs
/// of the query written as `+` for the search link.
pub open spec fn too_many_text(num: int, title: Seq<char>) -> Seq<char> {
    "There are too many hits='"@ + dec_digits(num)
        + "'. Try yourself -> https://vndb.org/v/all?sq="@ + plus_for_space_runs(title)
}

/// The reply naming one remote object, with its link.
pub open spec fn ref_line_text(kind: Kind, id: u64, label: Seq<char>) -> Seq<char> {
    seq![kind_char(kind)] + dec_digits(id as int) + ": "@ + label
        + " - https://vndb.org/"@ + seq![kind_char(kind)] + dec_digits(id as int)
}

/// The reply naming a found VN, with its link.
pub open spec fn vn_link_text(title: Seq<char>, id: u64) -> Seq<char> {
    title + " - https://vndb.org/v"@ + dec_digits(id as int)
}

/// The store-count reply.
pub open spec fn db_stats_text(vns: int, hooks: int) -> Seq<char> {
    "DB has "@ + dec_digits(vns) + " VNs and "@ + dec_digits(hooks) + " Hooks"@
}

/// The reply when no hook row for the version exists.
pub open spec fn no_hook_version_text(version: Seq<char>) -> Seq<char> {
    "No hook for the version '"@ + version + "' exists"@
}

/// Removing a hook: the store afterwards and the reply.
pub open spec fn del_hook_by_id_outcome(m: StoreModel, id: u64, version: Seq<char>)
    -> (StoreModel, Seq<char>) {
    if !has_vn(m, id) {
        (m, "No hook for such VN exists"@)
    } else if !has_hook(m, id, version) {
        (spec_delete_hook(m, id, version), no_hook_version_text(version))
    } else {
        (spec_delete_hook(m, id, version), "Removed hook"@)
    }
}

/// Removing a VN: the store afterwards and the reply.
pub open spec fn del_vn_by_id_outcome(m: StoreModel, id: u64) -> (StoreModel, Seq<char>) {
    if !has_vn(m, id) {
        (spec_delete_vn(m, id), "No hooks exists for VN"@)
    } else {
        (spec_delete_vn(m, id), "Removed VN with all hooks"@)
    }
}

/// Writing a hook once the VN row is ensured: the store afterwards and the
/// reply.
pub open spec fn set_hook_outcome(
    m: StoreModel,
    id: u64,
    title: Seq<char>,
    version: Seq<char>,
    code: Seq<char>,
) -> (StoreModel, Seq<char>) {
    (
        spec_put_hook(spec_put_vn(m, id, title), id, version, code),
        added_hook_text(code, row_title(m, id, title)),
    )
}

/// What one advance of the machine produced: a reply, the next request to
/// put on the wire with the state to resume, or a terminal failure.
pub enum StepResult {
    Reply(CommandResult),
    Query(Request, Command),
    Failed(String),
}

/// The states that wait for a remote reply.
pub open spec fn is_remote_state(cmd: Command) -> bool {
    match cmd {
        Command::Vn(t) => t is Some,
        Command::VnSearch(_) => true,
        Command::GetHook(_) => true,
        Command::GetHookSerachVn(_) => true,
        Command::SetHook(_, _, _) => true,
        Command::SetHookSerachVn(_, _, _) => true,
        Command::SetHookByIdGetVn(_, _, _) => true,
        Command::DelHook(_, _) => true,
        Command::DelHookSearchVn(_, _) => true,
        Command::DelVn(_) => true,
        Command::DelVnSearchVn(_) => true,
        Command::VnRefAt(_, _, _) => true,
        _ => false,
    }
}

fn single(text: String) -> (r: StepResult)
    ensures
        r matches StepResult::Reply(c) && (c matches CommandResult::Single(t) && t@ == text@),
{
    StepResult::Reply(CommandResult::Single(text))
}

fn single_lit(word: &str) -> (r: StepResult)
    ensures
        r matches StepResult::Reply(c) && (c matches CommandResult::Single(t) && t@ == word@),
{
    let mut out = String::new();
    out.append(word);
    proof {
        assert(out@ =~= word@);
    }
    StepResult::Reply(CommandResult::Single(out))
}

/// Renders the too-many-hits reply.
pub fn return_too_many_vn_hits(num: usize, title: &str) -> (r: CommandResult)
    ensures
        r matches CommandResult::Single(t) && t@ == too_many_text(num as int, title@),
{
    let mut out = String::new();
    out.append("There are too many hits='");
    let digits = fmt_u64(num as u64);
    out.append(digits.as_str());
    out.append("'. Try yourself -> https://vndb.org/v/all?sq=");
    let plussed = replace_space_runs(title);
    out.append(plussed.as_str());
    proof {
        assert(out@ =~= too_many_text(num as int, title@));
    }
    CommandResult::Single(out)
}

fn vn_link_reply(title: &str, id: u64) -> (r: StepResult)
    ensures
        r matches StepResult::Reply(c) && (c matches CommandResult::Single(t)
            && t@ == vn_link_text(title@, id)),
{
    let mut out = String::new();
    out.append(title);
    out.append(" - https://vndb.org/v");
    let digits = fmt_u64(id);
    out.append(digits.as_str());
    proof {
        assert(out@ =~= vn_link_text(title@, id));
    }
    StepResult::Reply(CommandResult::Single(out))
}

fn added_hook_reply(code: &str, title: &str) -> (r: String)
    ensures
        r@ == added_hook_text(code@, title@),
{
    let mut out = String::new();
    out.append("Added hook '");
    out.append(code);
    out.append("' for VN: ");
    out.append(title);
    proof {
        assert(out@ =~= added_hook_text(code@, title@));
    }
    out
}

fn failed_remote() -> (r: StepResult)
    ensures
        r matches StepResult::Failed(m) && m@ == "Unexpected VNDB error"@,
{
    let mut out = String::new();
    out.append("Unexpected VNDB error");
    proof {
        assert(out@ =~= "Unexpected VNDB error"@);
    }
    StepResult::Failed(out)
}

/// Reads the hooks of a VN and renders the reply.
fn get_hook_by_id_step(store: &Store, id: u64) -> (r: StepResult)
    requires
        store.wf(),
    ensures
        r matches StepResult::Reply(c) && (c matches CommandResult::Single(t)
            && t@ == get_hook_reply(store@, id)),
{
    let vn = match store.get_vn(id) {
        Some(vn) => vn,
        None => {
            return single_lit("No hook exists");
        },
    };
    proof {
        lemma_vn_row(store@, vn@);
        assert(spec_vn_of(store@, id) == vn@);
    }
    let hooks = store.get_hooks(&vn);
    if hooks.len() == 0 {
        proof {
            assert(hooks_of(store@, id).len() == 0);
        }
        return single_lit("No hooks registered");
    }
    let mut out = String::new();
    out.append(vn.title.as_str());
    out.append(" - ");
    if hooks.len() == 1 {
        out.append(hooks[0].code.as_str());
        proof {
            assert(crate::models::hook_models(hooks@)[0] == hooks@[0]@);
            assert(out@ =~= get_hook_reply(store@, id));
        }
        return single(out);
    }
    let mut i: usize = 0;
    let ghost models = crate::models::hook_models(hooks@);
    while i < hooks.len()
        invariant
            models == crate::models::hook_models(hooks@),
            models == hooks_of(store@, id),
            i <= hooks@.len(),
            i > 0 ==> out@ == spec_vn_of(store@, id).title + " - "@
                + hooks_lines(models.take(i as int)),
            i == 0 ==> out@ == spec_vn_of(store@, id).title + " - "@,
            vn@ == spec_vn_of(store@, id),
        decreases hooks@.len() - i,
    {
        if i > 0 {
            out.append(" | ");
        }
        out.append(hooks[i].version.as_str());
        out.append(": ");
        out.append(hooks[i].code.as_str());
        i = i + 1;
        proof {
            let pre = models.take(i as int);
            assert(pre.drop_last() =~= models.take(i - 1));
            assert(pre.last() == models[i - 1]);
            assert(models[i - 1] == hooks@[i - 1]@);
            if i > 1 {
                assert(out@ =~= spec_vn_of(store@, id).title + " - "@ + hooks_lines(pre));
            } else {
                assert(out@ =~= spec_vn_of(store@, id).title + " - "@ + hooks_lines(pre));
            }
        }
    }
    proof {
        assert(models.take(models.len() as int) =~= models);
        assert(out@ =~= get_hook_reply(store@, id));
    }
    single(out)
}

/// Removes the hook row of one version and renders the reply.
fn del_hook_by_id_step(store: &mut Store, id: u64, version: &String) -> (r: StepResult)
    requires
        old(store).wf(),
    ensures
        final(store).wf(),
        final(store)@ == del_hook_by_id_outcome(old(store)@, id, version@).0,
        r matches StepResult::Reply(c) && (c matches CommandResult::Single(t)
            && t@ == del_hook_by_id_outcome(old(store)@, id, version@).1),
{
    let vn = match store.get_vn(id) {
        Some(vn) => vn,
        None => {
            return single_lit("No hook for such VN exists");
        },
    };
    proof {
        lemma_vn_row(store@, vn@);
    }
    let n = store.delete_hook(&vn, version);
    if n == 0 {
        let mut out = String::new();
        out.append("No hook for the version '");
        out.append(version.as_str());
        out.append("' exists");
        proof {
            assert(out@ =~= no_hook_version_text(version@));
        }
        single(out)
    } else {
        single_lit("Removed hook")
    }
}

/// Removes a VN with its hooks and renders the reply.
fn del_vn_by_id_step(store: &mut Store, id: u64) -> (r: StepResult)
    requires
        old(store).wf(),
    ensures
        final(store).wf(),
        final(store)@ == del_vn_by_id_outcome(old(store)@, id).0,
        r matches StepResult::Reply(c) && (c matches CommandResult::Single(t)
            && t@ == del_vn_by_id_outcome(old(store)@, id).1),
{
    let n = store.delete_vn(id);
    if n == 0 {
        single_lit("No hooks exists for VN")
    } else {
        single_lit("Removed VN with all hooks")
    }
}

/// Ensures the VN row and writes the hook, rendering the reply.
fn set_hook_write_step(store: &mut Store, id: u64, title: String, version: &String,
    code: &String) -> (r: StepResult)
    requires
        old(store).wf(),
        old(store)@.next_hook_id < u64::MAX,
    ensures
        final(store).wf(),
        final(store)@ == set_hook_outcome(old(store)@, id, title@, version@, code@).0,
        r matches StepResult::Reply(c) && (c matches CommandResult::Single(t)
            && t@ == set_hook_outcome(old(store)@, id, title@, version@, code@).1),
    {
    let ghost t0 = title@;
    let row = store.put_vn(id, title);
    proof {
        if has_vn(old(store)@, id) {
            lemma_vn_row(old(store)@, row@);
            assert(row@.title == row_title(old(store)@, id, t0));
        }
    }
    let reply = added_hook_reply(code.as_str(), row.title.as_str());
    let _ = store.put_hook(&row, version.clone(), code.clone());
    single(reply)
}

/// A reply of one line with this text.
pub open spec fn reply_is(r: StepResult, t: Seq<char>) -> bool {
    r matches StepResult::Reply(c) && (c matches CommandResult::Single(s) && s@ == t)
}

/// The request line fetching one object by id.
pub open spec fn obj_line(kind: Kind, id: u64) -> Seq<char> {
    crate::protocol::get_line(kind, crate::protocol::Flags { basic: true },
        seq![crate::protocol::id_atom(id)], None)
}

/// The transport failed: the machine fails with its fixed report.
pub open spec fn failed_step(m0: StoreModel, m1: StoreModel, r: StepResult) -> bool {
    m1 == m0 && (r matches StepResult::Failed(msg) && msg@ == "Unexpected VNDB error"@)
}

/// The generic handling of a frame that is not a decoded VN list.
pub open spec fn odd_event_step(ev: RemoteEvent, m0: StoreModel, m1: StoreModel,
    r: StepResult) -> bool {
    match ev {
        RemoteEvent::Failed => failed_step(m0, m1, r),
        RemoteEvent::Unexpected => m1 == m0 && reply_is(r, "Something wrong with VNDB..."@),
        RemoteEvent::Raw(_) => m1 == m0
            && reply_is(r, "VNDB has returned some strange results..."@),
        RemoteEvent::Vns(_) => true,
    }
}

/// The one-hit conclusion of the hook-writing ladders: the record's own id
/// takes the row.
pub open spec fn set_hook_one_hit(item: crate::exec::RemoteVnModel, version: Seq<char>,
    code: Seq<char>, m0: StoreModel, m1: StoreModel, r: StepResult) -> bool {
    match item.title {
        Some(t) => {
            &&& m1 == set_hook_outcome(m0, item.id, t, version, code).0
            &&& reply_is(r, set_hook_outcome(m0, item.id, t, version, code).1)
        },
        None => m1 == m0 && reply_is(r, "VNDB has returned some strange results..."@),
    }
}

impl Command {
    /// Advances the machine one step: with no event, a waiting state emits
    /// its request; with the decoded reply, the state concludes or moves to
    /// the next rung of its ladder. States that only read or write the
    /// store conclude at once.
    #[verifier::rlimit(100)]
    #[verifier::spinoff_prover]
    pub fn step(self, store: &mut Store, event: Option<RemoteEvent>) -> (r: StepResult)
        requires
            old(store).wf(),
            old(store)@.next_hook_id < u64::MAX,
            event is Some ==> is_remote_state(self),
            self matches Command::VnRefAt(refs, idx, _) ==> idx < refs@.len(),
        ensures
            final(store).wf(),
            ({
                let m0 = old(store)@;
                let m1 = final(store)@;
                match self {
                    Command::Pong => m1 == m0 && reply_is(r, "pong"@),
                    Command::Help => m1 == m0 && reply_is(r, crate::command::help_text()),
                    Command::DbStats => m1 == m0 && reply_is(r,
                        db_stats_text(m0.vns.len() as int, m0.hooks.len() as int)),
                    Command::GetHookHelp => m1 == m0 && reply_is(r, "For which VN...?"@),
                    Command::SetHookHelp(msg) => m1 == m0 && match msg {
                        Some(msg) => reply_is(r, msg@),
                        None => reply_is(r, crate::command::set_hook_usage_text()),
                    },
                    Command::DelHookHelp(msg) => m1 == m0 && match msg {
                        Some(msg) => reply_is(r, msg@),
                        None => reply_is(r, crate::command::del_hook_usage_text()),
                    },
                    Command::DelVnHelp => m1 == m0 && reply_is(r, "Usage: <title>"@),
                    Command::GetHookById(id) => m1 == m0
                        && reply_is(r, get_hook_reply(m0, id)),
                    Command::SetHookById(id, title, version, code) => match title {
                        Some(t) => {
                            &&& m1 == set_hook_outcome(m0, id, t@, version@, code@).0
                            &&& reply_is(r, set_hook_outcome(m0, id, t@, version@, code@).1)
                        },
                        None => {
                            if has_vn(m0, id) {
                                &&& m1 == spec_put_hook(m0, id, version@, code@)
                                &&& reply_is(r, added_hook_text(code@, spec_vn_of(m0, id).title))
                            } else {
                                m1 == m0 && (r matches StepResult::Query(q, c2)
                                    && q.line@ == vn_by_id_line(id)
                                    && c2 == Command::SetHookByIdGetVn(id, version, code))
                            }
                        },
                    },
                    Command::DelHookById(id, version) => {
                        &&& m1 == del_hook_by_id_outcome(m0, id, version@).0
                        &&& reply_is(r, del_hook_by_id_outcome(m0, id, version@).1)
                    },
                    Command::DelVnById(id) => {
                        &&& m1 == del_vn_by_id_outcome(m0, id).0
                        &&& reply_is(r, del_vn_by_id_outcome(m0, id).1)
                    },
                    Command::Vn(title) => match title {
                        None => m1 == m0 && reply_is(r, "Which VN...?"@),
                        Some(title) => match event {
                            None => m1 == m0 && (r matches StepResult::Query(q, c2)
                                && q.line@ == exact_title_line(title@)
                                && c2 == Command::Vn(Some(title))),
                            Some(ev) => odd_event_step(ev, m0, m1, r)
                                && (ev matches RemoteEvent::Vns(items) ==> {
                                    if items@.len() == 1 {
                                        m1 == m0 && match items@[0]@.title {
                                            Some(t) => reply_is(r,
                                                vn_link_text(t, items@[0].id)),
                                            None => reply_is(r,
                                                "VNDB has returned some strange results..."@),
                                        }
                                    } else {
                                        m1 == m0 && (r matches StepResult::Query(q, c2)
                                            && q.line@ == fuzzy_title_line(title@)
                                            && c2 == Command::VnSearch(title))
                                    }
                                }),
                        },
                    },
                    Command::VnSearch(title) => match event {
                        None => m1 == m0 && (r matches StepResult::Query(q, c2)
                            && q.line@ == fuzzy_title_line(title@)
                            && c2 == Command::VnSearch(title)),
                        Some(ev) => odd_event_step(ev, m0, m1, r)
                            && (ev matches RemoteEvent::Vns(items) ==> {
                                if items@.len() == 0 {
                                    m1 == m0 && reply_is(r, "No such VN could be found"@)
                                } else if items@.len() == 1 {
                                    m1 == m0 && match items@[0]@.title {
                                        Some(t) => reply_is(r, vn_link_text(t, items@[0].id)),
                                        None => reply_is(r,
                                            "VNDB has returned some strange results..."@),
                                    }
                                } else {
                                    m1 == m0 && reply_is(r,
                                        too_many_text(items@.len() as int, title@))
                                }
                            }),
                    },
                    Command::GetHook(title) => match event {
                        None => m1 == m0 && (r matches StepResult::Query(q, c2)
                            && q.line@ == exact_title_line(title@)
                            && c2 == Command::GetHook(title)),
                        Some(ev) => odd_event_step(ev, m0, m1, r)
                            && (ev matches RemoteEvent::Vns(items) ==> {
                                if items@.len() == 1 {
                                    m1 == m0 && reply_is(r, get_hook_reply(m0, items@[0].id))
                                } else {
                                    m1 == m0 && (r matches StepResult::Query(q, c2)
                                        && q.line@ == fuzzy_title_line(title@)
                                        && c2 == Command::GetHookSerachVn(title))
                                }
                            }),
                    },
                    Command::GetHookSerachVn(title) => match event {
                        None => m1 == m0 && (r matches StepResult::Query(q, c2)
                            && q.line@ == fuzzy_title_line(title@)
                            && c2 == Command::GetHookSerachVn(title)),
                        Some(ev) => odd_event_step(ev, m0, m1, r)
                            && (ev matches RemoteEvent::Vns(items) ==> {
                                if items@.len() == 0 {
                                    m1 == m0 && reply_is(r, "No such VN could be found"@)
                                } else if items@.len() == 1 {
                                    m1 == m0 && reply_is(r, get_hook_reply(m0, items@[0].id))
                                } else {
                                    m1 == m0 && reply_is(r,
                                        too_many_text(items@.len() as int, title@))
                                }
                            }),
                    },
                    Command::SetHook(title, version, code) => match event {
                        None => m1 == m0 && (r matches StepResult::Query(q, c2)
                            && q.line@ == exact_title_line(title@)
                            && c2 == Command::SetHook(title, version, code)),
                        Some(ev) => odd_event_step(ev, m0, m1, r)
                            && (ev matches RemoteEvent::Vns(items) ==> {
                                if items@.len() == 1 {
                                    set_hook_one_hit(items@[0]@, version@, code@, m0, m1, r)
                                } else {
                                    m1 == m0 && (r matches StepResult::Query(q, c2)
                                        && q.line@ == fuzzy_title_line(title@)
                                        && c2 == Command::SetHookSerachVn(title, version, code))
                                }
                            }),
                    },
                    Command::SetHookSerachVn(title, version, code) => match event {
                        None => m1 == m0 && (r matches StepResult::Query(q, c2)
                            && q.line@ == fuzzy_title_line(title@)
                            && c2 == Command::SetHookSerachVn(title, version, code)),
                        Some(ev) => odd_event_step(ev, m0, m1, r)
                            && (ev matches RemoteEvent::Vns(items) ==> {
                                if items@.len() == 0 {
                                    m1 == m0 && reply_is(r, "No such VN could be found"@)
                                } else if items@.len() == 1 {
                                    set_hook_one_hit(items@[0]@, version@, code@, m0, m1, r)
                                } else {
                                    m1 == m0 && reply_is(r,
                                        too_many_text(items@.len() as int, title@))
                                }
                            }),
                    },
                    Command::SetHookByIdGetVn(id, version, code) => match event {
                        None => m1 == m0 && (r matches StepResult::Query(q, c2)
                            && q.line@ == vn_by_id_line(id)
                            && c2 == Command::SetHookByIdGetVn(id, version, code)),
                        Some(ev) => odd_event_step(ev, m0, m1, r)
                            && (ev matches RemoteEvent::Vns(items) ==> {
                                if items@.len() == 1 {
                                    match items@[0]@.title {
                                        Some(t) => m1 == set_hook_outcome(
                                            m0, id, t, version@, code@).0
                                            && reply_is(r, set_hook_outcome(
                                                m0, id, t, version@, code@).1),
                                        None => m1 == m0 && reply_is(r,
                                            "VNDB has returned some strange results..."@),
                                    }
                                } else {
                                    m1 == m0 && reply_is(r,
                                        "VNDB is doing some magic, I cannot add hook..."@)
                                }
                            }),
                    },
                    Command::DelHook(title, version) => match event {
                        None => m1 == m0 && (r matches StepResult::Query(q, c2)
                            && q.line@ == exact_title_line(title@)
                            && c2 == Command::DelHook(title, version)),
                        Some(ev) => odd_event_step(ev, m0, m1, r)
                            && (ev matches RemoteEvent::Vns(items) ==> {
                                if items@.len() == 1 {
                                    m1 == del_hook_by_id_outcome(m0, items@[0].id, version@).0
                                        && reply_is(r, del_hook_by_id_outcome(
                                            m0, items@[0].id, version@).1)
                                } else {
                                    m1 == m0 && (r matches StepResult::Query(q, c2)
                                        && q.line@ == fuzzy_title_line(title@)
                                        && c2 == Command::DelHookSearchVn(title, version))
                                }
                            }),
                    },
                    Command::DelHookSearchVn(title, version) => match event {
                        None => m1 == m0 && (r matches StepResult::Query(q, c2)
                            && q.line@ == fuzzy_title_line(title@)
                            && c2 == Command::DelHookSearchVn(title, version)),
                        Some(ev) => odd_event_step(ev, m0, m1, r)
                            && (ev matches RemoteEvent::Vns(items) ==> {
                                if items@.len() == 0 {
                                    m1 == m0 && reply_is(r, "No such VN could be found"@)
                                } else if items@.len() == 1 {
                                    m1 == del_hook_by_id_outcome(m0, items@[0].id, version@).0
                                        && reply_is(r, del_hook_by_id_outcome(
                                            m0, items@[0].id, version@).1)
                                } else {
                                    m1 == m0 && reply_is(r,
                                        too_many_text(items@.len() as int, title@))
                                }
                            }),
                    },
                    Command::DelVn(title) => match event {
                        None => m1 == m0 && (r matches StepResult::Query(q, c2)
                            && q.line@ == exact_title_line(title@)
                            && c2 == Command::DelVn(title)),
                        Some(ev) => odd_event_step(ev, m0, m1, r)
                            && (ev matches RemoteEvent::Vns(items) ==> {
                                if items@.len() == 1 {
                                    m1 == del_vn_by_id_outcome(m0, items@[0].id).0
                                        && reply_is(r,
                                            del_vn_by_id_outcome(m0, items@[0].id).1)
                                } else {
                                    m1 == m0 && (r matches StepResult::Query(q, c2)
                                        && q.line@ == fuzzy_title_line(title@)
                                        && c2 == Command::DelVnSearchVn(title))
                                }
                            }),
                    },
                    Command::DelVnSearchVn(title) => match event {
                        None => m1 == m0 && (r matches StepResult::Query(q, c2)
                            && q.line@ == fuzzy_title_line(title@)
                            && c2 == Command::DelVnSearchVn(title)),
                        Some(ev) => odd_event_step(ev, m0, m1, r)
                            && (ev matches RemoteEvent::Vns(items) ==> {
                                if items@.len() == 0 {
                                    m1 == m0 && reply_is(r, "No such VN could be found"@)
                                } else if items@.len() == 1 {
                                    m1 == del_vn_by_id_outcome(m0, items@[0].id).0
                                        && reply_is(r,
                                            del_vn_by_id_outcome(m0, items@[0].id).1)
                                } else {
                                    m1 == m0 && reply_is(r,
                                        too_many_text(items@.len() as int, title@))
                                }
                            }),
                    },
                    Command::VnRef(refs) => m1 == m0 && {
                        if refs@.len() == 0 {
                            r matches StepResult::Reply(c) && (c
                                matches CommandResult::Multi(lines) && lines@.len() == 0)
                        } else {
                            r matches StepResult::Query(q, c2)
                                && q.line@ == obj_line(refs@[0].0, refs@[0].1)
                                && (c2 matches Command::VnRefAt(refs2, idx, lines)
                                && refs2@ == refs@ && idx == 0 && lines@.len() == 0)
                        }
                    },
                    Command::VnRefAt(refs, idx, lines) => match event {
                        None => m1 == m0 && (r matches StepResult::Query(q, c2)
                            && q.line@ == obj_line(refs@[idx as int].0, refs@[idx as int].1)
                            && c2 == Command::VnRefAt(refs, idx, lines)),
                        Some(ev) => m1 == m0 && match ev {
                            RemoteEvent::Failed => r matches StepResult::Failed(msg)
                                && msg@ == "Unexpected VNDB error"@,
                            _ => ({
                                let added: Seq<Seq<char>> = match ev {
                                    RemoteEvent::Vns(items) => {
                                        if items@.len() >= 1 && items@[0]@.title is Some {
                                            seq![ref_line_text(refs@[idx as int].0,
                                                items@[0].id, items@[0]@.title->0)]
                                        } else {
                                            Seq::empty()
                                        }
                                    },
                                    _ => Seq::empty(),
                                };
                                let full = lines@.map_values(|l: String| l@) + added;
                                if idx + 1 < refs@.len() {
                                    r matches StepResult::Query(q, c2)
                                        && q.line@ == obj_line(refs@[idx + 1].0,
                                            refs@[idx + 1].1)
                                        && (c2 matches Command::VnRefAt(refs2, idx2, lines2)
                                        && refs2@ == refs@ && idx2 == idx + 1
                                        && lines2@.map_values(|l: String| l@) == full)
                                } else {
                                    r matches StepResult::Reply(c)
                                        && (c matches CommandResult::Multi(out)
                                        && out@.map_values(|l: String| l@) == full)
                                }
                            }),
                        },
                    },
                }
            }),
    {
        match self {
            Command::Pong => single_lit("pong"),
            Command::Help => single_lit(
                "Available commands: .ping, .vn, .hook, .set_hook, .del_hook, .del_vn"),
            Command::DbStats => {
                let nv = store.count_vns();
                let nh = store.count_hooks();
                let mut out = String::new();
                out.append("DB has ");
                let a = fmt_u64(nv as u64);
                out.append(a.as_str());
                out.append(" VNs and ");
                let b = fmt_u64(nh as u64);
                out.append(b.as_str());
                out.append(" Hooks");
                proof {
                    assert(out@ =~= db_stats_text(old(store)@.vns.len() as int,
                        old(store)@.hooks.len() as int));
                }
                single(out)
            },
            Command::GetHookHelp => single_lit("For which VN...?"),
            Command::SetHookHelp(Some(msg)) => single(msg),
            Command::SetHookHelp(None) => single_lit("Usage: <title> <version> <code>"),
            Command::DelHookHelp(Some(msg)) => single(msg),
            Command::DelHookHelp(None) => single_lit("Usage: <title> <version>"),
            Command::DelVnHelp => single_lit("Usage: <title>"),
            Command::GetHookById(id) => get_hook_by_id_step(store, id),
            Command::SetHookById(id, Some(title), version, code) => set_hook_write_step(
                store, id, title, &version, &code),
            Command::SetHookById(id, None, version, code) => {
                match store.get_vn(id) {
                    Some(row) => {
                        proof {
                            lemma_vn_row(store@, row@);
                        }
                        let reply = added_hook_reply(code.as_str(), row.title.as_str());
                        let _ = store.put_hook(&row, version, code);
                        single(reply)
                    },
                    None => {
                        let q = Get::vn_by_id(id).to_request();
                        StepResult::Query(q, Command::SetHookByIdGetVn(id, version, code))
                    },
                }
            },
            Command::DelHookById(id, version) => del_hook_by_id_step(store, id, &version),
            Command::DelVnById(id) => del_vn_by_id_step(store, id),
            Command::Vn(None) => single_lit("Which VN...?"),
            Command::Vn(Some(title)) => match event {
                None => {
                    let q = Get::vn_by_exact_title(title.as_str()).to_request();
                    StepResult::Query(q, Command::Vn(Some(title)))
                },
                Some(ev) => match ev {
                    RemoteEvent::Failed => failed_remote(),
                    RemoteEvent::Unexpected => single_lit("Something wrong with VNDB..."),
                    RemoteEvent::Raw(_) => single_lit(
                        "VNDB has returned some strange results..."),
                    RemoteEvent::Vns(items) => {
                        if items.len() == 1 {
                            one_vn_link(&items[0])
                        } else {
                            let q = Get::vn_by_title(title.as_str()).to_request();
                            StepResult::Query(q, Command::VnSearch(title))
                        }
                    },
                },
            },
            Command::VnSearch(title) => match event {
                None => {
                    let q = Get::vn_by_title(title.as_str()).to_request();
                    StepResult::Query(q, Command::VnSearch(title))
                },
                Some(ev) => match ev {
                    RemoteEvent::Failed => failed_remote(),
                    RemoteEvent::Unexpected => single_lit("Something wrong with VNDB..."),
                    RemoteEvent::Raw(_) => single_lit(
                        "VNDB has returned some strange results..."),
                    RemoteEvent::Vns(items) => {
                        if items.len() == 0 {
                            single_lit("No such VN could be found")
                        } else if items.len() == 1 {
                            one_vn_link(&items[0])
                        } else {
                            StepResult::Reply(return_too_many_vn_hits(
                                items.len(), title.as_str()))
                        }
                    },
                },
            },
            Command::GetHook(title) => match event {
                None => {
                    let q = Get::vn_by_exact_title(title.as_str()).to_request();
                    StepResult::Query(q, Command::GetHook(title))
                },
                Some(ev) => match ev {
                    RemoteEvent::Failed => failed_remote(),
                    RemoteEvent::Unexpected => single_lit("Something wrong with VNDB..."),
                    RemoteEvent::Raw(_) => single_lit(
                        "VNDB has returned some strange results..."),
                    RemoteEvent::Vns(items) => {
                        if items.len() == 1 {
                            get_hook_by_id_step(store, items[0].id)
                        } else {
                            let q = Get::vn_by_title(title.as_str()).to_request();
                            StepResult::Query(q, Command::GetHookSerachVn(title))
                        }
                    },
                },
            },
            Command::GetHookSerachVn(title) => match event {
                None => {
                    let q = Get::vn_by_title(title.as_str()).to_request();
                    StepResult::Query(q, Command::GetHookSerachVn(title))
                },
                Some(ev) => match ev {
                    RemoteEvent::Failed => failed_remote(),
                    RemoteEvent::Unexpected => single_lit("Something wrong with VNDB..."),
                    RemoteEvent::Raw(_) => single_lit(
                        "VNDB has returned some strange results..."),
                    RemoteEvent::Vns(items) => {
                        if items.len() == 0 {
                            single_lit("No such VN could be found")
                        } else if items.len() == 1 {
                            get_hook_by_id_step(store, items[0].id)
                        } else {
                            StepResult::Reply(return_too_many_vn_hits(
                                items.len(), title.as_str()))
                        }
                    },
                },
            },
            Command::SetHook(title, version, code) => match event {
                None => {
                    let q = Get::vn_by_exact_title(title.as_str()).to_request();
                    StepResult::Query(q, Command::SetHook(title, version, code))
                },
                Some(ev) => match ev {
                    RemoteEvent::Failed => failed_remote(),
                    RemoteEvent::Unexpected => single_lit("Something wrong with VNDB..."),
                    RemoteEvent::Raw(_) => single_lit(
                        "VNDB has returned some strange results..."),
                    RemoteEvent::Vns(mut items) => {
                        if items.len() == 1 {
                            let item = items.remove(0);
                            set_hook_from_item(store, item, &version, &code)
                        } else {
                            let q = Get::vn_by_title(title.as_str()).to_request();
                            StepResult::Query(q,
                                Command::SetHookSerachVn(title, version, code))
                        }
                    },
                },
            },
            Command::SetHookSerachVn(title, version, code) => match event {
                None => {
                    let q = Get::vn_by_title(title.as_str()).to_request();
                    StepResult::Query(q, Command::SetHookSerachVn(title, version, code))
                },
                Some(ev) => match ev {
                    RemoteEvent::Failed => failed_remote(),
                    RemoteEvent::Unexpected => single_lit("Something wrong with VNDB..."),
                    RemoteEvent::Raw(_) => single_lit(
                        "VNDB has returned some strange results..."),
                    RemoteEvent::Vns(mut items) => {
                        if items.len() == 0 {
                            single_lit("No such VN could be found")
                        } else if items.len() == 1 {
                            let item = items.remove(0);
                            set_hook_from_item(store, item, &version, &code)
                        } else {
                            StepResult::Reply(return_too_many_vn_hits(
                                items.len(), title.as_str()))
                        }
                    },
                },
            },
            Command::SetHookByIdGetVn(id, version, code) => match event {
                None => {
                    let q = Get::vn_by_id(id).to_request();
                    StepResult::Query(q, Command::SetHookByIdGetVn(id, version, code))
                },
                Some(ev) => match ev {
                    RemoteEvent::Failed => failed_remote(),
                    RemoteEvent::Unexpected => single_lit("Something wrong with VNDB..."),
                    RemoteEvent::Raw(_) => single_lit(
                        "VNDB has returned some strange results..."),
                    RemoteEvent::Vns(mut items) => {
                        if items.len() == 1 {
                            let item = items.remove(0);
                            match item.title {
                                Some(t) => set_hook_write_step(store, id, t, &version, &code),
                                None => single_lit(
                                    "VNDB has returned some strange results..."),
                            }
                        } else {
                            single_lit("VNDB is doing some magic, I cannot add hook...")
                        }
                    },
                },
            },
            Command::DelHook(title, version) => match event {
                None => {
                    let q = Get::vn_by_exact_title(title.as_str()).to_request();
                    StepResult::Query(q, Command::DelHook(title, version))
                },
                Some(ev) => match ev {
                    RemoteEvent::Failed => failed_remote(),
                    RemoteEvent::Unexpected => single_lit("Something wrong with VNDB..."),
                    RemoteEvent::Raw(_) => single_lit(
                        "VNDB has returned some strange results..."),
                    RemoteEvent::Vns(items) => {
                        if items.len() == 1 {
                            del_hook_by_id_step(store, items[0].id, &version)
                        } else {
                            let q = Get::vn_by_title(title.as_str()).to_request();
                            StepResult::Query(q, Command::DelHookSearchVn(title, version))
                        }
                    },
                },
            },
            Command::DelHookSearchVn(title, version) => match event {
                None => {
                    let q = Get::vn_by_title(title.as_str()).to_request();
                    StepResult::Query(q, Command::DelHookSearchVn(title, version))
                },
                Some(ev) => match ev {
                    RemoteEvent::Failed => failed_remote(),
                    RemoteEvent::Unexpected => single_lit("Something wrong with VNDB..."),
                    RemoteEvent::Raw(_) => single_lit(
                        "VNDB has returned some strange results..."),
                    RemoteEvent::Vns(items) => {
                        if items.len() == 0 {
                            single_lit("No such VN could be found")
                        } else if items.len() == 1 {
                            del_hook_by_id_step(store, items[0].id, &version)
                        } else {
                            StepResult::Reply(return_too_many_vn_hits(
                                items.len(), title.as_str()))
                        }
                    },
                },
            },
            Command::DelVn(title) => match event {
                None => {
                    let q = Get::vn_by_exact_title(title.as_str()).to_request();
                    StepResult::Query(q, Command::DelVn(title))
                },
                Some(ev) => match ev {
                    RemoteEvent::Failed => failed_remote(),
                    RemoteEvent::Unexpected => single_lit("Something wrong with VNDB..."),
                    RemoteEvent::Raw(_) => single_lit(
                        "VNDB has returned some strange results..."),
                    RemoteEvent::Vns(items) => {
                        if items.len() == 1 {
                            del_vn_by_id_step(store, items[0].id)
                        } else {
                            let q = Get::vn_by_title(title.as_str()).to_request();
                            StepResult::Query(q, Command::DelVnSearchVn(title))
                        }
                    },
                },
            },
            Command::DelVnSearchVn(title) => match event {
                None => {
                    let q = Get::vn_by_title(title.as_str()).to_request();
                    StepResult::Query(q, Command::DelVnSearchVn(title))
                },
                Some(ev) => match ev {
                    RemoteEvent::Failed => failed_remote(),
                    RemoteEvent::Unexpected => single_lit("Something wrong with VNDB..."),
                    RemoteEvent::Raw(_) => single_lit(
                        "VNDB has returned some strange results..."),
                    RemoteEvent::Vns(items) => {
                        if items.len() == 0 {
                            single_lit("No such VN could be found")
                        } else if items.len() == 1 {
                            del_vn_by_id_step(store, items[0].id)
                        } else {
                            StepResult::Reply(return_too_many_vn_hits(
                                items.len(), title.as_str()))
                        }
                    },
                },
            },
            Command::VnRef(refs) => {
                if refs.len() == 0 {
                    StepResult::Reply(CommandResult::Multi(Vec::new()))
                } else {
                    let q = Get::get_by_id(refs[0].0, refs[0].1).to_request();
                    StepResult::Query(q, Command::VnRefAt(refs, 0, Vec::new()))
                }
            },
            Command::VnRefAt(refs, idx, mut lines) => match event {
                None => {
                    let q = Get::get_by_id(refs[idx].0, refs[idx].1).to_request();
                    StepResult::Query(q, Command::VnRefAt(refs, idx, lines))
                },
                Some(ev) => match ev {
                    RemoteEvent::Failed => failed_remote(),
                    ev => {
                        let ghost lines0 = lines@.map_values(|l: String| l@);
                        let ghost added: Seq<Seq<char>> = match ev {
                            RemoteEvent::Vns(ref items) => {
                                if items@.len() >= 1 && items@[0]@.title is Some {
                                    seq![ref_line_text(refs@[idx as int].0,
                                        items@[0].id, items@[0]@.title->0)]
                                } else {
                                    Seq::empty()
                                }
                            },
                            _ => Seq::empty(),
                        };
                        match ev {
                            RemoteEvent::Vns(items) => {
                                if items.len() >= 1 {
                                    match &items[0].title {
                                        Some(label) => {
                                            let line = ref_line_reply(
                                                refs[idx].0, items[0].id, label.as_str());
                                            lines.push(line);
                                            proof {
                                                assert(lines@.map_values(|l: String| l@)
                                                    =~= lines0 + added);
                                            }
                                        },
                                        None => {
                                            proof {
                                                assert(lines@.map_values(|l: String| l@)
                                                    =~= lines0 + added);
                                            }
                                        },
                                    }
                                } else {
                                    proof {
                                        assert(lines@.map_values(|l: String| l@)
                                            =~= lines0 + added);
                                    }
                                }
                            },
                            _ => {
                                proof {
                                    assert(lines@.map_values(|l: String| l@)
                                        =~= lines0 + added);
                                }
                            },
                        }
                        let n = refs.len();
                        if idx + 1 < n {
                            let q = Get::get_by_id(refs[idx + 1].0, refs[idx + 1].1)
                                .to_request();
                            StepResult::Query(q, Command::VnRefAt(refs, idx + 1, lines))
                        } else {
                            StepResult::Reply(CommandResult::Multi(lines))
                        }
                    },
                },
            },
        }
    }
}

/// The reply naming the single record of a lookup, with its link; a record
/// without title reads as a malformed result.
fn one_vn_link(item: &RemoteVn) -> (r: StepResult)
    ensures
        match item@.title {
            Some(t) => reply_is(r, vn_link_text(t, item.id)),
            None => reply_is(r, "VNDB has returned some strange results..."@),
        },
{
    match &item.title {
        Some(t) => vn_link_reply(t.as_str(), item.id),
        None => single_lit("VNDB has returned some strange results..."),
    }
}

/// Writes the hook for the single record of a lookup.
fn set_hook_from_item(store: &mut Store, item: RemoteVn, version: &String, code: &String)
    -> (r: StepResult)
    requires
        old(store).wf(),
        old(store)@.next_hook_id < u64::MAX,
    ensures
        final(store).wf(),
        set_hook_one_hit(item@, version@, code@, old(store)@, final(store)@, r),
{
    match item.title {
        Some(t) => set_hook_write_step(store, item.id, t, version, code),
        None => single_lit("VNDB has returned some strange results..."),
    }
}

/// Renders one reference line.
fn ref_line_reply(kind: Kind, id: u64, label: &str) -> (r: String)
    ensures
        r@ == ref_line_text(kind, id, label@),
{
    let mut out = String::new();
    out.append(kind.short());
    let digits = fmt_u64(id);
    out.append(digits.as_str());
    out.append(": ");
    out.append(label);
    out.append(" - https://vndb.org/");
    out.append(kind.short());
    out.append(digits.as_str());
    proof {
        assert(out@ =~= ref_line_text(kind, id, label@));
    }
    out
}

} // verus!
