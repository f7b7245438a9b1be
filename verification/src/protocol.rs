//! The wire surface of the remote VN service: the `get` request lines the
//! client writes, and the classification of the response frames it reads.
//! The protocol is line-delimited text; a request is
//! `get <kind> <flags> (<filter>) [<options>]`, a response frame is `ok`,
//! `results <json>` or `error <json>`.

use vstd::prelude::*;
use crate::text::{fmt_u64, dec_digits, chars_of, string_of};

verus! {

/// The kind of a remote object.
#[derive(PartialEq, Eq, Structural, Clone, Copy, Debug)]
pub enum Kind {
    Vn,
    Character,
    Release,
    Producer,
    User,
}

/// The one-letter prefix that names a kind in references such as `v17`.
pub open spec fn kind_char(k: Kind) -> char {
    match k {
        Kind::Vn => 'v',
        Kind::Character => 'c',
        Kind::Release => 'r',
        Kind::Producer => 'p',
        Kind::User => 'u',
    }
}

/// The kind named by a prefix character, if any.
pub open spec fn kind_of_char(c: char) -> Option<Kind> {
    if c == 'v' {
        Some(Kind::Vn)
    } else if c == 'c' {
        Some(Kind::Character)
    } else if c == 'r' {
        Some(Kind::Release)
    } else if c == 'p' {
        Some(Kind::Producer)
    } else if c == 'u' {
        Some(Kind::User)
    } else {
        None
    }
}

/// The word that names a kind in a `get` request.
pub open spec fn kind_token(k: Kind) -> Seq<char> {
    match k {
        Kind::Vn => "vn"@,
        Kind::Character => "character"@,
        Kind::Release => "release"@,
        Kind::Producer => "producer"@,
        Kind::User => "user"@,
    }
}

impl Kind {
    pub fn vn() -> (r: Kind)
        ensures
            r == Kind::Vn,
    {
        Kind::Vn
    }

    pub fn character() -> (r: Kind)
        ensures
            r == Kind::Character,
    {
        Kind::Character
    }

    pub fn release() -> (r: Kind)
        ensures
            r == Kind::Release,
    {
        Kind::Release
    }

    pub fn producer() -> (r: Kind)
        ensures
            r == Kind::Producer,
    {
        Kind::Producer
    }

    pub fn user() -> (r: Kind)
        ensures
            r == Kind::User,
    {
        Kind::User
    }

    /// The kind named by a reference prefix character.
    pub fn from_prefix(c: char) -> (r: Option<Kind>)
        ensures
            r == kind_of_char(c),
    {
        if c == 'v' {
            Some(Kind::Vn)
        } else if c == 'c' {
            Some(Kind::Character)
        } else if c == 'r' {
            Some(Kind::Release)
        } else if c == 'p' {
            Some(Kind::Producer)
        } else if c == 'u' {
            Some(Kind::User)
        } else {
            None
        }
    }

    /// The one-letter alias of the kind.
    pub fn short(&self) -> (r: &'static str)
        ensures
            r@ == seq![kind_char(*self)],
    {
        proof {
            reveal_strlit("v");
            reveal_strlit("c");
            reveal_strlit("r");
            reveal_strlit("p");
            reveal_strlit("u");
        }
        match self {
            Kind::Vn => "v",
            Kind::Character => "c",
            Kind::Release => "r",
            Kind::Producer => "p",
            Kind::User => "u",
        }
    }

    /// The request word of the kind.
    pub fn token(&self) -> (r: &'static str)
        ensures
            r@ == kind_token(*self),
    {
        match self {
            Kind::Vn => "vn",
            Kind::Character => "character",
            Kind::Release => "release",
            Kind::Producer => "producer",
            Kind::User => "user",
        }
    }
}

/// The field groups a `get` request asks for; only the basic group is used.
#[derive(PartialEq, Eq, Structural, Clone, Copy, Debug)]
pub struct Flags {
    pub basic: bool,
}

impl Flags {
    pub fn new() -> (r: Flags)
        ensures
            r.basic == false,
    {
        Flags { basic: false }
    }

    pub fn basic(self) -> (r: Flags)
        ensures
            r.basic == true,
    {
        Flags { basic: true }
    }
}

pub open spec fn flags_token(f: Flags) -> Seq<char> {
    if f.basic {
        "basic"@
    } else {
        ""@
    }
}

/// A filter expression: atoms such as `id = 17` joined by `or`.
pub struct Filters {
    atoms: Vec<String>,
}

impl View for Filters {
    type V = Seq<Seq<char>>;

    closed spec fn view(&self) -> Seq<Seq<char>> {
        self.atoms@.map_values(|a: String| a@)
    }
}

/// Atoms joined by `or`.
pub open spec fn join_or(atoms: Seq<Seq<char>>) -> Seq<char>
    decreases atoms.len(),
{
    if atoms.len() == 0 {
        Seq::empty()
    } else if atoms.len() == 1 {
        atoms[0]
    } else {
        join_or(atoms.drop_last()) + " or "@ + atoms.last()
    }
}

impl Filters {
    pub fn new() -> (r: Filters)
        ensures
            r@ =~= Seq::<Seq<char>>::empty(),
    {
        Filters { atoms: Vec::new() }
    }

    /// Appends the first atom.
    pub fn filter(self, atom: String) -> (r: Filters)
        ensures
            r@ =~= self@.push(atom@),
    {
        let mut atoms = self.atoms;
        atoms.push(atom);
        proof {
            assert(atoms@.map_values(|a: String| a@)
                =~= self.atoms@.map_values(|a: String| a@).push(atom@));
        }
        Filters { atoms }
    }

    /// Appends an alternative atom.
    pub fn or(self, atom: String) -> (r: Filters)
        ensures
            r@ =~= self@.push(atom@),
    {
        self.filter(atom)
    }

    /// Renders the expression, atoms joined by `or`.
    pub fn render(&self) -> (r: String)
        ensures
            r@ == join_or(self@),
    {
        let mut out = String::new();
        let mut i: usize = 0;
        while i < self.atoms.len()
            invariant
                i <= self.atoms@.len(),
                out@ == join_or(self@.take(i as int)),
            decreases self.atoms@.len() - i,
        {
            if i > 0 {
                out.append(" or ");
            }
            out.append(self.atoms[i].as_str());
            i = i + 1;
            proof {
                let pre = self@.take(i as int);
                assert(pre.drop_last() =~= self@.take(i - 1));
                assert(pre.last() == self@[i - 1]);
                if i > 1 {
                    assert(out@ =~= join_or(pre));
                } else {
                    assert(out@ =~= pre[0]);
                }
            }
        }
        proof {
            assert(self@.take(self@.len() as int) =~= self@);
        }
        out
    }
}

/// Paging options of a `get` request.
#[derive(PartialEq, Eq, Structural, Clone, Copy, Debug)]
pub struct Options {
    pub page: u32,
    pub results: u32,
}

pub open spec fn options_token(o: Option<Options>) -> Seq<char> {
    match o {
        Some(o) => " {\"page\":"@ + dec_digits(o.page as int) + ",\"results\":"@
            + dec_digits(o.results as int) + "}"@,
        None => Seq::empty(),
    }
}

/// The atom `id = N`.
pub open spec fn id_atom(id: u64) -> Seq<char> {
    "id = "@ + dec_digits(id as int)
}

/// The atom `<field> <op> "<text>"`.
pub open spec fn title_atom(field: Seq<char>, op: Seq<char>, title: Seq<char>) -> Seq<char> {
    field + op + "\""@ + title + "\""@
}

/// A framed request line, ready for the wire.
pub struct Request {
    pub line: String,
}

/// The line of a `get` request.
pub open spec fn get_line(
    kind: Kind,
    flags: Flags,
    filters: Seq<Seq<char>>,
    options: Option<Options>,
) -> Seq<char> {
    "get "@ + kind_token(kind) + " "@ + flags_token(flags) + " ("@ + join_or(filters) + ")"@
        + options_token(options)
}

/// A `get` request under construction.
pub struct Get {
    pub kind: Kind,
    pub flags: Flags,
    pub filters: Filters,
    pub options: Option<Options>,
}

impl Get {
    pub fn new(kind: Kind, flags: Flags, filters: Filters, options: Option<Options>) -> (r: Get)
        ensures
            r.kind == kind && r.flags == flags && r.filters@ == filters@
                && r.options == options,
    {
        Get { kind, flags, filters, options }
    }

    /// Looks up one remote object by its id.
    pub fn get_by_id(kind: Kind, id: u64) -> (r: Get)
        ensures
            r.kind == kind && r.flags.basic && r.options is None,
            r.filters@ =~= seq![id_atom(id)],
    {
        let mut atom = String::new();
        atom.append("id = ");
        let digits = fmt_u64(id);
        atom.append(digits.as_str());
        let filters = Filters::new().filter(atom);
        Self::new(kind, Flags::new().basic(), filters, None)
    }

    /// Looks up a VN by its id.
    pub fn vn_by_id(id: u64) -> (r: Get)
        ensures
            r.kind == Kind::Vn && r.flags.basic && r.options is None,
            r.filters@ =~= seq![id_atom(id)],
    {
        Self::get_by_id(Kind::Vn, id)
    }

    /// Looks up a VN whose title or original title equals `title`.
    pub fn vn_by_exact_title(title: &str) -> (r: Get)
        ensures
            r.kind == Kind::Vn && r.flags.basic && r.options is None,
            r.filters@ =~= seq![
                title_atom("title"@, " = "@, title@),
                title_atom("original"@, " = "@, title@),
            ],
    {
        let mut a1 = String::new();
        a1.append("title");
        a1.append(" = ");
        a1.append("\"");
        a1.append(title);
        a1.append("\"");
        let mut a2 = String::new();
        a2.append("original");
        a2.append(" = ");
        a2.append("\"");
        a2.append(title);
        a2.append("\"");
        let filters = Filters::new().filter(a1).or(a2);
        Self::new(Kind::Vn, Flags::new().basic(), filters, None)
    }

    /// Searches VNs whose title or original title is like `title`.
    pub fn vn_by_title(title: &str) -> (r: Get)
        ensures
            r.kind == Kind::Vn && r.flags.basic && r.options is None,
            r.filters@ =~= seq![
                title_atom("title"@, " ~ "@, title@),
                title_atom("original"@, " ~ "@, title@),
            ],
    {
        let mut a1 = String::new();
        a1.append("title");
        a1.append(" ~ ");
        a1.append("\"");
        a1.append(title);
        a1.append("\"");
        let mut a2 = String::new();
        a2.append("original");
        a2.append(" ~ ");
        a2.append("\"");
        a2.append(title);
        a2.append("\"");
        let filters = Filters::new().filter(a1).or(a2);
        Self::new(Kind::Vn, Flags::new().basic(), filters, None)
    }

    pub fn set_options(self, options: Option<Options>) -> (r: Get)
        ensures
            r.kind == self.kind && r.flags == self.flags && r.filters@ == self.filters@
                && r.options == options,
    {
        Get { options, ..self }
    }

    /// Frames the request as its wire line.
    pub fn to_request(&self) -> (r: Request)
        ensures
            r.line@ == get_line(self.kind, self.flags, self.filters@, self.options),
    {
        let mut line = String::new();
        line.append("get ");
        line.append(self.kind.token());
        line.append(" ");
        match self.flags.basic {
            true => line.append("basic"),
            false => (),
        }
        line.append(" (");
        let rendered = self.filters.render();
        line.append(rendered.as_str());
        line.append(")");
        match &self.options {
            Some(o) => {
                line.append(" {\"page\":");
                let p = fmt_u64(o.page as u64);
                line.append(p.as_str());
                line.append(",\"results\":");
                let q = fmt_u64(o.results as u64);
                line.append(q.as_str());
                line.append("}");
            },
            None => (),
        }
        proof {
            if !self.flags.basic {
                reveal_strlit("");
                assert(flags_token(self.flags) =~= ""@);
            }
            assert(line@ =~= get_line(self.kind, self.flags, self.filters@, self.options));
        }
        Request { line }
    }
}

/// A response frame, classified by its leading word.
pub enum Frame {
    /// The bare frame `ok`.
    Okay,
    /// `results <payload>`: the payload still to be decoded.
    Results(String),
    /// `error <payload>`.
    Error(String),
    /// Anything else.
    Unknown(String),
}

/// Classifies one received line: `ok`, `results <json>` or `error <json>`;
/// anything else is kept whole as unknown.
pub fn classify_frame(line: &str) -> (r: Frame)
    ensures
        line@ == "ok"@ ==> r is Okay,
        line@.len() > 8 && line@.take(8) == "results "@
            ==> (r matches Frame::Results(p) && p@ == line@.skip(8)),
        line@.len() > 6 && line@.take(6) == "error "@
            ==> (r matches Frame::Error(p) && p@ == line@.skip(6)),
        !(line@ == "ok"@) && !(line@.len() > 8 && line@.take(8) == "results "@)
            && !(line@.len() > 6 && line@.take(6) == "error "@)
            ==> (r matches Frame::Unknown(p) && p@ == line@),
{
    let s = chars_of(line);
    proof {
        reveal_strlit("ok");
        reveal_strlit("results ");
        reveal_strlit("error ");
    }
    if s.len() == 2 && starts_with(&s, "ok") {
        proof {
            assert(s@ =~= "ok"@);
        }
        return Frame::Okay;
    }
    if s.len() > 8 && starts_with(&s, "results ") {
        proof {
            assert(s@.take(8) =~= "results "@);
            assert(s@.take(8)[0] == s@[0]);
            if s@.len() > 6 && s@.take(6) == "error "@ {
                assert(s@.take(6)[0] == s@[0]);
                assert(false);
            }
        }
        let payload = copy_range(&s, 8, s.len());
        return Frame::Results(payload);
    }
    if s.len() > 6 && starts_with(&s, "error ") {
        proof {
            assert(s@.take(6) =~= "error "@);
            assert(s@.take(6)[0] == s@[0]);
            if s@.len() > 8 && s@.take(8) == "results "@ {
                assert(s@.take(8)[0] == s@[0]);
                assert(false);
            }
        }
        let payload = copy_range(&s, 6, s.len());
        return Frame::Error(payload);
    }
    proof {
        assert(!(s@ == "ok"@)) by {
            if s@ == "ok"@ {
                assert(s@.len() == 2);
                assert(s@[0] == 'o' && s@[1] == 'k');
            }
        }
        assert(!(s@.len() > 8 && s@.take(8) == "results "@)) by {
            if s@.len() > 8 && s@.take(8) == "results "@ {
                assert forall|k: int| 0 <= k < 8 implies s@[k] == "results "@[k] by {
                    assert(s@.take(8)[k] == s@[k]);
                }
            }
        }
        assert(!(s@.len() > 6 && s@.take(6) == "error "@)) by {
            if s@.len() > 6 && s@.take(6) == "error "@ {
                assert forall|k: int| 0 <= k < 6 implies s@[k] == "error "@[k] by {
                    assert(s@.take(6)[k] == s@[k]);
                }
            }
        }
    }
    Frame::Unknown(string_of(&s))
}

/// Whether `s` starts with the characters of the (ASCII) prefix.
fn starts_with(s: &Vec<char>, prefix: &str) -> (r: bool)
    ensures
        r == (s@.len() >= prefix@.len() && s@.take(prefix@.len() as int) =~= prefix@),
{
    let p = chars_of(prefix);
    if s.len() < p.len() {
        return false;
    }
    let mut i: usize = 0;
    while i < p.len()
        invariant
            p@ == prefix@,
            p@.len() <= s@.len(),
            i <= p@.len(),
            forall|k: int| 0 <= k < i ==> s@[k] == p@[k],
        decreases p@.len() - i,
    {
        if s[i] != p[i] {
            proof {
                assert(s@.take(prefix@.len() as int)[i as int] != prefix@[i as int]);
            }
            return false;
        }
        i = i + 1;
    }
    proof {
        assert(s@.take(prefix@.len() as int) =~= prefix@);
    }
    true
}

/// Copies `s[from..to]` into a string.
fn copy_range(s: &Vec<char>, from: usize, to: usize) -> (r: String)
    requires
        from <= to <= s@.len(),
    ensures
        r@ == s@.subrange(from as int, to as int),
{
    let mut piece: Vec<char> = Vec::new();
    let mut k = from;
    while k < to
        invariant
            from <= k <= to <= s@.len(),
            piece@ == s@.subrange(from as int, k as int),
        decreases to - k,
    {
        piece.push(s[k]);
        k = k + 1;
        proof {
            assert(piece@ =~= s@.subrange(from as int, k as int));
        }
    }
    string_of(&piece)
}

} // verus!
