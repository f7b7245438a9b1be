//! The chat transport's verifiable pieces: the reply envelope that carries
//! a command with its reply target, the per-transport ignore list, and the
//! stop signal. The connection itself stays with the surrounding runtime.

use vstd::prelude::*;
use crate::text::str_eq;

verus! {

/// A command on its way to a reply: where it came from and where the
/// answer goes.
pub struct GetIrcResponse<T> {
    pub target: String,
    pub from: String,
    pub is_pm: bool,
    pub cmd: T,
}

impl<T> GetIrcResponse<T> {
    pub fn new(target: String, from: String, is_pm: bool, cmd: T) -> (r: GetIrcResponse<T>)
        ensures
            r.target@ == target@ && r.from@ == from@ && r.is_pm == is_pm && r.cmd == cmd,
    {
        GetIrcResponse { target, from, is_pm, cmd }
    }

    /// The channel form of a reply line: the sender's name, then the text.
    /// A private message is sent bare instead.
    pub fn prefix_line(&self, msg: &str) -> (r: String)
        ensures
            r@ == self.from@ + ": "@ + msg@,
    {
        let mut out = String::new();
        out.append(self.from.as_str());
        out.append(": ");
        out.append(msg);
        proof {
            assert(out@ =~= self.from@ + ": "@ + msg@);
        }
        out
    }

    /// Where the reply goes and what it says: a private message goes bare
    /// back to the sender; a channel reply goes to the target, prefixed
    /// with the sender's name. The transport performs the send itself,
    /// with the returned destination and line.
    pub fn respond(&self, msg: &str) -> (r: (String, String))
        ensures
            self.is_pm ==> r.0@ == self.from@ && r.1@ == msg@,
            !self.is_pm ==> r.0@ == self.target@ && r.1@ == self.from@ + ": "@ + msg@,
    {
        if self.is_pm {
            let mut line = String::new();
            line.append(msg);
            proof {
                assert(line@ =~= msg@);
            }
            (self.from.clone(), line)
        } else {
            (self.target.clone(), self.prefix_line(msg))
        }
    }
}

/// Asks the transport to shut the process down.
pub struct StopSystem;

/// The names in the list, in the order they were added.
pub open spec fn ignore_model(names: Seq<String>) -> Seq<Seq<char>> {
    names.map_values(|n: String| n@)
}

/// The per-transport ignore list: a set of speaker names, kept only for
/// the life of the process.
pub struct IgnoreList {
    names: Vec<String>,
}

impl View for IgnoreList {
    type V = Seq<Seq<char>>;

    closed spec fn view(&self) -> Seq<Seq<char>> {
        ignore_model(self.names@)
    }
}

impl IgnoreList {
    /// No name is listed twice.
    pub open spec fn wf(&self) -> bool {
        forall|i: int, j: int| 0 <= i < j < self@.len()
            ==> #[trigger] self@[i] != #[trigger] self@[j]
    }

    pub fn new() -> (r: IgnoreList)
        ensures
            r.wf(),
            r@ =~= Seq::<Seq<char>>::empty(),
    {
        IgnoreList { names: Vec::new() }
    }

    /// Whether messages from this speaker are dropped.
    pub fn contains(&self, name: &str) -> (r: bool)
        ensures
            r == self@.contains(name@),
    {
        let mut i: usize = 0;
        while i < self.names.len()
            invariant
                i <= self@.len(),
                forall|j: int| 0 <= j < i ==> #[trigger] self@[j] != name@,
            decreases self@.len() - i,
        {
            proof {
                assert(self@[i as int] == self.names@[i as int]@);
            }
            if str_eq(self.names[i].as_str(), name) {
                proof {
                    assert(self@[i as int] == name@);
                }
                return true;
            }
            i = i + 1;
        }
        proof {
            if self@.contains(name@) {
                let w = choose|w: int| 0 <= w < self@.len() && self@[w] == name@;
                assert(false);
            }
        }
        false
    }

    /// Toggles a speaker: a listed name leaves the list, an unlisted one
    /// joins it. Returns whether the name was added.
    pub fn toggle(&mut self, name: String) -> (added: bool)
        requires
            old(self).wf(),
        ensures
            final(self).wf(),
            added == !old(self)@.contains(name@),
            added ==> final(self)@ =~= old(self)@.push(name@),
            !added ==> final(self)@ =~= old(self)@.filter(|n: Seq<char>| n != name@),
    {
        if self.contains(name.as_str()) {
            let mut kept: Vec<String> = Vec::new();
            let ghost mut pos: Seq<int> = Seq::empty();
            let mut i: usize = 0;
            proof {
                reveal(Seq::filter);
                assert(ignore_model(kept@) =~= self@.subrange(0, 0).filter(
                    |n: Seq<char>| n != name@));
            }
            while i < self.names.len()
                invariant
                    old(self).wf(),
                    self == old(self),
                    i <= self@.len(),
                    ignore_model(kept@) == self@.subrange(0, i as int).filter(
                        |n: Seq<char>| n != name@),
                    pos.len() == kept@.len(),
                    forall|a: int| 0 <= a < pos.len() ==> 0 <= #[trigger] pos[a] < i
                        && kept@[a]@ == self@[pos[a]],
                    forall|a: int, b: int| 0 <= a < b < pos.len() ==> pos[a] < pos[b],
                decreases self@.len() - i,
            {
                proof {
                    reveal(Seq::filter);
                    assert(self@.subrange(0, i + 1).drop_last()
                        =~= self@.subrange(0, i as int));
                    assert(self@[i as int] == self.names@[i as int]@);
                }
                if !str_eq(self.names[i].as_str(), name.as_str()) {
                    let ghost prev = kept@;
                    let ghost prev_pos = pos;
                    kept.push(self.names[i].clone());
                    proof {
                        pos = pos.push(i as int);
                        assert(ignore_model(kept@) =~= self@.subrange(0, i as int).filter(
                            |n: Seq<char>| n != name@).push(self@[i as int]));
                        assert forall|a: int| 0 <= a < pos.len()
                            implies 0 <= #[trigger] pos[a] <= i
                                && kept@[a]@ == self@[pos[a]] by {
                            if a < pos.len() - 1 {
                                assert(kept@[a] == prev[a] && pos[a] == prev_pos[a]);
                            } else {
                                assert(kept@[a]@ == self@[i as int]);
                            }
                        }
                    }
                } else {
                    proof {
                        assert(self@[i as int] == name@);
                    }
                }
                i = i + 1;
            }
            proof {
                assert(self@.subrange(0, self@.len() as int) =~= self@);
            }
            self.names = kept;
            proof {
                let m0 = old(self)@;
                let mi = final(self)@;
                assert forall|a: int, b: int| 0 <= a < b < mi.len()
                    implies #[trigger] mi[a] != #[trigger] mi[b] by {
                    assert(mi[a] == m0[pos[a]] && mi[b] == m0[pos[b]]);
                }
            }
            false
        } else {
            let ghost prev = self@;
            self.names.push(name);
            proof {
                assert(final(self)@ =~= prev.push(name@));
                assert forall|a: int, b: int| 0 <= a < b < final(self)@.len()
                    implies #[trigger] final(self)@[a] != #[trigger] final(self)@[b] by {
                    if b == prev.len() {
                        if final(self)@[a] == name@ {
                            assert(prev[a] == name@);
                            assert(prev.contains(name@));
                        }
                    }
                }
            }
            true
        }
    }

    /// The listed names, in order.
    pub fn names(&self) -> (r: &Vec<String>)
        ensures
            ignore_model(r@) == self@,
    {
        &self.names
    }

    /// The reply printing the whole list.
    pub fn list_reply(&self) -> (r: String)
        ensures
            r@ == "Ignore list: "@ + comma_join(self@),
    {
        let mut out = String::new();
        out.append("Ignore list: ");
        let mut i: usize = 0;
        while i < self.names.len()
            invariant
                i <= self@.len(),
                out@ == "Ignore list: "@ + comma_join(self@.take(i as int)),
            decreases self@.len() - i,
        {
            if i > 0 {
                out.append(", ");
            }
            out.append(self.names[i].as_str());
            i = i + 1;
            proof {
                let pre = self@.take(i as int);
                assert(pre.drop_last() =~= self@.take(i - 1));
                assert(pre.last() == self@[i - 1]);
                assert(self@[i - 1] == self.names@[i - 1]@);
                assert(out@ =~= "Ignore list: "@ + comma_join(pre));
            }
        }
        proof {
            assert(self@.take(self@.len() as int) =~= self@);
        }
        out
    }
}

/// Names joined by `, `.
pub open spec fn comma_join(names: Seq<Seq<char>>) -> Seq<char>
    decreases names.len(),
{
    if names.len() == 0 {
        Seq::empty()
    } else if names.len() == 1 {
        names[0]
    } else {
        comma_join(names.drop_last()) + ", "@ + names.last()
    }
}

/// The reply to an ignore toggle: the speaker joined or left the list.
pub open spec fn ignore_reply_text(name: Seq<char>, added: bool) -> Seq<char> {
    if added {
        "Added '"@ + name + "' to ignore list"@
    } else {
        "Removed '"@ + name + "' from ignore list"@
    }
}

/// Renders the reply to an ignore toggle.
pub fn ignore_reply(name: &str, added: bool) -> (r: String)
    ensures
        r@ == ignore_reply_text(name@, added),
{
    let mut out = String::new();
    if added {
        out.append("Added '");
        out.append(name);
        out.append("' to ignore list");
    } else {
        out.append("Removed '");
        out.append(name);
        out.append("' from ignore list");
    }
    proof {
        assert(out@ =~= ignore_reply_text(name@, added));
    }
    out
}

/// The reply to a finished hook removal, carrying the reference or title
/// the user gave.
pub open spec fn del_hook_reply_text(title: Seq<char>, removed: int) -> Seq<char> {
    if removed == 0 {
        title + ": No hook to remove."@
    } else {
        title + ": Removed hook"@
    }
}

/// Renders the reply to a finished hook removal.
pub fn del_hook_reply(title: &str, removed: usize) -> (r: String)
    ensures
        r@ == del_hook_reply_text(title@, removed as int),
{
    let mut out = String::new();
    out.append(title);
    if removed == 0 {
        out.append(": No hook to remove.");
    } else {
        out.append(": Removed hook");
    }
    proof {
        assert(out@ =~= del_hook_reply_text(title@, removed as int));
    }
    out
}

/// The reply to a finished VN removal, carrying the reference or title the
/// user gave.
pub open spec fn del_vn_reply_text(title: Seq<char>, removed: int) -> Seq<char> {
    if removed == 0 {
        title + ": No such VN exists in DB."@
    } else {
        title + ": removed from DB."@
    }
}

/// Renders the reply to a finished VN removal.
pub fn del_vn_reply(title: &str, removed: usize) -> (r: String)
    ensures
        r@ == del_vn_reply_text(title@, removed as int),
{
    let mut out = String::new();
    out.append(title);
    if removed == 0 {
        out.append(": No such VN exists in DB.");
    } else {
        out.append(": removed from DB.");
    }
    proof {
        assert(out@ =~= del_vn_reply_text(title@, removed as int));
    }
    out
}

} // verus!
