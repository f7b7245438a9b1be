//! An extension to `Result`: errors formatted to a single report string
//! with a prefix naming the failed step.

use vstd::prelude::*;

verus! {

/// The report for a failed step: the prefix, then the error.
pub open spec fn formatted_error(prefix: Seq<char>, error: Seq<char>) -> Seq<char> {
    prefix + ". Error: "@ + error
}

/// Extension to `Result`: formats the error into a report string.
pub trait ResultExt<T>: Sized {
    /// Whether the value is a success.
    spec fn is_success(&self) -> bool;

    /// The error text, where there is one.
    spec fn error_model(&self) -> Seq<char>;

    /// Formats the error to a report with the given prefix; a success is
    /// passed through unchanged.
    fn format_err(self, prefix: &str) -> (r: Result<T, String>)
        ensures
            r is Ok <==> self.is_success(),
            !self.is_success() ==> r->Err_0@ == formatted_error(prefix@, self.error_model()),
            self.is_success() ==> (r matches Ok(v) && self.ok_matches(&v)),
    ;

    /// The success value is the one carried in.
    spec fn ok_matches(&self, v: &T) -> bool;
}

impl<T> ResultExt<T> for Result<T, String> {
    open spec fn is_success(&self) -> bool {
        self is Ok
    }

    open spec fn error_model(&self) -> Seq<char> {
        self->Err_0@
    }

    open spec fn ok_matches(&self, v: &T) -> bool {
        self matches Ok(w) && w == v
    }

    fn format_err(self, prefix: &str) -> (r: Result<T, String>) {
        match self {
            Ok(v) => Ok(v),
            Err(e) => {
                let mut out = String::new();
                out.append(prefix);
                out.append(". Error: ");
                out.append(e.as_str());
                proof {
                    assert(out@ =~= formatted_error(prefix@, e@));
                }
                Err(out)
            },
        }
    }
}

} // verus!
