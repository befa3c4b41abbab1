use vstd::prelude::*;
use vstd::string::StrSliceExecFns;

verus! {

/// Why a statement or a probe failed.
#[derive(Clone, Copy, Debug, PartialEq, Eq, Structural)]
pub enum DbError {
    /// The connection was lost or timed out.
    Transport,
    /// The session's role may not perform the statement.
    Authorization,
    /// The statement refers to an object the catalog lacks, or the server
    /// refused it for another reason.
    Catalog,
    /// The statement creates an object that already exists.
    Duplicate,
}

pub open spec fn in_class(code: Seq<char>, a: char, b: char) -> bool {
    code.len() >= 2 && code[0] == a && code[1] == b
}

/// The kind of failure that a server's SQLSTATE code reports; no code means
/// the failure happened on the way to the server.
pub open spec fn classify_spec(code: Option<Seq<char>>) -> DbError {
    match code {
        None => DbError::Transport,
        Some(c) => if c == "42501"@ || in_class(c, '2', '8') {
            DbError::Authorization
        } else if c == "42701"@ || c == "42P07"@ || c == "42710"@ || c == "42P06"@ {
            DbError::Duplicate
        } else if in_class(c, '0', '8') || in_class(c, '5', '7') {
            DbError::Transport
        } else {
            DbError::Catalog
        },
    }
}

fn same_text(a: &str, b: &str) -> (r: bool)
    ensures
        r == (a@ == b@),
{
    let n = a.unicode_len();
    if n != b.unicode_len() {
        return false;
    }
    let mut i: usize = 0;
    while i < n
        invariant
            n == a@.len() == b@.len(),
            i <= n,
            forall|k: int| 0 <= k < i ==> a@[k] == b@[k],
        decreases n - i,
    {
        if a.get_char(i) != b.get_char(i) {
            return false;
        }
        i = i + 1;
    }
    assert(a@ =~= b@);
    true
}

fn starts_with_pair(code: &str, a: char, b: char) -> (r: bool)
    ensures
        r == in_class(code@, a, b),
{
    code.unicode_len() >= 2 && code.get_char(0) == a && code.get_char(1) == b
}

impl DbError {
    /// Classifies a failure by the SQLSTATE code the server sent, if any.
    pub fn from_sqlstate(code: Option<&str>) -> (r: DbError)
        ensures
            r == classify_spec(
                match code {
                    Some(c) => Some(c@),
                    None => None,
                },
            ),
    {
        match code {
            None => DbError::Transport,
            Some(c) => {
                if same_text(c, "42501") || starts_with_pair(c, '2', '8') {
                    DbError::Authorization
                } else if same_text(c, "42701") || same_text(c, "42P07") || same_text(c, "42710")
                    || same_text(c, "42P06") {
                    DbError::Duplicate
                } else if starts_with_pair(c, '0', '8') || starts_with_pair(c, '5', '7') {
                    DbError::Transport
                } else {
                    DbError::Catalog
                }
            },
        }
    }
}

} // verus!
