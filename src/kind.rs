use vstd::prelude::*;
use vstd::string::StrSliceExecFns;

verus! {

/// The type tag of entities that get an HTTP behaviour.
pub const HTTP: &'static str = "http";

/// The type tag of entities that get a JSON-RPC behaviour.
pub const JSONRPC: &'static str = "jsonrpc";

/// The behaviour kinds this provider knows.
#[derive(Clone, Copy, Debug, PartialEq, Eq, Structural)]
pub enum BehaviourKind {
    Http,
    JsonRpc,
}

/// The kind whose identifier equals the type tag `tag`, if any.
pub open spec fn kind_of_tag(tag: Seq<char>) -> Option<BehaviourKind> {
    if tag == HTTP@ {
        Some(BehaviourKind::Http)
    } else if tag == JSONRPC@ {
        Some(BehaviourKind::JsonRpc)
    } else {
        None
    }
}

/// Whether two strings hold the same characters.
pub fn same_text(a: &str, b: &str) -> (r: bool)
    ensures
        r == (a@ == b@),
{
    let n = a.unicode_len();
    if n != b.unicode_len() {
        return false;
    }
    let mut i: usize = 0;
    while i < n
        invariant
            n == a@.len(),
            n == b@.len(),
            i <= n,
            forall|j: int| 0 <= j < i ==> a@[j] == b@[j],
        decreases n - i,
    {
        if a.get_char(i) != b.get_char(i) {
            return false;
        }
        i = i + 1;
    }
    assert(a@ =~= b@);
    true
}

impl BehaviourKind {
    /// The identifier of this kind, which is also the type tag it matches.
    pub fn tag(&self) -> (r: &'static str)
        ensures
            r@ == match *self {
                BehaviourKind::Http => HTTP@,
                BehaviourKind::JsonRpc => JSONRPC@,
            },
    {
        match self {
            BehaviourKind::Http => HTTP,
            BehaviourKind::JsonRpc => JSONRPC,
        }
    }

    /// The kind that the type tag `tag` selects, if any.
    pub fn of_tag(tag: &str) -> (r: Option<BehaviourKind>)
        ensures
            r == kind_of_tag(tag@),
    {
        if same_text(tag, HTTP) {
            Some(BehaviourKind::Http)
        } else if same_text(tag, JSONRPC) {
            Some(BehaviourKind::JsonRpc)
        } else {
            None
        }
    }
}

} // verus!
