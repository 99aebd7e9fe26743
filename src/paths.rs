//! Path rules of the install pipeline: which archive entry paths stay inside
//! the directory they are unpacked into, which names may stand for a single
//! directory entry, and how paths are joined.

use vstd::prelude::*;

verus! {

/// The separator between path components.
pub const SEP: &'static str = "/";

/// The byte value of the separator.
pub const SEP_BYTE: u8 = 0x2f;

/// The byte value of `.`.
pub const DOT_BYTE: u8 = 0x2e;

/// `a` and `b` joined with one separator between them.
pub open spec fn joined(a: Seq<char>, b: Seq<char>) -> Seq<char> {
    a + SEP@ + b
}

/// At index `i` of `p` stands a whole `..` component.
pub open spec fn parent_at(p: Seq<u8>, i: int) -> bool {
    &&& 0 <= i
    &&& i + 1 < p.len()
    &&& p[i] == DOT_BYTE
    &&& p[i + 1] == DOT_BYTE
    &&& (i == 0 || p[i - 1] == SEP_BYTE)
    &&& (i + 2 == p.len() || p[i + 2] == SEP_BYTE)
}

/// A relative path that, joined to a directory, names something inside it:
/// not empty, not absolute, and without a `..` component.
pub open spec fn stays_inside(p: Seq<u8>) -> bool {
    &&& p.len() > 0
    &&& p[0] != SEP_BYTE
    &&& forall|i: int| 0 <= i < p.len() ==> !#[trigger] parent_at(p, i)
}

/// A name of one directory entry: not empty, no separator, not `.` or `..`.
pub open spec fn plain_name(p: Seq<u8>) -> bool {
    &&& p.len() > 0
    &&& forall|i: int| 0 <= i < p.len() ==> #[trigger] p[i] != SEP_BYTE
    &&& p != seq![DOT_BYTE]
    &&& p != seq![DOT_BYTE, DOT_BYTE]
}

/// Tells whether the relative path `p` stays inside the directory it is
/// joined to.
pub fn path_stays_inside(p: &[u8]) -> (r: bool)
    ensures
        r == stays_inside(p@),
{
    let n = p.len();
    if n == 0 || p[0] == SEP_BYTE {
        return false;
    }
    let mut i: usize = 0;
    while i < n
        invariant
            n == p@.len(),
            i <= n,
            forall|j: int| 0 <= j < i ==> !#[trigger] parent_at(p@, j),
        decreases n - i,
    {
        if i + 1 < n && p[i] == DOT_BYTE && p[i + 1] == DOT_BYTE && (i == 0 || p[i - 1]
            == SEP_BYTE) && (i + 2 == n || p[i + 2] == SEP_BYTE) {
            assert(parent_at(p@, i as int));
            return false;
        }
        i = i + 1;
    }
    true
}

/// Tells whether `p` names one directory entry.
pub fn is_plain_name(p: &[u8]) -> (r: bool)
    ensures
        r == plain_name(p@),
{
    let n = p.len();
    if n == 0 {
        return false;
    }
    if n == 1 && p[0] == DOT_BYTE {
        assert(p@ =~= seq![DOT_BYTE]);
        return false;
    }
    if n == 2 && p[0] == DOT_BYTE && p[1] == DOT_BYTE {
        assert(p@ =~= seq![DOT_BYTE, DOT_BYTE]);
        return false;
    }
    let mut i: usize = 0;
    while i < n
        invariant
            n == p@.len(),
            i <= n,
            forall|j: int| 0 <= j < i ==> #[trigger] p@[j] != SEP_BYTE,
        decreases n - i,
    {
        if p[i] == SEP_BYTE {
            return false;
        }
        i = i + 1;
    }
    assert(p@ != seq![DOT_BYTE]) by {
        if p@ == seq![DOT_BYTE] {
            assert(p@.len() == 1);
        }
    }
    assert(p@ != seq![DOT_BYTE, DOT_BYTE]) by {
        if p@ == seq![DOT_BYTE, DOT_BYTE] {
            assert(p@.len() == 2 && p@[0] == DOT_BYTE && p@[1] == DOT_BYTE);
        }
    }
    true
}

/// `a` and `b` joined with one separator between them.
pub fn join_path(a: &str, b: &str) -> (r: String)
    ensures
        r@ == joined(a@, b@),
{
    let s = String::from_str(a);
    let s = s.concat(SEP);
    s.concat(b)
}

} // verus!
