//! The order of denominations: that of their bytes.

use vstd::prelude::*;
use vstd::utf8::{encode_utf8, encode_utf8_decode_utf8};

verus! {

/// The first place from `i` on at which `a` and `b` do not hold the same
/// byte, or at which one of them ends.
pub open spec fn common_from(a: Seq<u8>, b: Seq<u8>, i: int) -> int
    decreases a.len() - i,
{
    if 0 <= i < a.len() && i < b.len() && a[i] == b[i] {
        common_from(a, b, i + 1)
    } else {
        i
    }
}

/// The length of what `a` and `b` have in common at their start.
pub open spec fn common(a: Seq<u8>, b: Seq<u8>) -> int {
    common_from(a, b, 0)
}

/// Whether `a` comes before `b`: after what they have in common, `a` ends
/// and `b` goes on, or `a` holds the smaller byte.
pub open spec fn bytes_before(a: Seq<u8>, b: Seq<u8>) -> bool {
    let k = common(a, b);
    k < b.len() && (k == a.len() || a[k] < b[k])
}

/// Whether the denomination `a` comes before `b`, by their bytes.
pub open spec fn denom_before(a: Seq<char>, b: Seq<char>) -> bool {
    bytes_before(encode_utf8(a), encode_utf8(b))
}

proof fn lemma_common_from(a: Seq<u8>, b: Seq<u8>, i: int)
    requires
        0 <= i <= a.len(),
        i <= b.len(),
    ensures
        i <= common_from(a, b, i) <= a.len(),
        common_from(a, b, i) <= b.len(),
        forall|j: int| i <= j < common_from(a, b, i) ==> a[j] == b[j],
        common_from(a, b, i) < a.len() && common_from(a, b, i) < b.len() ==> a[common_from(
            a,
            b,
            i,
        )] != b[common_from(a, b, i)],
    decreases a.len() - i,
{
    if i < a.len() && i < b.len() && a[i] == b[i] {
        lemma_common_from(a, b, i + 1);
    }
}

/// What `a` and `b` have in common ends at `k` if they agree before `k`
/// and do not agree at `k`.
proof fn lemma_common_is(a: Seq<u8>, b: Seq<u8>, k: int)
    requires
        0 <= k <= a.len(),
        k <= b.len(),
        forall|j: int| 0 <= j < k ==> a[j] == b[j],
        k < a.len() && k < b.len() ==> a[k] != b[k],
    ensures
        common(a, b) == k,
{
    lemma_common_from(a, b, 0);
}

/// The order of byte sequences is a strict total order.
pub proof fn lemma_bytes_order(a: Seq<u8>, b: Seq<u8>, c: Seq<u8>)
    ensures
        !bytes_before(a, a),
        !(bytes_before(a, b) && bytes_before(b, a)),
        bytes_before(a, b) && bytes_before(b, c) ==> bytes_before(a, c),
        a != b ==> bytes_before(a, b) || bytes_before(b, a),
{
    lemma_common_from(a, a, 0);
    lemma_common_from(a, b, 0);
    lemma_common_from(b, a, 0);
    lemma_common_from(b, c, 0);
    lemma_common_is(b, a, common(a, b));
    if bytes_before(a, b) && bytes_before(b, c) {
        let k1 = common(a, b);
        let k2 = common(b, c);
        let k = if k1 <= k2 { k1 } else { k2 };
        lemma_common_is(a, c, k);
    }
    if a != b && !bytes_before(a, b) && !bytes_before(b, a) {
        assert(a =~= b);
    }
}

/// The order of denominations is a strict total order.
pub proof fn lemma_denom_order(a: Seq<char>, b: Seq<char>, c: Seq<char>)
    ensures
        !denom_before(a, a),
        !(denom_before(a, b) && denom_before(b, a)),
        denom_before(a, b) && denom_before(b, c) ==> denom_before(a, c),
        a != b ==> denom_before(a, b) || denom_before(b, a),
{
    lemma_bytes_order(encode_utf8(a), encode_utf8(b), encode_utf8(c));
    encode_utf8_decode_utf8(a);
    encode_utf8_decode_utf8(b);
}

/// Whether the denomination `a` comes before `b`.
pub fn comes_before(a: &String, b: &String) -> (r: bool)
    ensures
        r == denom_before(a@, b@),
{
    let x = a.as_str().as_bytes();
    let y = b.as_str().as_bytes();
    let mut i: usize = 0;
    loop
        invariant
            x@ == encode_utf8(a@),
            y@ == encode_utf8(b@),
            i <= x.len(),
            i <= y.len(),
            forall|j: int| 0 <= j < i ==> x@[j] == y@[j],
        ensures
            i <= x.len(),
            i <= y.len(),
            common(x@, y@) == i,
        decreases x.len() - i,
    {
        if i >= x.len() || i >= y.len() || x[i] != y[i] {
            proof {
                lemma_common_is(x@, y@, i as int);
            }
            break ;
        }
        i += 1;
    }
    i < y.len() && (i == x.len() || x[i] < y[i])
}

} // verus!
