//! Equality and order of strings, decided on their UTF-8 bytes.
use vstd::prelude::*;
use vstd::utf8::encode_utf8;

verus! {

/// How one string stands to another in the order of `precedes`.
#[derive(Debug, Clone, Copy, PartialEq, Eq)]
pub enum Order {
    Before,
    Same,
    After,
}

/// `x` and `y` agree on their first `k` bytes, and there `x` ends or goes on with a lower byte.
pub open spec fn parts_at(x: Seq<u8>, y: Seq<u8>, k: int) -> bool {
    &&& 0 <= k <= x.len()
    &&& k < y.len()
    &&& forall|i: int| 0 <= i < k ==> x[i] == y[i]
    &&& k == x.len() || x[k] < y[k]
}

/// Lexicographic order by byte values.
pub open spec fn bytes_precede(x: Seq<u8>, y: Seq<u8>) -> bool {
    exists|k: int| parts_at(x, y, k)
}

/// The order of strings: lexicographic by the bytes of their UTF-8 encodings.
pub open spec fn precedes(a: Seq<char>, b: Seq<char>) -> bool {
    bytes_precede(encode_utf8(a), encode_utf8(b))
}

/// Two strings with the same UTF-8 encoding are the same string.
proof fn lemma_encoding_injective(a: Seq<char>, b: Seq<char>)
    ensures
        encode_utf8(a) == encode_utf8(b) ==> a == b,
{
    vstd::utf8::encode_utf8_decode_utf8(a);
    vstd::utf8::encode_utf8_decode_utf8(b);
}

/// No string precedes itself.
pub proof fn precedes_is_irreflexive(a: Seq<char>)
    ensures
        !precedes(a, a),
{
}

/// A string that precedes a second, which precedes a third, precedes the third.
pub proof fn precedes_is_transitive(a: Seq<char>, b: Seq<char>, c: Seq<char>)
    requires
        precedes(a, b),
        precedes(b, c),
    ensures
        precedes(a, c),
{
    let (x, y, z) = (encode_utf8(a), encode_utf8(b), encode_utf8(c));
    let j = choose|k: int| parts_at(x, y, k);
    let k = choose|k: int| parts_at(y, z, k);
    if j <= k {
        assert(parts_at(x, z, j));
    } else {
        assert(parts_at(x, z, k));
    }
}

/// Of two different strings one precedes the other.
pub proof fn precedes_is_total(a: Seq<char>, b: Seq<char>)
    ensures
        a == b || precedes(a, b) || precedes(b, a),
{
    let (x, y) = (encode_utf8(a), encode_utf8(b));
    lemma_encoding_injective(a, b);
    lemma_bytes_total(x, y, 0);
}

proof fn lemma_bytes_total(x: Seq<u8>, y: Seq<u8>, k: int)
    requires
        0 <= k <= x.len(),
        k <= y.len(),
        forall|i: int| 0 <= i < k ==> x[i] == y[i],
    ensures
        x == y || bytes_precede(x, y) || bytes_precede(y, x),
    decreases x.len() - k,
{
    if k == x.len() && k == y.len() {
        assert(x =~= y);
    } else if k == x.len() || (k < y.len() && x[k] < y[k]) {
        assert(parts_at(x, y, k));
    } else if k == y.len() || y[k] < x[k] {
        assert(parts_at(y, x, k));
    } else {
        lemma_bytes_total(x, y, k + 1);
    }
}

/// The first byte in which the encodings of two strings differ decides which one precedes.
pub proof fn first_different_byte_decides(a: Seq<char>, b: Seq<char>, k: int)
    requires
        0 <= k < encode_utf8(a).len(),
        k < encode_utf8(b).len(),
        encode_utf8(a).take(k) == encode_utf8(b).take(k),
        encode_utf8(a)[k] != encode_utf8(b)[k],
    ensures
        precedes(a, b) <==> encode_utf8(a)[k] < encode_utf8(b)[k],
        precedes(b, a) <==> encode_utf8(b)[k] < encode_utf8(a)[k],
{
    let (x, y) = (encode_utf8(a), encode_utf8(b));
    assert forall|i: int| 0 <= i < k implies x[i] == y[i] by {
        assert(x.take(k)[i] == y.take(k)[i]);
    }
    if x[k] < y[k] {
        assert(parts_at(x, y, k));
    } else {
        assert(parts_at(y, x, k));
    }
}

/// A string whose encoding is the start of a longer one precedes the longer one.
pub proof fn start_precedes_the_whole(a: Seq<char>, b: Seq<char>)
    requires
        encode_utf8(a).len() < encode_utf8(b).len(),
        encode_utf8(a) == encode_utf8(b).take(encode_utf8(a).len() as int),
    ensures
        precedes(a, b),
        !precedes(b, a),
{
    let (x, y) = (encode_utf8(a), encode_utf8(b));
    assert forall|i: int| 0 <= i < x.len() implies x[i] == y[i] by {
        assert(y.take(x.len() as int)[i] == y[i]);
    }
    assert(parts_at(x, y, x.len() as int));
}

/// Where `a` stands to `b` in the order of strings.
pub fn order(a: &str, b: &str) -> (res: Order)
    ensures
        match res {
            Order::Before => precedes(a@, b@),
            Order::Same => a@ == b@,
            Order::After => precedes(b@, a@),
        },
{
    let x: &[u8] = a.as_bytes();
    let y: &[u8] = b.as_bytes();
    let mut k: usize = 0;
    while k < x.len() && k < y.len() && x[k] == y[k]
        invariant
            k <= x.len(),
            k <= y.len(),
            forall|i: int| 0 <= i < k ==> x[i] == y[i],
        decreases x.len() - k,
    {
        k = k + 1;
    }
    if k == x.len() && k == y.len() {
        proof {
            assert(x@ =~= y@);
            lemma_encoding_injective(a@, b@);
        }
        Order::Same
    } else if k == x.len() || (k < y.len() && x[k] < y[k]) {
        assert(parts_at(x@, y@, k as int));
        Order::Before
    } else {
        assert(parts_at(y@, x@, k as int));
        Order::After
    }
}

/// Whether `a` and `b` hold the same characters.
pub fn same(a: &str, b: &str) -> (res: bool)
    ensures
        res == (a@ == b@),
{
    match order(a, b) {
        Order::Same => true,
        Order::Before => {
            proof {
                precedes_is_irreflexive(a@);
            }
            false
        },
        Order::After => {
            proof {
                precedes_is_irreflexive(a@);
            }
            false
        },
    }
}

} // verus!
