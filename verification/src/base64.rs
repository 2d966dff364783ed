//! Base-64 text, in the standard alphabet with `=` padding.

use vstd::prelude::*;

verus! {

/// The 64 symbols, in the order of their values.
pub open spec fn alphabet() -> Seq<char> {
    "ABCDEFGHIJKLMNOPQRSTUVWXYZabcdefghijklmnopqrstuvwxyz0123456789+/"@
}

/// The symbol that stands for the six-bit value `v`.
pub open spec fn symbol(v: int) -> char {
    alphabet()[v]
}

/// The four symbols of a group of three bytes: their 24 bits, six at a time.
pub open spec fn group(b0: int, b1: int, b2: int) -> Seq<char> {
    seq![
        symbol(b0 / 4),
        symbol(b0 % 4 * 16 + b1 / 16),
        symbol(b1 % 16 * 4 + b2 / 64),
        symbol(b2 % 64),
    ]
}

/// The text of a byte string: four symbols for every three bytes. Where one
/// or two bytes are left at the end, the group is filled up with zero bits,
/// and `=` stands in place of the symbols that hold no bit of the input.
pub open spec fn encoding(bytes: Seq<u8>) -> Seq<char>
    decreases bytes.len(),
{
    if bytes.len() == 0 {
        Seq::empty()
    } else if bytes.len() == 1 {
        group(bytes[0] as int, 0, 0).subrange(0, 2) + seq!['=', '=']
    } else if bytes.len() == 2 {
        group(bytes[0] as int, bytes[1] as int, 0).subrange(0, 3) + seq!['=']
    } else {
        group(bytes[0] as int, bytes[1] as int, bytes[2] as int) + encoding(bytes.skip(3))
    }
}

/// Whether a text is the text of some byte string.
pub open spec fn well_formed(text: Seq<char>) -> bool {
    exists|bytes: Seq<u8>| encoding(bytes) == text
}

/// The alphabet has 64 symbols, no two of them alike, and `=` is none of
/// them.
pub proof fn lemma_alphabet()
    ensures
        alphabet().len() == 64,
        alphabet().no_duplicates(),
        !alphabet().contains('='),
{
    reveal_strlit("ABCDEFGHIJKLMNOPQRSTUVWXYZabcdefghijklmnopqrstuvwxyz0123456789+/");
    let a = alphabet();
    assert(a.len() == 64);
    assert forall|i: int, j: int| 0 <= i < a.len() && 0 <= j < a.len() && i != j implies a[i]
        != a[j] by {
        assert(a[i] as int != a[j] as int);
    }
    assert forall|i: int| 0 <= i < a.len() implies a[i] != '=' by {
        assert(a[i] as int != '=' as int);
    }
}

/// Two groups with the same symbols hold the same bytes.
proof fn lemma_group_injective(a0: int, a1: int, a2: int, b0: int, b1: int, b2: int)
    requires
        0 <= a0 < 256 && 0 <= a1 < 256 && 0 <= a2 < 256,
        0 <= b0 < 256 && 0 <= b1 < 256 && 0 <= b2 < 256,
        group(a0, a1, a2) == group(b0, b1, b2),
    ensures
        a0 == b0 && a1 == b1 && a2 == b2,
{
    lemma_alphabet();
    let x = group(a0, a1, a2);
    let y = group(b0, b1, b2);
    assert(x[0] == y[0] && x[1] == y[1] && x[2] == y[2] && x[3] == y[3]);
    assert(a0 / 4 == b0 / 4);
    assert(a0 % 4 * 16 + a1 / 16 == b0 % 4 * 16 + b1 / 16);
    assert(a1 % 16 * 4 + a2 / 64 == b1 % 16 * 4 + b2 / 64);
    assert(a2 % 64 == b2 % 64);
}

/// The shape of a text tells how many bytes it stands for: none, one or two
/// in a last group of their own, or at least three.
proof fn lemma_shape(bytes: Seq<u8>)
    ensures
        bytes.len() == 0 ==> encoding(bytes).len() == 0,
        bytes.len() == 1 ==> encoding(bytes).len() == 4 && encoding(bytes)[2] == '=',
        bytes.len() == 2 ==> encoding(bytes).len() == 4 && encoding(bytes)[2] != '='
            && encoding(bytes)[3] == '=',
        bytes.len() >= 3 ==> encoding(bytes).len() >= 4 && encoding(bytes)[3] != '=',
{
    lemma_alphabet();
    if bytes.len() == 2 {
        let g = group(bytes[0] as int, bytes[1] as int, 0);
        assert(encoding(bytes)[2] == g[2]);
        assert(alphabet().contains(g[2]));
    } else if bytes.len() >= 3 {
        let g = group(bytes[0] as int, bytes[1] as int, bytes[2] as int);
        assert(encoding(bytes) == g + encoding(bytes.skip(3)));
        assert(encoding(bytes)[3] == g[3]);
        assert(alphabet().contains(g[3]));
    }
}

/// No two byte strings have the same text, so a text stands for at most one
/// byte string.
pub proof fn lemma_encoding_injective(a: Seq<u8>, b: Seq<u8>)
    requires
        encoding(a) == encoding(b),
    ensures
        a == b,
    decreases a.len(),
{
    lemma_shape(a);
    lemma_shape(b);
    if a.len() == 0 {
        assert(a =~= b);
    } else if a.len() == 1 {
        let x = group(a[0] as int, 0, 0);
        let y = group(b[0] as int, 0, 0);
        assert(encoding(a)[0] == x[0] && encoding(a)[1] == x[1]);
        assert(encoding(b)[0] == y[0] && encoding(b)[1] == y[1]);
        assert(x =~= y);
        lemma_group_injective(a[0] as int, 0, 0, b[0] as int, 0, 0);
        assert(a =~= b);
    } else if a.len() == 2 {
        let x = group(a[0] as int, a[1] as int, 0);
        let y = group(b[0] as int, b[1] as int, 0);
        assert(encoding(a)[0] == x[0] && encoding(a)[1] == x[1] && encoding(a)[2] == x[2]);
        assert(encoding(b)[0] == y[0] && encoding(b)[1] == y[1] && encoding(b)[2] == y[2]);
        assert(x =~= y);
        lemma_group_injective(a[0] as int, a[1] as int, 0, b[0] as int, b[1] as int, 0);
        assert(a =~= b);
    } else {
        let x = group(a[0] as int, a[1] as int, a[2] as int);
        let y = group(b[0] as int, b[1] as int, b[2] as int);
        let rest_a = encoding(a.skip(3));
        let rest_b = encoding(b.skip(3));
        assert(encoding(a) == x + rest_a);
        assert(encoding(b) == y + rest_b);
        assert(x =~= y) by {
            assert forall|i: int| 0 <= i < 4 implies x[i] == y[i] by {
                assert((x + rest_a)[i] == x[i]);
                assert((y + rest_b)[i] == y[i]);
            }
        }
        assert(rest_a =~= rest_b) by {
            assert(rest_a.len() == rest_b.len());
            assert forall|i: int| 0 <= i < rest_a.len() implies rest_a[i] == rest_b[i] by {
                assert((x + rest_a)[i + 4] == rest_a[i]);
                assert((y + rest_b)[i + 4] == rest_b[i]);
            }
        }
        lemma_group_injective(
            a[0] as int,
            a[1] as int,
            a[2] as int,
            b[0] as int,
            b[1] as int,
            b[2] as int,
        );
        lemma_encoding_injective(a.skip(3), b.skip(3));
        assert(a =~= b) by {
            assert forall|i: int| 0 <= i < a.len() implies a[i] == b[i] by {
                if i >= 3 {
                    assert(a.skip(3)[i - 3] == a[i]);
                    assert(b.skip(3)[i - 3] == b[i]);
                }
            }
        }
    }
}

/// Calls `Engine::encode` on `base64::engine::general_purpose::STANDARD`,
/// which writes the input in the standard alphabet and pads the last group
/// with `=`.
#[verifier::external_body]
pub(crate) fn standard_encode(bytes: &[u8]) -> (text: String)
    ensures
        text@ == encoding(bytes@),
{
    base64::Engine::encode(&base64::engine::general_purpose::STANDARD, bytes)
}

/// Calls `Engine::decode` on `base64::engine::general_purpose::STANDARD`,
/// which accepts a text only in its canonical form: symbols of the standard
/// alphabet, the padding that encoding writes, and no stray bits in the last
/// symbol. What it returns then encodes to the text.
#[verifier::external_body]
pub(crate) fn standard_decode(text: &str) -> (bytes: Option<Vec<u8>>)
    ensures
        match bytes {
            Some(found) => encoding(found@) == text@,
            None => !well_formed(text@),
        },
{
    base64::Engine::decode(&base64::engine::general_purpose::STANDARD, text).ok()
}

} // verus!
