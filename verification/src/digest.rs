//! The identifier that a report is queued under.

use md5::{Digest, Md5};
use vstd::prelude::*;

verus! {

/// The MD5 digest of a byte string, as the `md5` crate computes it.
pub uninterp spec fn md5_digest(data: Seq<u8>) -> Seq<u8>;

/// Calls `Md5::digest`. Trusted: the digest is a function of the bytes alone, and 16 bytes long.
#[verifier::external_body]
fn digest(data: &[u8]) -> (r: Vec<u8>)
    ensures
        r@ == md5_digest(data@),
        r@.len() == 16,
{
    Md5::digest(data).to_vec()
}

/// The upper case hexadecimal digit of a number below 16.
pub open spec fn hex_digit(n: int) -> char {
    if n < 10 {
        ('0' as int + n) as char
    } else {
        ('A' as int + (n - 10)) as char
    }
}

/// The upper case hexadecimal form of a byte string: two digits for each byte.
pub open spec fn upper_hex(bytes: Seq<u8>) -> Seq<char> {
    Seq::new(
        2 * bytes.len(),
        |i: int|
            if i % 2 == 0 {
                hex_digit(bytes[i / 2] as int / 16)
            } else {
                hex_digit(bytes[i / 2] as int % 16)
            },
    )
}

/// The text that holds one digit.
fn digit_text(n: u8) -> (r: &'static str)
    requires
        n < 16,
    ensures
        r@ == seq![hex_digit(n as int)],
{
    proof {
        reveal_strlit("0");
        reveal_strlit("1");
        reveal_strlit("2");
        reveal_strlit("3");
        reveal_strlit("4");
        reveal_strlit("5");
        reveal_strlit("6");
        reveal_strlit("7");
        reveal_strlit("8");
        reveal_strlit("9");
        reveal_strlit("A");
        reveal_strlit("B");
        reveal_strlit("C");
        reveal_strlit("D");
        reveal_strlit("E");
        reveal_strlit("F");
    }
    let r = match n {
        0 => "0",
        1 => "1",
        2 => "2",
        3 => "3",
        4 => "4",
        5 => "5",
        6 => "6",
        7 => "7",
        8 => "8",
        9 => "9",
        10 => "A",
        11 => "B",
        12 => "C",
        13 => "D",
        14 => "E",
        _ => "F",
    };
    assert(r@ =~= seq![hex_digit(n as int)]);
    r
}

/// The upper case hexadecimal form of a byte string.
pub fn to_upper_hex(bytes: &[u8]) -> (r: String)
    ensures
        r@ == upper_hex(bytes@),
{
    let mut r: String = String::new();
    let mut i: usize = 0;
    assert(r@ =~= upper_hex(bytes@.take(0)));
    while i < bytes.len()
        invariant
            i <= bytes@.len(),
            r@ == upper_hex(bytes@.take(i as int)),
        decreases bytes@.len() - i,
    {
        r.append(digit_text(bytes[i] / 16));
        r.append(digit_text(bytes[i] % 16));
        proof {
            let next = upper_hex(bytes@.take(i + 1));
            assert forall|j: int| 0 <= j < next.len() implies r@[j] == next[j] by {
                if j < 2 * i {
                    assert(bytes@.take(i + 1)[j / 2] == bytes@.take(i as int)[j / 2]);
                }
            }
            assert(r@ =~= next);
        }
        i += 1;
    }
    assert(bytes@.take(bytes@.len() as int) =~= bytes@);
    r
}

/// The identifier of what is known by a name: the hexadecimal form of the digest of the name.
pub fn identifier(name: &[u8]) -> (r: String)
    ensures
        r@ == upper_hex(md5_digest(name@)),
        r@.len() == 32,
{
    to_upper_hex(digest(name).as_slice())
}

/// Two numbers that have the same digit are the same.
proof fn lemma_hex_digit_injective(m: int, n: int)
    requires
        0 <= m < 16,
        0 <= n < 16,
        hex_digit(m) == hex_digit(n),
    ensures
        m == n,
{
    assert(hex_digit(m) as int == if m < 10 { 48 + m } else { 55 + m });
    assert(hex_digit(n) as int == if n < 10 { 48 + n } else { 55 + n });
}

/// Two byte strings that have the same hexadecimal form are the same.
pub proof fn law_upper_hex_injective(a: Seq<u8>, b: Seq<u8>)
    requires
        upper_hex(a) == upper_hex(b),
    ensures
        a == b,
{
    assert(upper_hex(a).len() == 2 * a.len() && upper_hex(b).len() == 2 * b.len());
    assert forall|i: int| 0 <= i < a.len() implies a[i] == b[i] by {
        let high = 2 * i;
        let low = 2 * i + 1;
        assert(high / 2 == i && high % 2 == 0 && low / 2 == i && low % 2 == 1);
        assert(upper_hex(a)[high] == hex_digit(a[i] as int / 16));
        assert(upper_hex(b)[high] == hex_digit(b[i] as int / 16));
        assert(upper_hex(a)[low] == hex_digit(a[i] as int % 16));
        assert(upper_hex(b)[low] == hex_digit(b[i] as int % 16));
        lemma_hex_digit_injective(a[i] as int / 16, b[i] as int / 16);
        lemma_hex_digit_injective(a[i] as int % 16, b[i] as int % 16);
    }
    assert(a =~= b);
}

} // verus!
