use vstd::prelude::*;
use vstd::string::StringExecFns;

verus! {

/// `c` is a lower-case hexadecimal digit.
pub open spec fn is_hex_char(c: char) -> bool {
    ('0' <= c && c <= '9') || ('a' <= c && c <= 'f')
}

/// The value of the hexadecimal digit `c`.
pub open spec fn hex_value(c: char) -> int {
    if '0' <= c && c <= '9' {
        c as int - '0' as int
    } else {
        c as int - 'a' as int + 10
    }
}

/// `t` is a text of lower-case hexadecimal digit pairs.
pub open spec fn is_hex_text(t: Seq<char>) -> bool {
    t.len() % 2 == 0 && forall|i: int| 0 <= i < t.len() ==> is_hex_char(#[trigger] t[i])
}

/// `t` is the lower-case hexadecimal text of the bytes `b`: two digits per byte,
/// high digit first.
pub open spec fn is_hex_of(t: Seq<char>, b: Seq<u8>) -> bool {
    &&& is_hex_text(t)
    &&& t.len() == 2 * b.len()
    &&& forall|i: int|
        0 <= i < b.len() ==> hex_value(#[trigger] t[2 * i]) * 16 + hex_value(t[2 * i + 1]) == b[i]
}

proof fn lemma_hex_value_range(c: char)
    requires
        is_hex_char(c),
    ensures
        0 <= hex_value(c) < 16,
{
}

/// A byte sequence has one hexadecimal text, and a hexadecimal text stands for
/// one byte sequence.
pub proof fn lemma_hex_unique(t1: Seq<char>, t2: Seq<char>, b1: Seq<u8>, b2: Seq<u8>)
    requires
        is_hex_of(t1, b1),
        is_hex_of(t2, b2),
    ensures
        t1 == t2 <==> b1 == b2,
{
    if t1 == t2 {
        assert forall|i: int| 0 <= i < b1.len() implies b1[i] == b2[i] by {
            assert(t1[2 * i] == t2[2 * i]);
        }
        assert(b1 =~= b2);
    }
    if b1 == b2 {
        assert forall|k: int| 0 <= k < t1.len() implies t1[k] == t2[k] by {
            let i = k / 2;
            assert(0 <= i < b1.len());
            let h1 = t1[2 * i];
            let h2 = t2[2 * i];
            let l1 = t1[2 * i + 1];
            let l2 = t2[2 * i + 1];
            lemma_hex_value_range(h1);
            lemma_hex_value_range(h2);
            lemma_hex_value_range(l1);
            lemma_hex_value_range(l2);
            assert(hex_value(h1) == hex_value(h2) && hex_value(l1) == hex_value(l2)) by (nonlinear_arith)
                requires
                    hex_value(h1) * 16 + hex_value(l1) == hex_value(h2) * 16 + hex_value(l2),
                    0 <= hex_value(h1) < 16,
                    0 <= hex_value(h2) < 16,
                    0 <= hex_value(l1) < 16,
                    0 <= hex_value(l2) < 16,
            ;
            if k % 2 == 0 {
                assert(k == 2 * i);
            } else {
                assert(k == 2 * i + 1);
            }
        }
        assert(t1 =~= t2);
    }
}

fn hex_digit_text(n: u8) -> (r: &'static str)
    requires
        n < 16,
    ensures
        r@.len() == 1,
        is_hex_char(r@[0]),
        hex_value(r@[0]) == n,
{
    let digits = "0123456789abcdef";
    proof {
        reveal_strlit("0123456789abcdef");
    }
    assert(digits.is_ascii());
    digits.substring_ascii(n as usize, n as usize + 1)
}

/// The lower-case hexadecimal text of `bytes`, as key material is stored.
pub fn encode_key(bytes: &Vec<u8>) -> (r: String)
    ensures
        is_hex_of(r@, bytes@),
{
    let mut r = String::new();
    let mut i: usize = 0;
    while i < bytes.len()
        invariant
            i <= bytes.len(),
            is_hex_of(r@, bytes@.subrange(0, i as int)),
        decreases bytes.len() - i,
    {
        let b = bytes[i];
        let ghost before = r@;
        r.append(hex_digit_text(b / 16));
        r.append(hex_digit_text(b % 16));
        assert forall|j: int| 0 <= j < i + 1 implies hex_value(#[trigger] r@[2 * j]) * 16 + hex_value(
            r@[2 * j + 1],
        ) == bytes@.subrange(0, i as int + 1)[j] by {
            if j < i {
                assert(r@[2 * j] == before[2 * j]);
                assert(r@[2 * j + 1] == before[2 * j + 1]);
            }
        }
        assert(forall|k: int| 0 <= k < r@.len() ==> is_hex_char(#[trigger] r@[k]) || k < before.len());
        i = i + 1;
    }
    assert(bytes@.subrange(0, bytes@.len() as int) == bytes@);
    r
}

/// The value of the hexadecimal digit `c`, if it is one.
fn digit_value(c: char) -> (r: Option<u8>)
    ensures
        r is Some <==> is_hex_char(c),
        r matches Some(v) ==> v as int == hex_value(c),
{
    if '0' <= c && c <= '9' {
        Some((c as u32 - '0' as u32) as u8)
    } else if 'a' <= c && c <= 'f' {
        Some((c as u32 - 'a' as u32 + 10) as u8)
    } else {
        None
    }
}

/// The bytes whose hexadecimal text is `text`, or `None` when `text` is not
/// such a text (odd length, or a character other than `0`-`9`, `a`-`f`).
pub fn decode_key(text: &str) -> (r: Option<Vec<u8>>)
    ensures
        r is Some <==> is_hex_text(text@),
        r matches Some(b) ==> is_hex_of(text@, b@),
{
    let n = text.unicode_len();
    if n % 2 != 0 {
        return None;
    }
    let mut r: Vec<u8> = Vec::new();
    let mut i: usize = 0;
    while i < n / 2
        invariant
            n == text@.len(),
            n % 2 == 0,
            i <= n / 2,
            r@.len() == i,
            forall|k: int| 0 <= k < 2 * i ==> is_hex_char(#[trigger] text@[k]),
            forall|j: int|
                0 <= j < i ==> hex_value(#[trigger] text@[2 * j]) * 16 + hex_value(text@[2 * j + 1])
                    == r@[j],
        decreases n / 2 - i,
    {
        let hi = digit_value(text.get_char(2 * i));
        let lo = digit_value(text.get_char(2 * i + 1));
        match (hi, lo) {
            (Some(h), Some(l)) => {
                r.push(h * 16 + l);
            },
            _ => {
                return None;
            },
        }
        i = i + 1;
    }
    Some(r)
}

} // verus!
