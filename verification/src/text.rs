//! Two functions on text: the decimal form of a number, and the order of
//! strings.

use vstd::prelude::*;
use vstd::utf8::encode_utf8;

verus! {

/// The decimal digit for `d`, which is below ten.
pub open spec fn digit(d: nat) -> char {
    if d == 0 {
        '0'
    } else if d == 1 {
        '1'
    } else if d == 2 {
        '2'
    } else if d == 3 {
        '3'
    } else if d == 4 {
        '4'
    } else if d == 5 {
        '5'
    } else if d == 6 {
        '6'
    } else if d == 7 {
        '7'
    } else if d == 8 {
        '8'
    } else {
        '9'
    }
}

/// The decimal form of `n`: its digits from the most significant down,
/// without a sign and without leading zeros.
pub open spec fn decimal(n: nat) -> Seq<char>
    decreases n,
{
    if n < 10 {
        seq![digit(n)]
    } else {
        decimal(n / 10).push(digit(n % 10))
    }
}

fn digit_text(d: u128) -> (text: &'static str)
    requires
        d < 10,
    ensures
        text@ == seq![digit(d as nat)],
{
    proof {
        reveal_strlit("0");
        reveal_strlit("1");
        reveal_strlit("2");
        reveal_strlit("3");
        reveal_strlit("4");
        reveal_strlit("5");
        reveal_strlit("6");
        reveal_strlit("7");
        reveal_strlit("8");
        reveal_strlit("9");
    }
    let text = if d == 0 {
        "0"
    } else if d == 1 {
        "1"
    } else if d == 2 {
        "2"
    } else if d == 3 {
        "3"
    } else if d == 4 {
        "4"
    } else if d == 5 {
        "5"
    } else if d == 6 {
        "6"
    } else if d == 7 {
        "7"
    } else if d == 8 {
        "8"
    } else {
        "9"
    };
    text
}

/// Writes `n` in decimal.
pub fn decimal_text(n: u128) -> (text: String)
    ensures
        text@ == decimal(n as nat),
    decreases n,
{
    if n < 10 {
        digit_text(n).to_owned()
    } else {
        let mut text = decimal_text(n / 10);
        text.append(digit_text(n % 10));
        text
    }
}

/// The number that a decimal digit stands for.
pub open spec fn digit_value(c: char) -> nat {
    if c == '1' {
        1
    } else if c == '2' {
        2
    } else if c == '3' {
        3
    } else if c == '4' {
        4
    } else if c == '5' {
        5
    } else if c == '6' {
        6
    } else if c == '7' {
        7
    } else if c == '8' {
        8
    } else if c == '9' {
        9
    } else {
        0
    }
}

/// The number that a row of decimal digits stands for.
pub open spec fn number_of(digits: Seq<char>) -> nat
    decreases digits.len(),
{
    if digits.len() == 0 {
        0
    } else {
        number_of(digits.drop_last()) * 10 + digit_value(digits.last())
    }
}

/// The decimal form of a number reads back as that number, so two numbers
/// never share a decimal form.
pub proof fn lemma_decimal_reads_back(n: nat)
    ensures
        number_of(decimal(n)) == n,
    decreases n,
{
    if n < 10 {
        assert(number_of(decimal(n).drop_last()) == 0);
    } else {
        lemma_decimal_reads_back(n / 10);
        assert(decimal(n).drop_last() =~= decimal(n / 10));
    }
}

/// How an optional number is reported: in decimal, or as `None`.
pub open spec fn number_or_none(value: Option<u128>) -> Seq<char> {
    match value {
        Some(n) => decimal(n as nat),
        None => "None"@,
    }
}

/// Writes an optional number as it is reported.
pub fn number_or_none_text(value: Option<u128>) -> (text: String)
    ensures
        text@ == number_or_none(value),
{
    match value {
        Some(n) => decimal_text(n),
        None => "None".to_owned(),
    }
}

/// Whether `a` and `b` agree on their first `i` bytes and `a` is the larger
/// from there on: `b` ends at `i` and `a` goes on, or `a` has the larger
/// byte at `i`.
pub open spec fn larger_from(a: Seq<u8>, b: Seq<u8>, i: int) -> bool {
    &&& 0 <= i <= b.len()
    &&& i < a.len()
    &&& forall|k: int| 0 <= k < i ==> a[k] == b[k]
    &&& i < b.len() ==> a[i] > b[i]
}

/// Whether the bytes `a` come after the bytes `b` in lexicographic order.
pub open spec fn bytes_after(a: Seq<u8>, b: Seq<u8>) -> bool {
    exists|i: int| larger_from(a, b, i)
}

/// Whether the string `a` comes after the string `b` in the order of
/// strings, which compares their UTF-8 bytes lexicographically.
pub open spec fn comes_after(a: Seq<char>, b: Seq<char>) -> bool {
    bytes_after(encode_utf8(a), encode_utf8(b))
}

fn slice_after(a: &[u8], b: &[u8]) -> (after: bool)
    ensures
        after == bytes_after(a@, b@),
{
    let mut i: usize = 0;
    while i < a.len() && i < b.len()
        invariant
            i <= a.len(),
            i <= b.len(),
            forall|k: int| 0 <= k < i ==> a@[k] == b@[k],
        decreases a.len() - i,
    {
        if a[i] != b[i] {
            let after = a[i] > b[i];
            proof {
                if after {
                    assert(larger_from(a@, b@, i as int));
                }
            }
            return after;
        }
        i += 1;
    }
    let after = a.len() > b.len();
    proof {
        if after {
            assert(larger_from(a@, b@, i as int));
        }
    }
    after
}

/// Whether `a` comes after `b` in the order of strings.
pub fn text_after(a: &str, b: &str) -> (after: bool)
    ensures
        after == comes_after(a@, b@),
{
    slice_after(a.as_bytes(), b.as_bytes())
}

/// No bytes come after themselves, and of two rows of bytes at most one
/// comes after the other.
pub proof fn lemma_order_is_strict(a: Seq<u8>, b: Seq<u8>)
    ensures
        !bytes_after(a, a),
        !(bytes_after(a, b) && bytes_after(b, a)),
{
}

/// What comes after something that comes after `c` comes after `c`.
pub proof fn lemma_order_is_transitive(a: Seq<u8>, b: Seq<u8>, c: Seq<u8>)
    requires
        bytes_after(a, b),
        bytes_after(b, c),
    ensures
        bytes_after(a, c),
{
    let i = choose|i: int| larger_from(a, b, i);
    let j = choose|j: int| larger_from(b, c, j);
    let least = if i < j {
        i
    } else {
        j
    };
    assert(larger_from(a, c, least));
}

/// Of two different rows of bytes one comes after the other.
pub proof fn lemma_order_is_total(a: Seq<u8>, b: Seq<u8>)
    requires
        a != b,
    ensures
        bytes_after(a, b) || bytes_after(b, a),
{
    lemma_differ_from(a, b, 0);
}

proof fn lemma_differ_from(a: Seq<u8>, b: Seq<u8>, i: int)
    requires
        a != b,
        0 <= i <= a.len(),
        i <= b.len(),
        forall|k: int| 0 <= k < i ==> a[k] == b[k],
    ensures
        bytes_after(a, b) || bytes_after(b, a),
    decreases a.len() - i,
{
    if i == a.len() && i == b.len() {
        assert(a =~= b);
    } else if i == a.len() {
        assert(larger_from(b, a, i));
    } else if i == b.len() {
        assert(larger_from(a, b, i));
    } else if a[i] > b[i] {
        assert(larger_from(a, b, i));
    } else if a[i] < b[i] {
        assert(larger_from(b, a, i));
    } else {
        lemma_differ_from(a, b, i + 1);
    }
}

} // verus!
