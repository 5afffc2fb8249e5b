//! Strings as sequences of characters: the few operations on text that the
//! parser and the execution engine need.

use vstd::prelude::*;
use vstd::utf8::{decode_utf8, encode_utf8, encode_utf8_decode_utf8, valid_utf8};

verus! {

/// Calls `String::from_utf8` of the standard library, on a copy of `bytes`.
///
/// The contract says what the library documents: the call succeeds exactly
/// on well-formed UTF-8, and the string then holds the characters that the
/// bytes encode.
#[verifier::external_body]
pub(crate) fn utf8_to_string(bytes: &Vec<u8>) -> (r: Option<String>)
    ensures
        r is Some <==> valid_utf8(bytes@),
        r is Some ==> r->0@ == decode_utf8(bytes@),
{
    String::from_utf8(bytes.clone()).ok()
}

/// Whether two strings hold the same characters.
pub fn str_equal(a: &str, b: &str) -> (r: bool)
    ensures
        r == (a@ == b@),
{
    let x = a.as_bytes();
    let y = b.as_bytes();
    proof {
        encode_utf8_decode_utf8(a@);
        encode_utf8_decode_utf8(b@);
    }
    if x.len() != y.len() {
        return false;
    }
    let mut i: usize = 0;
    while i < x.len()
        invariant
            i <= x.len(),
            x.len() == y.len(),
            forall|k: int| 0 <= k < i ==> x@[k] == y@[k],
            x@ == encode_utf8(a@),
            y@ == encode_utf8(b@),
            decode_utf8(encode_utf8(a@)) == a@,
            decode_utf8(encode_utf8(b@)) == b@,
        decreases x.len() - i,
    {
        if x[i] != y[i] {
            return false;
        }
        i += 1;
    }
    assert(x@ =~= y@);
    true
}

/// The characters of a string, in order.
pub fn chars_of(s: &str) -> (r: Vec<char>)
    ensures
        r@ == s@,
{
    let mut out: Vec<char> = Vec::new();
    let n = s.unicode_len();
    let mut i: usize = 0;
    while i < n
        invariant
            i <= n,
            n == s@.len(),
            out@ == s@.subrange(0, i as int),
        decreases n - i,
    {
        out.push(s.get_char(i));
        assert(out@ =~= s@.subrange(0, i + 1));
        i += 1;
    }
    assert(out@ =~= s@);
    out
}

/// The key of a static field: the class name, a dot, the field name.
pub open spec fn field_key(class_name: Seq<char>, field_name: Seq<char>) -> Seq<char> {
    class_name + seq!['.'] + field_name
}

/// Builds the key under which a static field is stored.
pub fn make_field_key(class_name: &str, field_name: &str) -> (r: String)
    ensures
        r@ == field_key(class_name@, field_name@),
{
    let mut key = String::from_str(class_name);
    proof {
        reveal_strlit(".");
    }
    key.append(".");
    key.append(field_name);
    assert(key@ =~= field_key(class_name@, field_name@));
    key
}

/// The character for the digit `d`.
pub open spec fn digit_char(d: int) -> char {
    if d == 0 {
        '0'
    } else if d == 1 {
        '1'
    } else if d == 2 {
        '2'
    } else if d == 3 {
        '3'
    } else if d == 4 {
        '4'
    } else if d == 5 {
        '5'
    } else if d == 6 {
        '6'
    } else if d == 7 {
        '7'
    } else if d == 8 {
        '8'
    } else {
        '9'
    }
}

/// The decimal digits of a natural number, without leading zeros.
pub open spec fn decimal_digits(n: nat) -> Seq<char>
    decreases n,
{
    if n < 10 {
        seq![digit_char(n as int)]
    } else {
        decimal_digits(n / 10).push(digit_char((n % 10) as int))
    }
}

/// An integer in decimal, with a minus sign where it is negative.
pub open spec fn decimal(n: int) -> Seq<char> {
    if n < 0 {
        seq!['-'] + decimal_digits((-n) as nat)
    } else {
        decimal_digits(n as nat)
    }
}

/// The text of one digit.
fn digit_text(d: u8) -> (r: &'static str)
    requires
        d < 10,
    ensures
        r@ == seq![digit_char(d as int)],
{
    proof {
        reveal_strlit("0");
        reveal_strlit("1");
        reveal_strlit("2");
        reveal_strlit("3");
        reveal_strlit("4");
        reveal_strlit("5");
        reveal_strlit("6");
        reveal_strlit("7");
        reveal_strlit("8");
        reveal_strlit("9");
    }
    let r = if d == 0 {
        "0"
    } else if d == 1 {
        "1"
    } else if d == 2 {
        "2"
    } else if d == 3 {
        "3"
    } else if d == 4 {
        "4"
    } else if d == 5 {
        "5"
    } else if d == 6 {
        "6"
    } else if d == 7 {
        "7"
    } else if d == 8 {
        "8"
    } else {
        "9"
    };
    assert(r@ =~= seq![digit_char(d as int)]);
    r
}

/// The digits of `rest` followed by the digits in `low`.
spec fn with_low_digits(rest: nat, low: Seq<u8>) -> Seq<char>
    decreases low.len(),
{
    if low.len() == 0 {
        decimal_digits(rest)
    } else {
        with_low_digits(rest, low.drop_last()).push(digit_char(low.last() as int))
    }
}

/// Moving the last digit of `rest` to the front of `low` leaves the digits
/// as a whole the same.
proof fn lemma_take_digit(rest: nat, low: Seq<u8>)
    requires
        rest >= 10,
    ensures
        with_low_digits(rest, low) == with_low_digits(
            rest / 10,
            seq![(rest % 10) as u8] + low,
        ),
    decreases low.len(),
{
    let first = seq![(rest % 10) as u8];
    if low.len() == 0 {
        assert((first + low).drop_last() =~= Seq::<u8>::empty());
        assert(with_low_digits(rest / 10, Seq::<u8>::empty()) == decimal_digits(rest / 10));
    } else {
        lemma_take_digit(rest, low.drop_last());
        assert((first + low).drop_last() =~= first + low.drop_last());
    }
}

/// Writes an integer in decimal.
pub fn decimal_text(value: i64) -> (r: String)
    ensures
        r@ == decimal(value as int),
{
    let magnitude: u64 = if value < 0 {
        (-(value + 1)) as u64 + 1
    } else {
        value as u64
    };
    // The digits behind the highest one, in the order in which they are
    // written.
    let mut low: Vec<u8> = Vec::new();
    let mut rest = magnitude;
    assert(with_low_digits(rest as nat, low@) == decimal_digits(magnitude as nat));
    while rest >= 10
        invariant
            with_low_digits(rest as nat, low@) == decimal_digits(magnitude as nat),
            forall|k: int| 0 <= k < low.len() ==> low[k] < 10,
        decreases rest,
    {
        proof {
            lemma_take_digit(rest as nat, low@);
        }
        let ghost before = low@;
        low.insert(0, (rest % 10) as u8);
        assert(low@ =~= seq![(rest % 10) as u8] + before);
        rest = rest / 10;
    }
    let mut text = String::new();
    if value < 0 {
        proof {
            reveal_strlit("-");
        }
        text.append("-");
    }
    text.append(digit_text(rest as u8));
    let ghost sign = if value < 0 {
        seq!['-']
    } else {
        Seq::<char>::empty()
    };
    assert(text@ =~= sign + with_low_digits(rest as nat, low@.subrange(0, 0)));
    let mut i: usize = 0;
    while i < low.len()
        invariant
            i <= low.len(),
            rest < 10,
            forall|k: int| 0 <= k < low.len() ==> low[k] < 10,
            text@ == sign + with_low_digits(rest as nat, low@.subrange(0, i as int)),
        decreases low.len() - i,
    {
        let ghost before = low@.subrange(0, i as int);
        text.append(digit_text(low[i]));
        proof {
            let now = low@.subrange(0, i + 1);
            assert(now.drop_last() =~= before);
            assert(text@ =~= sign + with_low_digits(rest as nat, now));
        }
        i += 1;
    }
    assert(low@.subrange(0, low.len() as int) =~= low@);
    assert(text@ =~= decimal(value as int));
    text
}

} // verus!
