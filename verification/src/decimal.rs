//! Integers in decimal notation.
use vstd::prelude::*;

use crate::text::{chars_of, digit, is_digit, string_of};

verus! {

pub open spec fn digit_char(d: int) -> char {
    ('0' as int + d) as char
}

pub open spec fn digit_value(c: char) -> nat {
    (c as int - '0' as int) as nat
}

/// The decimal notation of a natural number, without leading zeros.
pub open spec fn nat_text(n: nat) -> Seq<char>
    decreases n,
{
    if n < 10 {
        seq![digit_char(n as int)]
    } else {
        nat_text(n / 10).push(digit_char((n % 10) as int))
    }
}

/// The decimal notation of an integer, with a minus sign before a negative one.
pub open spec fn int_text(n: int) -> Seq<char> {
    if n < 0 {
        seq!['-'] + nat_text((-n) as nat)
    } else {
        nat_text(n as nat)
    }
}

/// The number that a run of digits denotes.
pub open spec fn value(s: Seq<char>) -> nat
    decreases s.len(),
{
    if s.len() == 0 {
        0
    } else {
        10 * value(s.drop_last()) + digit_value(s.last())
    }
}

pub open spec fn all_digits(s: Seq<char>) -> bool {
    forall|i: int| 0 <= i < s.len() ==> is_digit(#[trigger] s[i])
}

/// The integer that a text denotes within bounds: an optional sign (a minus
/// sign only where negative numbers are within the bounds) and then at least
/// one digit, and nothing else.
pub open spec fn parsed(s: Seq<char>, lo: int, hi: int) -> Option<int> {
    let negative = s.len() > 0 && lo < 0 && s[0] == '-';
    let signed = negative || (s.len() > 0 && s[0] == '+');
    let body = if signed { s.skip(1) } else { s };
    let n = if negative { -(value(body) as int) } else { value(body) as int };
    if body.len() > 0 && all_digits(body) && lo <= n <= hi {
        Some(n)
    } else {
        None
    }
}

/// Writing a number down and reading it again gives the number back.
pub proof fn law_value_of_text(n: nat)
    ensures
        value(nat_text(n)) == n,
        all_digits(nat_text(n)),
        nat_text(n).len() > 0,
    decreases n,
{
    if n < 10 {
        reveal_with_fuel(value, 2);
        assert(nat_text(n).drop_last() =~= Seq::<char>::empty());
    } else {
        law_value_of_text(n / 10);
        assert(nat_text(n).drop_last() =~= nat_text(n / 10));
    }
}

/// Reading back the decimal notation of an integer within bounds gives that
/// integer, whatever its sign.
pub proof fn law_parsed_int_text(n: int, lo: int, hi: int)
    requires
        lo <= n <= hi,
        lo <= 0,
    ensures
        parsed(int_text(n), lo, hi) == Some(n),
{
    if n < 0 {
        law_value_of_text((-n) as nat);
        assert(int_text(n).skip(1) =~= nat_text((-n) as nat));
    } else {
        law_value_of_text(n as nat);
        let t = nat_text(n as nat);
        assert(is_digit(t[0]));
    }
}

fn char_of_digit(d: u64) -> (r: char)
    requires
        d < 10,
    ensures
        r == digit_char(d as int),
{
    (48u8 + d as u8) as char
}

/// The decimal notation of `n`.
pub fn u64_text(n: u64) -> (r: String)
    ensures
        r@ == nat_text(n as nat),
    decreases n,
{
    if n < 10 {
        let mut out = String::new();
        out.push(char_of_digit(n));
        assert(out@ =~= nat_text(n as nat));
        out
    } else {
        let mut out = u64_text(n / 10);
        out.push(char_of_digit(n % 10));
        out
    }
}

/// The decimal notation of `n`.
pub fn i64_text(n: i64) -> (r: String)
    ensures
        r@ == int_text(n as int),
{
    if n < 0 {
        let abs: u64 = (-(n as i128)) as u64;
        let mut out = String::new();
        out.push('-');
        let out = out.concat(u64_text(abs).as_str());
        assert(out@ =~= int_text(n as int));
        out
    } else {
        u64_text(n as u64)
    }
}

proof fn lemma_value_step(s: Seq<char>, i: int)
    requires
        0 <= i < s.len(),
    ensures
        value(s.take(i + 1)) == 10 * value(s.take(i)) + digit_value(s[i]),
{
    assert(s.take(i + 1).drop_last() =~= s.take(i));
}

/// Reads an integer within bounds.
fn parse(s: &str, lo: i128, hi: i128) -> (r: Option<i128>)
    requires
        -0x1_0000_0000_0000_0000 <= lo <= 0 <= hi <= 0x1_0000_0000_0000_0000,
    ensures
        r is Some <==> parsed(s@, lo as int, hi as int) is Some,
        r matches Some(n) ==> parsed(s@, lo as int, hi as int) == Some(n as int),
{
    let chars = chars_of(s);
    if chars.len() == 0 {
        return None;
    }
    let negative = lo < 0 && chars[0] == '-';
    let signed = negative || chars[0] == '+';
    let from: usize = if signed { 1 } else { 0 };
    let ghost body = s@.skip(from as int);
    assert(!signed ==> body =~= s@);
    if from == chars.len() {
        return None;
    }
    let mut i: usize = from;
    let mut v: i128 = 0;
    let mut over = false;
    while i < chars.len()
        invariant
            from <= i <= chars@.len(),
            from < chars@.len(),
            chars@ == s@,
            body == s@.skip(from as int),
            signed ==> from == 1,
            !signed ==> from == 0 && body == s@,
            signed == (negative || s@[0] == '+'),
            negative == (lo < 0 && s@[0] == '-'),
            0 <= v <= 0x1_0000_0000_0000_0000,
            forall|j: int| 0 <= j < i - from ==> is_digit(body[j]),
            !over ==> v == value(body.take(i - from)),
            over ==> value(body.take(i - from)) > 0x1_0000_0000_0000_0000,
        decreases chars@.len() - i,
    {
        let c = chars[i];
        assert(c == body[i - from]);
        if !digit(c) {
            assert(!all_digits(body));
            return None;
        }
        proof {
            lemma_value_step(body, i - from);
        }
        if !over {
            let next: i128 = 10 * v + (c as u32 - '0' as u32) as i128;
            if next > 0x1_0000_0000_0000_0000 {
                over = true;
            } else {
                v = next;
            }
        }
        i = i + 1;
    }
    assert(body.take(i - from) =~= body);
    if over {
        return None;
    }
    let n: i128 = if negative { -v } else { v };
    if lo <= n && n <= hi {
        Some(n)
    } else {
        None
    }
}

pub fn parse_i64(s: &str) -> (r: Option<i64>)
    ensures
        r is Some <==> parsed(s@, i64::MIN as int, i64::MAX as int) is Some,
        r matches Some(n) ==> parsed(s@, i64::MIN as int, i64::MAX as int) == Some(n as int),
{
    match parse(s, i64::MIN as i128, i64::MAX as i128) {
        Some(n) => Some(n as i64),
        None => None,
    }
}

pub fn parse_u64(s: &str) -> (r: Option<u64>)
    ensures
        r is Some <==> parsed(s@, 0, u64::MAX as int) is Some,
        r matches Some(n) ==> parsed(s@, 0, u64::MAX as int) == Some(n as int),
{
    match parse(s, 0, u64::MAX as i128) {
        Some(n) => Some(n as u64),
        None => None,
    }
}

pub fn parse_u32(s: &str) -> (r: Option<u32>)
    ensures
        r is Some <==> parsed(s@, 0, u32::MAX as int) is Some,
        r matches Some(n) ==> parsed(s@, 0, u32::MAX as int) == Some(n as int),
{
    match parse(s, 0, u32::MAX as i128) {
        Some(n) => Some(n as u32),
        None => None,
    }
}

pub fn parse_u16(s: &str) -> (r: Option<u16>)
    ensures
        r is Some <==> parsed(s@, 0, u16::MAX as int) is Some,
        r matches Some(n) ==> parsed(s@, 0, u16::MAX as int) == Some(n as int),
{
    match parse(s, 0, u16::MAX as i128) {
        Some(n) => Some(n as u16),
        None => None,
    }
}

/// The digits that a text begins with.
pub open spec fn leading_digits(s: Seq<char>) -> Seq<char>
    decreases s.len(),
{
    if s.len() == 0 || !is_digit(s[0]) {
        Seq::empty()
    } else {
        seq![s[0]] + leading_digits(s.skip(1))
    }
}

/// What is wrong with a text that denotes no integer within the bounds. What
/// its leading digits denote is looked at before what follows them.
pub open spec fn int_complaint(s: Seq<char>, lo: int, hi: int) -> Seq<char> {
    let negative = s.len() > 0 && lo < 0 && s[0] == '-';
    let signed = negative || (s.len() > 0 && s[0] == '+');
    let lead = leading_digits(if signed { s.skip(1) } else { s });
    if s.len() == 0 {
        "cannot parse integer from empty string"@
    } else if negative && -(value(lead) as int) < lo {
        "number too small to fit in target type"@
    } else if !negative && value(lead) > hi {
        "number too large to fit in target type"@
    } else {
        "invalid digit found in string"@
    }
}

proof fn lemma_leading_digits(s: Seq<char>, n: int)
    requires
        0 <= n <= s.len(),
        forall|i: int| 0 <= i < n ==> is_digit(#[trigger] s[i]),
        n < s.len() ==> !is_digit(s[n]),
    ensures
        leading_digits(s) == s.take(n),
    decreases s.len(),
{
    if n == 0 {
        assert(s.take(0) =~= Seq::<char>::empty());
    } else {
        let rest = s.skip(1);
        assert forall|i: int| 0 <= i < n - 1 implies is_digit(#[trigger] rest[i]) by {
            assert(rest[i] == s[i + 1]);
        }
        lemma_leading_digits(rest, n - 1);
        assert(s.take(n) =~= seq![s[0]] + rest.take(n - 1));
    }
}

/// Says what is wrong with a text that denotes no integer within the bounds.
pub fn int_problem(s: &str, lo: i64, hi: u64) -> (r: &'static str)
    ensures
        r@ == int_complaint(s@, lo as int, hi as int),
{
    let chars = chars_of(s);
    if chars.len() == 0 {
        return "cannot parse integer from empty string";
    }
    let negative = lo < 0 && chars[0] == '-';
    let from: usize = if negative || chars[0] == '+' { 1 } else { 0 };
    let ghost body = if from == 1 { s@.skip(1) } else { s@ };
    assert(s@.skip(0) =~= s@);
    assert(body == s@.skip(from as int));
    let mut i: usize = from;
    while i < chars.len() && digit(chars[i])
        invariant
            from <= i <= chars@.len(),
            chars@ == s@,
            body == s@.skip(from as int),
            forall|j: int| 0 <= j < i - from ==> is_digit(#[trigger] body[j]),
        decreases chars@.len() - i,
    {
        assert(body[i - from] == chars@[i as int]);
        i = i + 1;
    }
    proof {
        lemma_leading_digits(body, i - from);
        assert(i < chars@.len() ==> body[i - from] == chars@[i as int]);
    }
    let lead = string_of(&chars, from, i);
    assert(lead@ =~= body.take(i - from));
    let bound: u128 = if negative { (-(lo as i128)) as u128 } else { hi as u128 };
    let over = if i == from {
        false
    } else {
        proof {
            assert(lead@[0] == body[0]);
            assert(is_digit(body[0]));
            assert forall|j: int| 0 <= j < lead@.len() implies is_digit(#[trigger] lead@[j]) by {
                assert(lead@[j] == body[j]);
            }
        }
        match parse_u64(lead.as_str()) {
            Some(n) => n as u128 > bound,
            None => true,
        }
    };
    proof {
        if i == from {
            assert(lead@ =~= Seq::empty());
        }
    }
    if !over {
        "invalid digit found in string"
    } else if negative {
        "number too small to fit in target type"
    } else {
        "number too large to fit in target type"
    }
}

} // verus!
