//! Phone numbers in E.164 form.
use vstd::prelude::*;

use crate::decimal::all_digits;
use crate::rows::{lemma_filter_take, opt_view};
use crate::text::{begins, cat, chars_of, starts_with};

verus! {

#[derive(Debug)]
pub enum NormalizeError {
    Empty,
    Invalid { raw: String },
}

pub enum NormalizeErrorView {
    Empty,
    Invalid { raw: Seq<char> },
}

impl View for NormalizeError {
    type V = NormalizeErrorView;

    open spec fn view(&self) -> NormalizeErrorView {
        match self {
            NormalizeError::Empty => NormalizeErrorView::Empty,
            NormalizeError::Invalid { raw } => NormalizeErrorView::Invalid { raw: raw@ },
        }
    }
}

pub open spec fn complaint(e: NormalizeErrorView) -> Seq<char> {
    match e {
        NormalizeErrorView::Empty => "empty phone number"@,
        NormalizeErrorView::Invalid { raw } => "invalid phone number: "@ + raw,
    }
}

impl NormalizeError {
    /// The error in words.
    pub fn message(&self) -> (r: String)
        ensures
            r@ == complaint(self@),
    {
        match self {
            NormalizeError::Empty => "empty phone number".to_owned(),
            NormalizeError::Invalid { raw } => cat("invalid phone number: ", raw.as_str()),
        }
    }
}

/// What the `phonenumber` crate makes of a text as a number dialled in a
/// region: its E.164 form, if the text is a number.
pub uninterp spec fn dialled(region: Seq<char>, text: Seq<char>) -> Option<Seq<char>>;

/// A plus sign and then only digits, at least one.
pub open spec fn is_e164(s: Seq<char>) -> bool {
    s.len() > 1 && s[0] == '+' && all_digits(s.skip(1))
}

/// Calls `phonenumber::parse` with the country that the region names, if it
/// names one, and formats the number with `phonenumber::Mode::E164`. The result
/// is named; that format is a plus sign, the country code and the national
/// number, all in digits.
#[verifier::external_body]
fn parse_number(region: &str, text: &str) -> (r: Option<String>)
    ensures
        opt_view(r) == dialled(region@, text@),
        r matches Some(s) ==> is_e164(s@),
{
    let country = region.parse::<phonenumber::country::Id>().ok();
    let number = phonenumber::parse(country, text).ok()?;
    Some(number.format().mode(phonenumber::Mode::E164).to_string())
}

pub open spec fn dialling_mark() -> spec_fn(char) -> bool {
    |c: char| c != ' ' && c != '-'
}

/// The text without its spaces and hyphens.
pub open spec fn cleaned(raw: Seq<char>) -> Seq<char> {
    raw.filter(dialling_mark())
}

/// What is handed on to be read as a number: Iranian mobile numbers may come
/// with their country code but without the plus sign.
pub open spec fn to_parse(raw: Seq<char>) -> Seq<char> {
    let c = cleaned(raw);
    if begins(c, "989"@) {
        "+"@ + c
    } else {
        c
    }
}

/// The outcome for a text, given what reading the cleaned text as a number gave.
pub open spec fn normalized_from(raw: Seq<char>, number: Option<Seq<char>>) -> Result<
    Seq<char>,
    NormalizeErrorView,
> {
    if cleaned(raw).len() == 0 {
        Err(NormalizeErrorView::Empty)
    } else {
        match number {
            Some(e164) => Ok(e164),
            None => Err(NormalizeErrorView::Invalid { raw }),
        }
    }
}

/// The E.164 form of a text, or why there is none.
pub open spec fn normalized(raw: Seq<char>, region: Seq<char>) -> Result<
    Seq<char>,
    NormalizeErrorView,
> {
    normalized_from(raw, dialled(region, to_parse(raw)))
}

pub open spec fn result_view(r: Result<String, NormalizeError>) -> Result<
    Seq<char>,
    NormalizeErrorView,
> {
    match r {
        Ok(s) => Ok(s@),
        Err(e) => Err(e@),
    }
}

/// Drops the spaces and hyphens.
pub fn clean(raw: &str) -> (r: String)
    ensures
        r@ == cleaned(raw@),
{
    let chars = chars_of(raw);
    let mut out = String::new();
    let mut i: usize = 0;
    proof {
        reveal(Seq::filter);
    }
    while i < chars.len()
        invariant
            i <= chars@.len(),
            chars@ == raw@,
            out@ == raw@.take(i as int).filter(dialling_mark()),
        decreases chars@.len() - i,
    {
        proof {
            lemma_filter_take(raw@, dialling_mark(), i as int);
        }
        if chars[i] != ' ' && chars[i] != '-' {
            out.push(chars[i]);
        }
        i = i + 1;
    }
    assert(raw@.take(i as int) =~= raw@);
    out
}

/// What is read as a number for the given text.
pub fn number_text(raw: &str) -> (r: String)
    ensures
        r@ == to_parse(raw@),
{
    let cleaned = clean(raw);
    if starts_with(cleaned.as_str(), "989") {
        cat("+", cleaned.as_str())
    } else {
        cleaned
    }
}

/// Turns what was read as a number into the outcome.
pub fn settle(raw: &str, number: Option<String>) -> (r: Result<String, NormalizeError>)
    ensures
        result_view(r) == normalized_from(raw@, opt_view(number)),
{
    let cleaned = clean(raw);
    if cleaned.as_str().is_empty() {
        return Err(NormalizeError::Empty);
    }
    match number {
        Some(e164) => Ok(e164),
        None => Err(NormalizeError::Invalid { raw: raw.to_owned() }),
    }
}

/// The E.164 form of a number as dialled in the default region.
pub fn normalize_e164(raw: &str, default_region: &str) -> (r: Result<String, NormalizeError>)
    ensures
        result_view(r) == normalized(raw@, default_region@),
        r matches Ok(s) ==> is_e164(s@),
        cleaned(raw@).len() == 0 ==> r matches Err(NormalizeError::Empty),
{
    let text = number_text(raw);
    let number = parse_number(default_region, text.as_str());
    settle(raw, number)
}

/// Spaces and hyphens never matter: two texts that differ only in them are
/// read as the same number.
pub proof fn law_marks_do_not_matter(a: Seq<char>, b: Seq<char>, region: Seq<char>)
    requires
        cleaned(a) == cleaned(b),
    ensures
        normalized(a, region) is Ok <==> normalized(b, region) is Ok,
        normalized(a, region) is Ok ==> normalized(a, region) == normalized(b, region),
{
}

} // verus!
