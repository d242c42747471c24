//! Unconditional call forwarding: the codes that the network takes, and what
//! its replies say.
use vstd::prelude::*;

use crate::db::clone_opt;
use crate::decimal::{parse_u32, parsed};
use crate::normalize::{
    complaint, normalize_e164, normalized, result_view, NormalizeError, NormalizeErrorView,
};
use crate::rows::{find, lemma_find_is, opt_view, res_view, views};
use crate::text::{
    after_prefix, cat, cat3, chars_of, contains, digit, digits, digits_of, holds, is_digit, lower,
    split, split_on, str_eq, string_of, strip_prefix, to_lower, to_upper, trim, trimmed, upper,
};

verus! {

#[derive(Debug, PartialEq, Eq)]
pub struct CallForwardState {
    pub enabled: bool,
    pub e164: Option<String>,
}

pub struct CallForwardStateView {
    pub enabled: bool,
    pub e164: Option<Seq<char>>,
}

impl View for CallForwardState {
    type V = CallForwardStateView;

    open spec fn view(&self) -> CallForwardStateView {
        CallForwardStateView { enabled: self.enabled, e164: opt_view(self.e164) }
    }
}

impl Clone for CallForwardState {
    fn clone(&self) -> (r: Self)
        ensures
            r@ == self@,
    {
        CallForwardState { enabled: self.enabled, e164: clone_opt(&self.e164) }
    }
}

// ---------------------------------------------------------------------------
// Codes
// ---------------------------------------------------------------------------

pub fn ussd_query() -> (r: &'static str)
    ensures
        r@ == "*#21#"@,
{
    "*#21#"
}

pub fn ussd_disable() -> (r: &'static str)
    ensures
        r@ == "#21#"@,
{
    "#21#"
}

/// The code that forwards all calls to a number.
pub fn ussd_enable(e164: &str) -> (r: String)
    ensures
        r@ == "*21*"@ + digits_of(e164@) + "#"@,
{
    cat3("*21*", digits(e164).as_str(), "#")
}

pub fn ccfc_query() -> (r: &'static str)
    ensures
        r@ == "AT+CCFC=0,2"@,
{
    "AT+CCFC=0,2"
}

pub fn ccfc_disable() -> (r: &'static str)
    ensures
        r@ == "AT+CCFC=0,4"@,
{
    "AT+CCFC=0,4"
}

/// The command that forwards all calls to a number.
pub fn ccfc_enable(e164: &str) -> (r: String)
    ensures
        r@ == "AT+CCFC=0,3,\""@ + e164@ + "\",145"@,
{
    cat3("AT+CCFC=0,3,\"", e164, "\",145")
}

// ---------------------------------------------------------------------------
// Replies to AT+CCFC
// ---------------------------------------------------------------------------

/// What one line of a reply says.
pub enum CcfcLine {
    /// Nothing about forwarding.
    Other,
    /// Forwarding is not active for the class.
    Inactive,
    /// Forwarding is active, to no number that the line names.
    Nowhere,
    /// Forwarding is active, to a number.
    To(String),
    /// The line cannot be read.
    Bad(String),
}

pub enum CcfcLineView {
    Other,
    Inactive,
    Nowhere,
    To(Seq<char>),
    Bad(Seq<char>),
}

impl View for CcfcLine {
    type V = CcfcLineView;

    open spec fn view(&self) -> CcfcLineView {
        match self {
            CcfcLine::Other => CcfcLineView::Other,
            CcfcLine::Inactive => CcfcLineView::Inactive,
            CcfcLine::Nowhere => CcfcLineView::Nowhere,
            CcfcLine::To(s) => CcfcLineView::To(s@),
            CcfcLine::Bad(s) => CcfcLineView::Bad(s@),
        }
    }
}

pub open spec fn unquoted_start(s: Seq<char>) -> Seq<char>
    decreases s.len(),
{
    if s.len() > 0 && s[0] == '"' {
        unquoted_start(s.skip(1))
    } else {
        s
    }
}

pub open spec fn unquoted_end(s: Seq<char>) -> Seq<char>
    decreases s.len(),
{
    if s.len() > 0 && s.last() == '"' {
        unquoted_end(s.drop_last())
    } else {
        s
    }
}

/// The text without the quotation marks at its two ends.
pub open spec fn unquoted(s: Seq<char>) -> Seq<char> {
    unquoted_end(unquoted_start(s))
}

fn unquote(s: &str) -> (r: String)
    ensures
        r@ == unquoted(s@),
{
    let chars = chars_of(s);
    let mut from: usize = 0;
    assert(s@.skip(0) =~= s@);
    while from < chars.len() && chars[from] == '"'
        invariant
            from <= chars@.len(),
            chars@ == s@,
            unquoted_start(s@) == unquoted_start(s@.skip(from as int)),
        decreases chars@.len() - from,
    {
        assert(s@.skip(from as int).skip(1) =~= s@.skip(from + 1));
        from = from + 1;
    }
    let mut to: usize = chars.len();
    assert(s@.subrange(from as int, to as int) =~= s@.skip(from as int));
    while to > from && chars[to - 1] == '"'
        invariant
            from <= to <= chars@.len(),
            chars@ == s@,
            unquoted(s@) == unquoted_end(s@.subrange(from as int, to as int)),
        decreases to,
    {
        assert(s@.subrange(from as int, to as int).drop_last() =~= s@.subrange(
            from as int,
            to - 1,
        ));
        to = to - 1;
    }
    string_of(&chars, from, to)
}

/// What a line says behind its mark: a status, a class and perhaps a number,
/// between commas. What the number reads as is given.
pub open spec fn ccfc_fields(
    line: Seq<char>,
    rest: Seq<char>,
    number: Result<Seq<char>, NormalizeErrorView>,
) -> CcfcLineView {
    match parsed(trimmed(split(trimmed(rest), ',')[0]), 0, u32::MAX as int) {
        None => CcfcLineView::Bad("bad +CCFC status in: "@ + line),
        Some(status) => if status != 1 {
            CcfcLineView::Inactive
        } else if third_field(rest).len() == 0 {
            CcfcLineView::Nowhere
        } else {
            match number {
                Ok(e164) => CcfcLineView::To(e164),
                Err(e) => CcfcLineView::Bad(complaint(e)),
            }
        },
    }
}

/// The third field, without quotation marks.
pub open spec fn third_field(rest: Seq<char>) -> Seq<char> {
    let parts = split(trimmed(rest), ',');
    if parts.len() > 2 {
        unquoted(trimmed(parts[2]))
    } else {
        Seq::empty()
    }
}

/// The fields of a line about forwarding.
pub open spec fn ccfc_body(line: Seq<char>) -> Option<Seq<char>> {
    match after_prefix(trimmed(line), "+CCFC:"@) {
        Some(rest) => Some(rest),
        None => after_prefix(trimmed(line), "+ccfc:"@),
    }
}

/// The number as a line writes it, if it writes one.
pub open spec fn ccfc_raw(line: Seq<char>) -> Seq<char> {
    match ccfc_body(line) {
        Some(rest) => third_field(rest),
        None => Seq::empty(),
    }
}

/// What a line says, given what its number reads as.
pub open spec fn ccfc_says_with(
    line: Seq<char>,
    number: Result<Seq<char>, NormalizeErrorView>,
) -> CcfcLineView {
    match ccfc_body(line) {
        Some(rest) => ccfc_fields(trimmed(line), rest, number),
        None => CcfcLineView::Other,
    }
}

/// What a line says.
pub open spec fn ccfc_says(line: Seq<char>, region: Seq<char>) -> CcfcLineView {
    ccfc_says_with(line, normalized(ccfc_raw(line), region))
}

proof fn lemma_split_not_empty(s: Seq<char>, sep: char)
    ensures
        split(s, sep).len() > 0,
{
}

fn fields_of(line: &str) -> (r: Option<String>)
    ensures
        opt_view(r) == ccfc_body(line@),
{
    let line = trim(line);
    match strip_prefix(line.as_str(), "+CCFC:") {
        Some(rest) => Some(rest),
        None => strip_prefix(line.as_str(), "+ccfc:"),
    }
}

fn third_of(rest: &str) -> (r: String)
    ensures
        r@ == third_field(rest@),
{
    let body = trim(rest);
    let parts = split_on(body.as_str(), ',');
    assert(views(parts@).len() == parts@.len());
    if parts.len() > 2 {
        assert(views(parts@)[2] == parts@[2]@);
        unquote(trim(parts[2].as_str()).as_str())
    } else {
        let none = String::new();
        assert(none@ =~= Seq::empty());
        none
    }
}

/// The number as a line writes it; an empty text if it writes none.
pub fn ccfc_number(line: &str) -> (r: String)
    ensures
        r@ == ccfc_raw(line@),
{
    match fields_of(line) {
        Some(rest) => third_of(rest.as_str()),
        None => {
            let none = String::new();
            assert(none@ =~= Seq::empty());
            none
        },
    }
}

/// Reads one line of a reply, given what its number reads as.
pub fn ccfc_line_with(line: &str, number: Result<String, NormalizeError>) -> (r: CcfcLine)
    ensures
        r@ == ccfc_says_with(line@, result_view(number)),
{
    let rest = match fields_of(line) {
        Some(rest) => rest,
        None => {
            return CcfcLine::Other;
        },
    };
    let body = trim(rest.as_str());
    let parts = split_on(body.as_str(), ',');
    proof {
        lemma_split_not_empty(body@, ',');
        assert(views(parts@)[0] == parts@[0]@);
    }
    let status = match parse_u32(trim(parts[0].as_str()).as_str()) {
        Some(n) => n,
        None => {
            return CcfcLine::Bad(cat("bad +CCFC status in: ", trim(line).as_str()));
        },
    };
    if status != 1 {
        return CcfcLine::Inactive;
    }
    if third_of(rest.as_str()).as_str().is_empty() {
        return CcfcLine::Nowhere;
    }
    match number {
        Ok(e164) => CcfcLine::To(e164),
        Err(e) => CcfcLine::Bad(e.message()),
    }
}

/// Reads one line of a reply.
pub fn ccfc_line(line: &str, default_region: &str) -> (r: CcfcLine)
    ensures
        r@ == ccfc_says(line@, default_region@),
{
    let raw = ccfc_number(line);
    ccfc_line_with(line, normalize_e164(raw.as_str(), default_region))
}

pub open spec fn unreadable() -> spec_fn(CcfcLineView) -> bool {
    |l: CcfcLineView| l is Bad
}

pub open spec fn goes_nowhere() -> spec_fn(CcfcLineView) -> bool {
    |l: CcfcLineView| l is Nowhere
}

pub open spec fn about_forwarding() -> spec_fn(CcfcLineView) -> bool {
    |l: CcfcLineView| !(l is Other)
}

/// The number of the last line that names one.
pub open spec fn last_number(lines: Seq<CcfcLineView>) -> Option<Seq<char>>
    decreases lines.len(),
{
    if lines.len() == 0 {
        None
    } else {
        match lines.last() {
            CcfcLineView::To(e164) => Some(e164),
            _ => last_number(lines.drop_last()),
        }
    }
}

pub open spec fn forwarding_off() -> CallForwardStateView {
    CallForwardStateView { enabled: false, e164: None }
}

pub open spec fn forwarding_to(e164: Seq<char>) -> CallForwardStateView {
    CallForwardStateView { enabled: true, e164: Some(e164) }
}

/// What the lines of a reply amount to: the first line that cannot be read
/// spoils it; otherwise the last number named counts, then whether forwarding is
/// active without one, then whether the reply spoke of forwarding at all or
/// ended well.
pub open spec fn ccfc_amounts(text: Seq<char>, lines: Seq<CcfcLineView>) -> Result<
    CallForwardStateView,
    Seq<char>,
> {
    let bad = find(lines, unreadable());
    if bad < lines.len() {
        Err(lines[bad]->Bad_0)
    } else if last_number(lines) is Some {
        Ok(forwarding_to(last_number(lines)->0))
    } else if find(lines, goes_nowhere()) < lines.len() {
        Err("AT+CCFC reports active but has no number: "@ + text)
    } else if find(lines, about_forwarding()) < lines.len() || holds(upper(text), "OK"@) {
        Ok(forwarding_off())
    } else {
        Err("unparseable AT+CCFC reply: "@ + text)
    }
}

pub open spec fn error_line() -> spec_fn(Seq<char>) -> bool {
    |l: Seq<char>| trimmed(l) == "ERROR"@ || trimmed(l) == "NO CARRIER"@
}

/// The modem refused the command.
pub open spec fn ccfc_refused(text: Seq<char>) -> bool {
    ||| holds(upper(text), "+CME ERROR"@)
    ||| find(split(upper(text), '\n'), error_line()) < split(upper(text), '\n').len()
}

pub open spec fn ccfc_saying(region: Seq<char>) -> spec_fn(Seq<char>) -> CcfcLineView {
    |l: Seq<char>| ccfc_says(l, region)
}

/// What a reply to `AT+CCFC` says.
pub open spec fn ccfc_reply(text: Seq<char>, region: Seq<char>) -> Result<
    CallForwardStateView,
    Seq<char>,
> {
    if ccfc_refused(text) {
        Err("AT+CCFC error: "@ + text)
    } else {
        ccfc_amounts(text, split(text, '\n').map_values(ccfc_saying(region)))
    }
}

/// Weighs the lines of a reply.
pub fn ccfc_verdict(text: &str, lines: &Vec<CcfcLine>) -> (r: Result<CallForwardState, String>)
    ensures
        res_view(r) == ccfc_amounts(text@, views(lines@)),
{
    let ghost all = views(lines@);
    let mut i: usize = 0;
    let mut number: Option<String> = None;
    let mut nowhere: usize = lines.len();
    let mut spoken: usize = lines.len();
    assert(all.take(0) =~= Seq::empty());
    while i < lines.len()
        invariant
            i <= lines@.len(),
            all == views(lines@),
            forall|j: int| 0 <= j < i ==> !(#[trigger] all[j] is Bad),
            opt_view(number) == last_number(all.take(i as int)),
            nowhere <= lines@.len(),
            nowhere < lines@.len() ==> nowhere < i && all[nowhere as int] is Nowhere,
            forall|j: int| 0 <= j < i && j < nowhere ==> !(#[trigger] all[j] is Nowhere),
            spoken <= lines@.len(),
            spoken < lines@.len() ==> spoken < i && !(all[spoken as int] is Other),
            forall|j: int| 0 <= j < i && j < spoken ==> #[trigger] all[j] is Other,
        decreases lines@.len() - i,
    {
        assert(all[i as int] == lines@[i as int]@);
        assert(all.take(i + 1).drop_last() =~= all.take(i as int));
        match &lines[i] {
            CcfcLine::Other => {},
            CcfcLine::Inactive => {},
            CcfcLine::Nowhere => {
                if nowhere == lines.len() {
                    nowhere = i;
                }
            },
            CcfcLine::To(e164) => {
                number = Some(e164.clone());
            },
            CcfcLine::Bad(message) => {
                proof {
                    lemma_find_is(all, unreadable(), i as int);
                }
                return Err(message.clone());
            },
        }
        if spoken == lines.len() {
            match &lines[i] {
                CcfcLine::Other => {},
                _ => {
                    spoken = i;
                },
            }
        }
        i = i + 1;
    }
    proof {
        assert(all.take(i as int) =~= all);
        lemma_find_is(all, unreadable(), i as int);
        lemma_find_is(all, goes_nowhere(), nowhere as int);
        lemma_find_is(all, about_forwarding(), spoken as int);
    }
    if let Some(e164) = number {
        return Ok(CallForwardState { enabled: true, e164: Some(e164) });
    }
    if nowhere < lines.len() {
        return Err(cat("AT+CCFC reports active but has no number: ", text));
    }
    if spoken < lines.len() || contains(to_upper(text).as_str(), "OK") {
        return Ok(CallForwardState { enabled: false, e164: None });
    }
    Err(cat("unparseable AT+CCFC reply: ", text))
}

fn is_refused(text: &str) -> (r: bool)
    ensures
        r == ccfc_refused(text@),
{
    let shout = to_upper(text);
    if contains(shout.as_str(), "+CME ERROR") {
        return true;
    }
    let lines = split_on(shout.as_str(), '\n');
    let ghost all = views(lines@);
    let mut i: usize = 0;
    while i < lines.len()
        invariant
            i <= lines@.len(),
            all == views(lines@),
            all == split(upper(text@), '\n'),
            forall|j: int| 0 <= j < i ==> !error_line()(#[trigger] all[j]),
        decreases lines@.len() - i,
    {
        assert(all[i as int] == lines@[i as int]@);
        let line = trim(lines[i].as_str());
        if str_eq(line.as_str(), "ERROR") || str_eq(line.as_str(), "NO CARRIER") {
            proof {
                lemma_find_is(all, error_line(), i as int);
            }
            return true;
        }
        i = i + 1;
    }
    proof {
        lemma_find_is(all, error_line(), i as int);
    }
    false
}

/// Parse `AT+CCFC=0,2` response lines (`+CCFC: <status>,<class>[,number,type]`).
pub fn parse_ccfc_reply(text: &str, default_region: &str) -> (r: Result<CallForwardState, String>)
    ensures
        res_view(r) == ccfc_reply(text@, default_region@),
{
    if is_refused(text) {
        return Err(cat("AT+CCFC error: ", text));
    }
    let lines = split_on(text, '\n');
    let ghost all = views(lines@);
    let ghost f = ccfc_saying(default_region@);
    let mut said: Vec<CcfcLine> = Vec::new();
    let mut i: usize = 0;
    while i < lines.len()
        invariant
            i <= lines@.len(),
            all == views(lines@),
            f == ccfc_saying(default_region@),
            views(said@) == all.map_values(f).take(i as int),
        decreases lines@.len() - i,
    {
        let ghost so_far = said@;
        assert(all[i as int] == lines@[i as int]@);
        said.push(ccfc_line(lines[i].as_str(), default_region));
        assert(views(said@) =~= views(so_far).push(f(all[i as int])));
        i = i + 1;
    }
    assert(all.map_values(f).take(i as int) =~= all.map_values(f));
    ccfc_verdict(text, &said)
}

// ---------------------------------------------------------------------------
// Replies to USSD codes
// ---------------------------------------------------------------------------

pub open spec fn off_words() -> Seq<Seq<char>> {
    seq![
        "not forwarded"@,
        "not activated"@,
        "deactivated"@,
        "disabled"@,
        "not active"@,
        "inactive"@,
        "erased"@,
        "cancelled"@,
        "canceled"@,
    ]
}

pub open spec fn on_words() -> Seq<Seq<char>> {
    seq!["forwarded"@, "activated"@, "active"@, "unconditional"@]
}

/// The text holds one of the words.
pub open spec fn holds_any(s: Seq<char>, words: Seq<Seq<char>>) -> bool {
    exists|i: int| 0 <= i < words.len() && holds(s, #[trigger] words[i])
}

fn says_off(s: &str) -> (r: bool)
    ensures
        r == holds_any(s@, off_words()),
{
    let r = contains(s, "not forwarded") || contains(s, "not activated") || contains(
        s,
        "deactivated",
    ) || contains(s, "disabled") || contains(s, "not active") || contains(s, "inactive")
        || contains(s, "erased") || contains(s, "cancelled") || contains(s, "canceled");
    proof {
        let w = off_words();
        assert(holds(s@, w[0]) || holds(s@, w[1]) || holds(s@, w[2]) || holds(s@, w[3]) || holds(
            s@,
            w[4],
        ) || holds(s@, w[5]) || holds(s@, w[6]) || holds(s@, w[7]) || holds(s@, w[8]) <==> r);
    }
    r
}

fn says_on(s: &str) -> (r: bool)
    ensures
        r == holds_any(s@, on_words()),
{
    let r = contains(s, "forwarded") || contains(s, "activated") || contains(s, "active")
        || contains(s, "unconditional");
    proof {
        let w = on_words();
        assert(holds(s@, w[0]) || holds(s@, w[1]) || holds(s@, w[2]) || holds(s@, w[3]) <==> r);
    }
    r
}

pub open spec fn not_digit() -> spec_fn(char) -> bool {
    |c: char| !is_digit(c)
}

/// How many digits the text begins with.
pub open spec fn digit_run(s: Seq<char>) -> int {
    find(s, not_digit())
}

/// The first plus sign with at least eight digits behind it, with all of them.
pub open spec fn plus_number(s: Seq<char>) -> Option<Seq<char>>
    decreases s.len(),
{
    if s.len() == 0 {
        None
    } else if s[0] == '+' && digit_run(s.skip(1)) >= 8 {
        Some(s.take(1 + digit_run(s.skip(1))))
    } else {
        plus_number(s.skip(1))
    }
}

/// The unbroken runs of digits.
pub open spec fn digit_runs(s: Seq<char>) -> Seq<Seq<char>>
    decreases s.len(),
{
    if s.len() == 0 {
        Seq::empty()
    } else {
        let n = digit_run(s);
        if 0 < n <= s.len() {
            seq![s.take(n)] + digit_runs(s.skip(n))
        } else {
            digit_runs(s.skip(1))
        }
    }
}

/// The first of the longest runs, if it has at least ten digits.
pub open spec fn best_run(runs: Seq<Seq<char>>) -> Option<Seq<char>>
    decreases runs.len(),
{
    if runs.len() == 0 {
        None
    } else {
        let best = best_run(runs.drop_last());
        let run = runs.last();
        if run.len() >= 10 && !(best matches Some(b) && b.len() >= run.len()) {
            Some(run)
        } else {
            best
        }
    }
}

fn run_end(chars: &Vec<char>, from: usize) -> (r: usize)
    requires
        from <= chars@.len(),
    ensures
        from <= r <= chars@.len(),
        r - from == digit_run(chars@.skip(from as int)),
{
    let mut i: usize = from;
    let ghost s = chars@.skip(from as int);
    while i < chars.len() && digit(chars[i])
        invariant
            from <= i <= chars@.len(),
            s == chars@.skip(from as int),
            forall|j: int| 0 <= j < i - from ==> is_digit(#[trigger] s[j]),
        decreases chars@.len() - i,
    {
        assert(s[i - from] == chars@[i as int]);
        i = i + 1;
    }
    proof {
        if i < chars@.len() {
            assert(s[i - from] == chars@[i as int]);
        }
        lemma_find_is(s, not_digit(), i - from);
    }
    i
}

/// No plus sign among the digits that follow one.
proof fn lemma_skip_digits(s: Seq<char>, n: int)
    requires
        0 <= n <= s.len(),
        forall|j: int| 0 <= j < n ==> is_digit(#[trigger] s[j]),
    ensures
        plus_number(s) == plus_number(s.skip(n)),
    decreases n,
{
    if n > 0 {
        let rest = s.skip(1);
        assert forall|j: int| 0 <= j < n - 1 implies is_digit(#[trigger] rest[j]) by {
            assert(rest[j] == s[j + 1]);
        }
        lemma_skip_digits(rest, n - 1);
        assert(rest.skip(n - 1) =~= s.skip(n));
        assert(is_digit(s[0]));
    } else {
        assert(s.skip(0) =~= s);
    }
}

fn extract_plus_number(text: &str) -> (r: Option<String>)
    ensures
        opt_view(r) == plus_number(text@),
{
    let chars = chars_of(text);
    let mut i: usize = 0;
    assert(text@.skip(0) =~= text@);
    while i < chars.len()
        invariant
            i <= chars@.len(),
            chars@ == text@,
            plus_number(text@) == plus_number(text@.skip(i as int)),
        decreases chars@.len() - i,
    {
        let ghost s = text@.skip(i as int);
        if chars[i] == '+' {
            let end = run_end(&chars, i + 1);
            assert(s.skip(1) =~= text@.skip(i + 1));
            if end - i > 8 {
                let out = string_of(&chars, i, end);
                assert(out@ =~= s.take(end - i));
                return Some(out);
            }
            proof {
                let rest = text@.skip(i + 1);
                crate::rows::lemma_find(rest, not_digit());
                assert forall|j: int| 0 <= j < end - (i + 1) implies is_digit(
                    #[trigger] rest[j],
                ) by {
                    assert(!not_digit()(rest[j]));
                }
                lemma_skip_digits(rest, end - (i + 1));
                assert(rest.skip(end - (i + 1)) =~= text@.skip(end as int));
            }
            i = end;
        } else {
            assert(s.skip(1) =~= text@.skip(i + 1));
            i = i + 1;
        }
    }
    None
}

fn extract_digit_run(text: &str) -> (r: Option<String>)
    ensures
        opt_view(r) == best_run(digit_runs(text@)),
{
    let chars = chars_of(text);
    let mut i: usize = 0;
    let mut best: Option<String> = None;
    let mut best_len: usize = 0;
    let ghost mut done: Seq<Seq<char>> = Seq::empty();
    assert(text@.skip(0) =~= text@);
    assert(done + digit_runs(text@) =~= digit_runs(text@));
    while i < chars.len()
        invariant
            i <= chars@.len(),
            chars@ == text@,
            done + digit_runs(text@.skip(i as int)) == digit_runs(text@),
            opt_view(best) == best_run(done),
            best matches Some(b) ==> b@.len() == best_len,
            best is None ==> best_len == 0,
        decreases chars@.len() - i,
    {
        let ghost s = text@.skip(i as int);
        let end = run_end(&chars, i);
        if end > i {
            let run = string_of(&chars, i, end);
            proof {
                assert(run@ =~= s.take(end - i));
                assert(s.skip(end - i) =~= text@.skip(end as int));
                assert(done + (seq![run@] + digit_runs(text@.skip(end as int))) =~= done.push(run@)
                    + digit_runs(text@.skip(end as int)));
                assert(done.push(run@).drop_last() =~= done);
                done = done.push(run@);
            }
            if end - i >= 10 && best_len < end - i {
                best_len = end - i;
                best = Some(run);
            }
            i = end;
        } else {
            assert(s.skip(1) =~= text@.skip(i + 1));
            i = i + 1;
        }
    }
    assert(done + digit_runs(text@.skip(i as int)) =~= done);
    best
}

/// The number that a reply names: with a plus sign if there is one, and else
/// the longest run of digits.
pub open spec fn named_number(text: Seq<char>) -> Option<Seq<char>> {
    match plus_number(text) {
        Some(n) => Some(n),
        None => best_run(digit_runs(text)),
    }
}

/// What a reply to a USSD code says, given what the number that it names reads
/// as. Words that say it is off come first: a reply may name the number that it
/// does not forward to.
pub open spec fn ussd_says(
    text: Seq<char>,
    number: Option<Result<Seq<char>, NormalizeErrorView>>,
) -> Result<CallForwardStateView, Seq<char>> {
    if holds_any(lower(text), off_words()) {
        Ok(forwarding_off())
    } else if !holds_any(lower(text), on_words()) {
        Err("unparseable ussd reply: "@ + text)
    } else {
        match number {
            Some(Ok(e164)) => Ok(forwarding_to(e164)),
            Some(Err(e)) => Err(complaint(e)),
            None => Err("ussd reply looks enabled but has no number: "@ + text),
        }
    }
}

/// What a reply to a USSD code says.
pub open spec fn ussd_reply(text: Seq<char>, region: Seq<char>) -> Result<
    CallForwardStateView,
    Seq<char>,
> {
    ussd_says(
        text,
        match named_number(text) {
            Some(n) => Some(normalized(n, region)),
            None => None,
        },
    )
}

/// The number that a reply names.
pub fn number_in(text: &str) -> (r: Option<String>)
    ensures
        opt_view(r) == named_number(text@),
{
    match extract_plus_number(text) {
        Some(plus) => Some(plus),
        None => extract_digit_run(text),
    }
}

/// Reads a reply, given what the number that it names reads as.
pub fn ussd_verdict(text: &str, number: Option<Result<String, NormalizeError>>) -> (r: Result<
    CallForwardState,
    String,
>)
    ensures
        res_view(r) == ussd_says(
            text@,
            match number {
                Some(n) => Some(result_view(n)),
                None => None,
            },
        ),
{
    let quiet = to_lower(text);
    if says_off(quiet.as_str()) {
        return Ok(CallForwardState { enabled: false, e164: None });
    }
    if !says_on(quiet.as_str()) {
        return Err(cat("unparseable ussd reply: ", text));
    }
    match number {
        Some(Ok(e164)) => Ok(CallForwardState { enabled: true, e164: Some(e164) }),
        Some(Err(e)) => Err(e.message()),
        None => Err(cat("ussd reply looks enabled but has no number: ", text)),
    }
}

pub fn parse_ussd_reply(text: &str, default_region: &str) -> (r: Result<CallForwardState, String>)
    ensures
        res_view(r) == ussd_reply(text@, default_region@),
{
    match number_in(text) {
        Some(n) => ussd_verdict(text, Some(normalize_e164(n.as_str(), default_region))),
        None => ussd_verdict(text, None),
    }
}

/// A reply that says forwarding is off is taken at its word, whatever number it
/// names and whatever else it says.
pub proof fn law_off_is_off(text: Seq<char>, region: Seq<char>)
    requires
        holds_any(lower(text), off_words()),
    ensures
        ussd_reply(text, region) == Ok::<CallForwardStateView, Seq<char>>(forwarding_off()),
{
}

/// A reply never reads as forwarding without a number that calls go to, nor as
/// naming one while forwarding is off.
pub proof fn law_forwarding_has_a_number(text: Seq<char>, region: Seq<char>)
    ensures
        ussd_reply(text, region) matches Ok(s) ==> s.enabled == (s.e164 is Some),
        ccfc_reply(text, region) matches Ok(s) ==> s.enabled == (s.e164 is Some),
{
}

} // verus!
