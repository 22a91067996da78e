//! Reading one form of extensible data notation.
//!
//! The `edn` reader does the parsing. It aborts on some texts: on a character
//! that starts no form, on a closing bracket that closes nothing, on a sign
//! before a bracket, on an integer too long for 64 bits. A text is therefore
//! screened first, and only a text that passes is handed to the reader.

use vstd::prelude::*;

verus! {

/// A form as the reader returns it, reduced to what a description of geometry
/// can hold.
#[derive(Debug)]
pub enum Datum {
    /// A whole number, such as `12` or `-3`.
    Integer(i64),
    /// A number with a fractional part, as the bit pattern of the IEEE 754
    /// double that the reader produced.
    Real(u64),
    /// A keyword, without its leading colon.
    Keyword(String),
    /// A bracketed sequence, in the order written.
    Vector(Vec<Datum>),
    /// A braced map, as its entries in the reader's key order.
    Mapping(Vec<(Datum, Datum)>),
    /// Any other form: a symbol, a boolean, nil.
    Other,
}

/// Where the reader gave up: the byte range it blames.
#[derive(Debug, Clone, Copy, PartialEq, Eq, Structural)]
pub struct Span {
    pub lo: usize,
    pub hi: usize,
}

/// The outcome of reading a text.
#[derive(Debug)]
pub enum Reading {
    /// The text did not pass the screen; the reader was not called.
    Unreadable,
    /// The text holds no form: it is empty, or blank.
    Nothing,
    /// The reader reported a syntax error.
    Malformed(Span),
    /// The first form of the text.
    Form(Datum),
}

/// How deep brackets may nest in a text that passes the screen.
pub const MAX_NESTING: usize = 32;

/// How many digits may stand in a row in a text that passes the screen. Any
/// such run fits in a signed 64-bit integer.
pub const MAX_DIGITS: usize = 18;

/// A decimal digit.
#[verifier::allow_in_spec]
pub fn is_digit(c: char) -> bool
    returns
        '0' <= c && c <= '9',
{
    '0' <= c && c <= '9'
}

/// A letter of the Latin alphabet, small or capital.
#[verifier::allow_in_spec]
pub fn is_letter(c: char) -> bool
    returns
        ('a' <= c && c <= 'z') || ('A' <= c && c <= 'Z'),
{
    ('a' <= c && c <= 'z') || ('A' <= c && c <= 'Z')
}

/// A plus or a minus.
#[verifier::allow_in_spec]
pub fn is_sign(c: char) -> bool
    returns
        c == '+' || c == '-',
{
    c == '+' || c == '-'
}

/// Characters that separate forms.
#[verifier::allow_in_spec]
pub fn is_blank(c: char) -> bool
    returns
        c == ' ' || c == '\t' || c == '\n' || c == '\r' || c == ',',
{
    c == ' ' || c == '\t' || c == '\n' || c == '\r' || c == ','
}

/// Characters of which numbers, keywords and symbols are made.
#[verifier::allow_in_spec]
pub fn is_name_char(c: char) -> bool
    returns
        is_letter(c) || is_digit(c) || is_sign(c) || c == '.' || c == '_' || c == ':',
{
    is_letter(c) || is_digit(c) || is_sign(c) || c == '.' || c == '_' || c == ':'
}

/// A bracket that begins a vector or a map.
#[verifier::allow_in_spec]
pub fn is_opener(c: char) -> bool
    returns
        c == '[' || c == '{',
{
    c == '[' || c == '{'
}

/// A bracket that ends a vector or a map.
#[verifier::allow_in_spec]
pub fn is_closer(c: char) -> bool
    returns
        c == ']' || c == '}',
{
    c == ']' || c == '}'
}

/// Whether `close` is the bracket that ends what `open` began.
#[verifier::allow_in_spec]
pub fn closes(open: char, close: char) -> bool
    returns
        (open == '[' && close == ']') || (open == '{' && close == '}'),
{
    (open == '[' && close == ']') || (open == '{' && close == '}')
}

/// The alphabet of a readable text.
#[verifier::allow_in_spec]
pub fn is_allowed(c: char) -> bool
    returns
        is_name_char(c) || is_blank(c) || is_opener(c) || is_closer(c),
{
    is_name_char(c) || is_blank(c) || is_opener(c) || is_closer(c)
}

/// What may stand directly behind a sign.
#[verifier::allow_in_spec]
pub fn may_follow_sign(c: char) -> bool
    returns
        is_name_char(c) || c == ' ' || c == '\t' || c == '\n',
{
    is_name_char(c) || c == ' ' || c == '\t' || c == '\n'
}

/// The number of digits that stand in a row directly before position `end`.
pub open spec fn digit_run(text: Seq<char>, end: int) -> nat
    decreases end,
{
    if 0 < end <= text.len() && is_digit(text[end - 1]) {
        1 + digit_run(text, end - 1)
    } else {
        0
    }
}

/// The open brackets after one more character, innermost last; `None` where
/// the character closes a bracket that is not the innermost open one, or
/// opens one too many.
pub open spec fn nesting_step(open: Seq<char>, c: char) -> Option<Seq<char>> {
    if is_opener(c) {
        if open.len() < MAX_NESTING {
            Some(open.push(c))
        } else {
            None
        }
    } else if is_closer(c) {
        if open.len() > 0 && closes(open.last(), c) {
            Some(open.drop_last())
        } else {
            None
        }
    } else {
        Some(open)
    }
}

/// The open brackets after the first `end` characters of `text`.
pub open spec fn nesting(text: Seq<char>, end: int) -> Option<Seq<char>>
    decreases end,
{
    if end <= 0 {
        Some(Seq::empty())
    } else {
        match nesting(text, end - 1) {
            Some(open) => nesting_step(open, text[end - 1]),
            None => None,
        }
    }
}

/// The screen. A text passes when
/// - each character is a letter, a digit, one of `+ - . _ :`, a blank
///   (space, tab, newline, carriage return, comma) or one of `[ ] { }`;
/// - each sign is followed by the end of the text, a space, a tab, a newline
///   or a character of which names are made;
/// - no more than [`MAX_DIGITS`] digits stand in a row;
/// - each closing bracket closes the innermost open one, and no more than
///   [`MAX_NESTING`] brackets are open at once.
pub open spec fn readable(text: Seq<char>) -> bool {
    &&& forall|i: int| 0 <= i < text.len() ==> is_allowed(#[trigger] text[i])
    &&& forall|i: int|
        0 <= i < text.len() - 1 && is_sign(#[trigger] text[i]) ==> may_follow_sign(text[i + 1])
    &&& forall|i: int| 0 <= i <= text.len() ==> #[trigger] digit_run(text, i) <= MAX_DIGITS
    &&& nesting(text, text.len() as int) is Some
}

/// Once a bracket is misplaced, no later character mends it.
proof fn lemma_nesting_stays_none(text: Seq<char>, at: int, end: int)
    requires
        0 <= at <= end,
        nesting(text, at) is None,
    ensures
        nesting(text, end) is None,
    decreases end - at,
{
    if at < end {
        lemma_nesting_stays_none(text, at, end - 1);
    }
}

/// Tells whether `text` passes the screen.
pub fn is_readable(text: &str) -> (ok: bool)
    ensures
        ok == readable(text@),
{
    if !text.is_ascii() {
        assert(!readable(text@)) by {
            if readable(text@) {
                assert forall|i: int| 0 <= i < text@.len() implies '\0' <= #[trigger] text@[i]
                    <= '\u{7f}' by {
                    assert(is_allowed(text@[i]));
                }
            }
        }
        return false;
    }
    let bytes = text.as_bytes();
    proof {
        vstd::string::is_ascii_spec_bytes(text);
    }
    let n = bytes.len();
    let mut open: Vec<char> = Vec::new();
    let mut run: usize = 0;
    let mut i: usize = 0;
    while i < n
        invariant
            0 <= i <= n,
            n == text@.len(),
            n == bytes@.len(),
            vstd::utf8::is_ascii_chars(text@),
            forall|j: int| 0 <= j < n ==> bytes@[j] == text@[j] as u8,
            forall|j: int| 0 <= j < i ==> is_allowed(#[trigger] text@[j]),
            forall|j: int|
                0 <= j < i && j < n - 1 && is_sign(#[trigger] text@[j]) ==> may_follow_sign(
                    text@[j + 1],
                ),
            forall|j: int| 0 <= j <= i ==> #[trigger] digit_run(text@, j) <= MAX_DIGITS,
            run == digit_run(text@, i as int),
            nesting(text@, i as int) == Some(open@),
            open@.len() <= MAX_NESTING,
        decreases n - i,
    {
        let c: char = bytes[i] as char;
        assert(c == text@[i as int]);
        if !is_allowed(c) {
            return false;
        }
        if is_sign(c) && i + 1 < n {
            let next: char = bytes[i + 1] as char;
            assert(next == text@[i + 1]);
            if !may_follow_sign(next) {
                return false;
            }
        }
        if is_digit(c) {
            run = run + 1;
        } else {
            run = 0;
        }
        assert(run == digit_run(text@, i + 1));
        if run > MAX_DIGITS {
            return false;
        }
        if is_opener(c) {
            if open.len() >= MAX_NESTING {
                assert(nesting(text@, i + 1) is None);
                proof {
                    lemma_nesting_stays_none(text@, i + 1, n as int);
                }
                return false;
            }
            open.push(c);
        } else if is_closer(c) {
            if open.len() == 0 || !closes(open[open.len() - 1], c) {
                assert(nesting(text@, i + 1) is None);
                proof {
                    lemma_nesting_stays_none(text@, i + 1, n as int);
                }
                return false;
            }
            open.pop();
        }
        assert(nesting(text@, i + 1) == Some(open@));
        i += 1;
    }
    true
}

/// `edn::Value`, the reader's own value type. It is carried from [`parse`] to
/// [`datum_of`] unopened.
#[verifier::external_type_specification]
#[verifier::external_body]
pub struct ExValue(edn::Value);

/// What `edn::parser::Parser::read` returns for the first form of `text`:
/// nothing, the form, or the place of a syntax error.
pub uninterp spec fn first_form(text: Seq<char>) -> Option<Result<Datum, Span>>;

/// The form that a value of the reader, an `edn::Value`, holds: what
/// [`datum_of`] makes of it.
pub uninterp spec fn form_of(value: edn::Value) -> Datum;

/// Calls `edn::parser::Parser::new` on `text` and `edn::parser::Parser::read`
/// once, and keeps of a syntax error the range it blames. The contract claims
/// that the reader returns on every text that passes the screen, and that
/// the outcome depends on the text alone.
#[verifier::external_body]
fn parse(text: &str) -> (r: Option<Result<edn::Value, Span>>)
    requires
        readable(text@),
    ensures
        match r {
            None => first_form(text@) is None,
            Some(Ok(value)) => first_form(text@) == Some(Ok::<Datum, Span>(form_of(value))),
            Some(Err(span)) => first_form(text@) == Some(Err::<Datum, Span>(span)),
        },
{
    match edn::parser::Parser::new(text).read() {
        None => None,
        Some(Ok(value)) => Some(Ok(value)),
        Some(Err(e)) => Some(Err(Span { lo: e.lo, hi: e.hi })),
    }
}

/// Converts an `edn::Value`, one variant to one variant, and the items of a
/// vector or a map each in the same way. A float is taken out of its
/// `OrderedFloat` and kept as `f64::to_bits` gives it. Strings, characters,
/// lists, sets, tagged values, symbols, booleans and nil all become
/// [`Datum::Other`]; the entries of a map come in the order in which
/// `BTreeMap::iter` yields them. The contract claims that the outcome
/// depends on the value alone.
#[verifier::external_body]
fn datum_of(value: &edn::Value) -> (d: Datum)
    ensures
        d == form_of(*value),
{
    match value {
        edn::Value::Integer(i) => Datum::Integer(*i),
        edn::Value::Float(f) => Datum::Real(f.into_inner().to_bits()),
        edn::Value::Keyword(name) => Datum::Keyword(name.clone()),
        edn::Value::Vector(items) => Datum::Vector(items.iter().map(datum_of).collect()),
        edn::Value::Map(m) => Datum::Mapping(m.iter().map(|(k, v)| (datum_of(k), datum_of(v))).collect()),
        _ => Datum::Other,
    }
}

/// What reading `text` gives.
pub open spec fn reading(text: Seq<char>) -> Reading {
    if !readable(text) {
        Reading::Unreadable
    } else {
        match first_form(text) {
            None => Reading::Nothing,
            Some(Err(span)) => Reading::Malformed(span),
            Some(Ok(datum)) => Reading::Form(datum),
        }
    }
}

/// Screens `text` and, where it passes, reads its first form.
pub fn read(text: &str) -> (r: Reading)
    ensures
        r == reading(text@),
{
    if !is_readable(text) {
        return Reading::Unreadable;
    }
    match parse(text) {
        None => Reading::Nothing,
        Some(Err(span)) => Reading::Malformed(span),
        Some(Ok(value)) => Reading::Form(datum_of(&value)),
    }
}

} // verus!
