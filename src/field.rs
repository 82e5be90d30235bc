use vstd::prelude::*;

verus! {

/// The type that a field's text is parsed into.
#[derive(Debug, Clone, Copy, PartialEq, Eq, Structural)]
pub enum FieldType {
    /// Any text, taken as it is.
    Text,
    /// A `usize` written in decimal.
    Unsigned,
    /// `true` or `false`.
    Boolean,
}

/// A default as it was declared: a textual literal, or a number or boolean
/// literal that is turned into its canonical text before parsing.
#[derive(Debug, Clone, PartialEq, Eq)]
pub enum DefaultLiteral {
    Text(String),
    Number(u64),
    Bool(bool),
}

/// Describes one field of a record: its name, where its value may come from,
/// and the type its text is parsed into.
#[derive(Debug, Clone, PartialEq, Eq)]
pub struct FieldSpec {
    pub name: String,
    /// The environment variable that may supply the value.
    pub env: Option<String>,
    /// The fallback used when no environment value is available.
    pub default: Option<DefaultLiteral>,
    pub ty: FieldType,
}

/// A resolved field value.
#[derive(Debug, Clone, PartialEq, Eq)]
pub enum Value {
    Text(String),
    Unsigned(usize),
    Boolean(bool),
}

/// Mathematical model of a [`Value`].
pub enum ValueView {
    Text(Seq<char>),
    Unsigned(usize),
    Boolean(bool),
}

impl View for Value {
    type V = ValueView;

    open spec fn view(&self) -> ValueView {
        match self {
            Value::Text(s) => ValueView::Text(s@),
            Value::Unsigned(n) => ValueView::Unsigned(*n),
            Value::Boolean(b) => ValueView::Boolean(*b),
        }
    }
}

/// The character of the decimal digit `d`, for `d < 10`.
pub open spec fn digit_char(d: nat) -> char {
    (('0' as nat) + d) as char
}

/// The decimal digits of `n`, most significant first, without leading zeros.
pub open spec fn decimal_text(n: nat) -> Seq<char>
    decreases n,
{
    if n < 10 {
        seq![digit_char(n)]
    } else {
        decimal_text(n / 10).push(digit_char(n % 10))
    }
}

/// `c` is one of the ASCII digits `0` to `9`.
pub open spec fn is_decimal_digit(c: char) -> bool {
    '0' <= c && c <= '9'
}

/// The number written by a sequence of decimal digits.
pub open spec fn digits_value(s: Seq<char>) -> nat
    decreases s.len(),
{
    if s.len() == 0 {
        0
    } else {
        digits_value(s.drop_last()) * 10 + ((s.last() as nat) - ('0' as nat)) as nat
    }
}

/// The text of an unsigned number after its optional leading `+`.
pub open spec fn unsigned_digits(s: Seq<char>) -> Seq<char> {
    if s.len() > 0 && s[0] == '+' {
        s.drop_first()
    } else {
        s
    }
}

/// The `usize` written by `s`: an optional `+` followed by one or more
/// decimal digits whose value fits in a `usize`.
pub open spec fn unsigned_of_text(s: Seq<char>) -> Option<usize> {
    let d = unsigned_digits(s);
    if d.len() > 0 && (forall|i: int| 0 <= i < d.len() ==> is_decimal_digit(#[trigger] d[i]))
        && digits_value(d) <= usize::MAX {
        Some(digits_value(d) as usize)
    } else {
        None
    }
}

/// The `bool` written by `s`: exactly `true` or `false`.
pub open spec fn bool_of_text(s: Seq<char>) -> Option<bool> {
    if s == "true"@ {
        Some(true)
    } else if s == "false"@ {
        Some(false)
    } else {
        None
    }
}

/// The canonical text of a default literal.
pub open spec fn literal_text(d: DefaultLiteral) -> Seq<char> {
    match d {
        DefaultLiteral::Text(s) => s@,
        DefaultLiteral::Number(n) => decimal_text(n as nat),
        DefaultLiteral::Bool(b) => if b {
            "true"@
        } else {
            "false"@
        },
    }
}

/// What parsing the text `s` as a field of type `ty` yields, if anything.
pub open spec fn parse_text(ty: FieldType, s: Seq<char>) -> Option<ValueView> {
    match ty {
        FieldType::Text => Some(ValueView::Text(s)),
        FieldType::Unsigned => match unsigned_of_text(s) {
            Some(n) => Some(ValueView::Unsigned(n)),
            None => None,
        },
        FieldType::Boolean => match bool_of_text(s) {
            Some(b) => Some(ValueView::Boolean(b)),
            None => None,
        },
    }
}

/// Relies on `<usize as FromStr>::from_str`: an optional `+` followed by
/// decimal digits is accepted when its value fits in `usize`; any other text
/// (empty, a sign alone, whitespace, other characters, overflow) is an error.
#[verifier::external_body]
fn parse_usize(s: &str) -> (r: Option<usize>)
    ensures
        r == unsigned_of_text(s@),
{
    s.parse::<usize>().ok()
}

/// Relies on `<bool as FromStr>::from_str`: accepts exactly `true` and `false`.
#[verifier::external_body]
fn parse_bool(s: &str) -> (r: Option<bool>)
    ensures
        r == bool_of_text(s@),
{
    s.parse::<bool>().ok()
}

/// Relies on `<u64 as ToString>::to_string`: the decimal digits of the
/// number, without sign or leading zeros.
#[verifier::external_body]
fn u64_text(n: u64) -> (r: String)
    ensures
        r@ == decimal_text(n as nat),
{
    n.to_string()
}

/// Parses `text` as a value of type `ty`.
pub fn parse_as(ty: FieldType, text: &str) -> (r: Option<Value>)
    ensures
        match r {
            Some(v) => parse_text(ty, text@) == Some(v@),
            None => parse_text(ty, text@) is None,
        },
{
    match ty {
        FieldType::Text => Some(Value::Text(text.to_owned())),
        FieldType::Unsigned => match parse_usize(text) {
            Some(n) => Some(Value::Unsigned(n)),
            None => None,
        },
        FieldType::Boolean => match parse_bool(text) {
            Some(b) => Some(Value::Boolean(b)),
            None => None,
        },
    }
}

impl DefaultLiteral {
    /// The canonical text of this literal, as handed to the parser.
    pub fn normalize(&self) -> (r: String)
        ensures
            r@ == literal_text(*self),
    {
        match self {
            DefaultLiteral::Text(s) => s.clone(),
            DefaultLiteral::Number(n) => u64_text(*n),
            DefaultLiteral::Bool(b) => if *b {
                String::from_str("true")
            } else {
                String::from_str("false")
            },
        }
    }
}

} // verus!
