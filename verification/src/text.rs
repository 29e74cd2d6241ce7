//! Small string helpers shared by the message builders.

use vstd::prelude::*;

verus! {

/// The decimal digit `d` (0 to 9) as a character.
pub open spec fn digit_char(d: int) -> char {
    if d == 0 {
        '0'
    } else if d == 1 {
        '1'
    } else if d == 2 {
        '2'
    } else if d == 3 {
        '3'
    } else if d == 4 {
        '4'
    } else if d == 5 {
        '5'
    } else if d == 6 {
        '6'
    } else if d == 7 {
        '7'
    } else if d == 8 {
        '8'
    } else {
        '9'
    }
}

/// The decimal representation of `n`, most significant digit first and
/// without leading zeros; zero is `"0"`.
pub open spec fn decimal(n: nat) -> Seq<char>
    decreases n,
{
    if n < 10 {
        seq![digit_char(n as int)]
    } else {
        decimal(n / 10).push(digit_char((n % 10) as int))
    }
}

fn digit_str(d: u64) -> (s: &'static str)
    requires
        d < 10,
    ensures
        s@ == seq![digit_char(d as int)],
{
    proof {
        reveal_strlit("0");
        reveal_strlit("1");
        reveal_strlit("2");
        reveal_strlit("3");
        reveal_strlit("4");
        reveal_strlit("5");
        reveal_strlit("6");
        reveal_strlit("7");
        reveal_strlit("8");
        reveal_strlit("9");
    }
    if d == 0 {
        "0"
    } else if d == 1 {
        "1"
    } else if d == 2 {
        "2"
    } else if d == 3 {
        "3"
    } else if d == 4 {
        "4"
    } else if d == 5 {
        "5"
    } else if d == 6 {
        "6"
    } else if d == 7 {
        "7"
    } else if d == 8 {
        "8"
    } else {
        "9"
    }
}

/// Writes `n` in decimal.
pub fn decimal_string(n: u64) -> (s: String)
    ensures
        s@ == decimal(n as nat),
    decreases n,
{
    if n < 10 {
        String::from_str(digit_str(n))
    } else {
        let head = decimal_string(n / 10);
        head.concat(digit_str(n % 10))
    }
}

/// `prefix` followed by `rest`.
pub fn prefixed(prefix: &str, rest: &String) -> (s: String)
    ensures
        s@ == prefix@ + rest@,
{
    String::from_str(prefix).concat(rest.as_str())
}

/// The parts in order, with `separator` between each two of them; no parts
/// give the empty text.
pub open spec fn join_with(parts: Seq<Seq<char>>, separator: Seq<char>) -> Seq<char>
    decreases parts.len(),
{
    if parts.len() == 0 {
        Seq::empty()
    } else if parts.len() == 1 {
        parts[0]
    } else {
        join_with(parts.drop_last(), separator) + separator + parts.last()
    }
}

/// Joins the parts with `separator` between each two of them.
pub fn join_strings(parts: &Vec<String>, separator: &str) -> (joined: String)
    ensures
        joined@ == join_with(parts.deep_view(), separator@),
{
    let mut joined = String::new();
    let mut i: usize = 0;
    while i < parts.len()
        invariant
            i <= parts.len(),
            joined@ == join_with(parts.deep_view().take(i as int), separator@),
        decreases parts.len() - i,
    {
        proof {
            let before = parts.deep_view().take(i as int);
            let after = parts.deep_view().take(i + 1);
            assert(after.drop_last() == before);
            assert(after.last() == parts[i as int]@);
        }
        if i > 0 {
            joined.append(separator);
        }
        joined.append(parts[i].as_str());
        i = i + 1;
    }
    proof {
        assert(parts.deep_view().take(parts.len() as int) == parts.deep_view());
    }
    joined
}

/// Whether `c` is one of the digits `0` to `9`.
pub open spec fn is_digit(c: char) -> bool {
    '0' <= c <= '9'
}

/// The number that a sequence of decimal digits stands for.
pub open spec fn digits_value(digits: Seq<char>) -> nat
    decreases digits.len(),
{
    if digits.len() == 0 {
        0
    } else {
        digits_value(digits.drop_last()) * 10 + (digits.last() as u32 - '0' as u32) as nat
    }
}

/// Why a text is not a number.
#[derive(Debug, Clone, Copy, PartialEq, Eq, Structural)]
pub enum ParseError {
    /// The text is empty.
    Empty,
    /// The text holds something else than digits after an optional `+`.
    InvalidDigit,
    /// The number does not fit into 64 bits.
    Overflow,
}

impl ParseError {
    /// The error in words.
    pub open spec fn message(self) -> Seq<char> {
        match self {
            ParseError::Empty => "cannot parse integer from empty string"@,
            ParseError::InvalidDigit => "invalid digit found in string"@,
            ParseError::Overflow => "number too large to fit in target type"@,
        }
    }

    /// The error in words.
    pub fn to_text(&self) -> (text: String)
        ensures
            text@ == self.message(),
    {
        match self {
            ParseError::Empty => String::from_str("cannot parse integer from empty string"),
            ParseError::InvalidDigit => String::from_str("invalid digit found in string"),
            ParseError::Overflow => String::from_str("number too large to fit in target type"),
        }
    }
}

/// The digits of a number text: the text itself, without its leading `+`
/// where it has one.
pub open spec fn unsigned_part(text: Seq<char>) -> Seq<char> {
    if text.len() > 0 && text[0] == '+' {
        text.skip(1)
    } else {
        text
    }
}

/// The unsigned 64-bit number that a text stands for: decimal digits, which
/// a single `+` may precede. Leading zeros are accepted; blanks are not.
pub open spec fn parsed_u64(text: Seq<char>) -> Result<u64, ParseError> {
    let digits = unsigned_part(text);
    if text.len() == 0 {
        Err(ParseError::Empty)
    } else if digits.len() == 0 || exists|i: int| 0 <= i < digits.len() && !is_digit(digits[i]) {
        Err(ParseError::InvalidDigit)
    } else if digits_value(digits) > u64::MAX {
        Err(ParseError::Overflow)
    } else {
        Ok(digits_value(digits) as u64)
    }
}

/// A number written in decimal consists of digits only, and they stand for
/// the number.
pub proof fn lemma_decimal_digits(n: nat)
    ensures
        decimal(n).len() > 0,
        forall|i: int| 0 <= i < decimal(n).len() ==> is_digit(#[trigger] decimal(n)[i]),
        digits_value(decimal(n)) == n,
    decreases n,
{
    if n < 10 {
        let text = decimal(n);
        assert(text.drop_last() =~= Seq::<char>::empty());
        assert(digits_value(text.drop_last()) == 0);
        assert(text.last() == digit_char(n as int));
    } else {
        lemma_decimal_digits(n / 10);
        let head = decimal(n / 10);
        let text = decimal(n);
        assert(text.drop_last() =~= head);
        assert(text.last() == digit_char((n % 10) as int));
        assert forall|i: int| 0 <= i < text.len() implies is_digit(#[trigger] text[i]) by {
            if i < head.len() {
                assert(text[i] == head[i]);
            }
        }
    }
}

/// What is written in decimal reads back as the same number.
pub proof fn lemma_decimal_reads_back(n: u64)
    ensures
        parsed_u64(decimal(n as nat)) == Ok::<u64, ParseError>(n),
        !is_blank(decimal(n as nat)),
        trimmed(decimal(n as nat)) == decimal(n as nat),
{
    let text = decimal(n as nat);
    lemma_decimal_digits(n as nat);
    assert(is_digit(text[0]));
    assert(unsigned_part(text) == text);
    assert(!is_white_space(text[0]));
    assert(is_digit(text.last()));
    assert(!is_white_space(text.last()));
    assert(leading_space(text) == 0);
    assert(trailing_space(text) == 0);
    assert(text.subrange(0, text.len() as int) =~= text);
}

/// Reads an unsigned 64-bit number.
pub fn parse_u64(text: &String) -> (result: Result<u64, ParseError>)
    ensures
        result == parsed_u64(text@),
{
    let n = text.as_str().unicode_len();
    if n == 0 {
        return Err(ParseError::Empty);
    }
    let start: usize = if text.as_str().get_char(0) == '+' {
        1
    } else {
        0
    };
    let ghost digits = unsigned_part(text@);
    if start == n {
        return Err(ParseError::InvalidDigit);
    }
    let mut value: u64 = 0;
    let mut overflow = false;
    let mut i: usize = start;
    while i < n
        invariant
            start <= i <= n,
            n == text@.len(),
            digits == text@.skip(start as int),
            digits == unsigned_part(text@),
            forall|j: int| 0 <= j < i - start ==> is_digit(digits[j]),
            !overflow ==> value == digits_value(digits.take(i - start)),
            overflow ==> digits_value(digits.take(i - start)) > u64::MAX,
        decreases n - i,
    {
        let c = text.as_str().get_char(i);
        proof {
            assert(digits[i - start] == c);
            assert(digits.take(i - start + 1).drop_last() == digits.take(i - start));
            assert(digits.take(i - start + 1).last() == c);
        }
        if !(c >= '0' && c <= '9') {
            proof {
                assert(!is_digit(digits[i - start]));
            }
            return Err(ParseError::InvalidDigit);
        }
        let d: u64 = (c as u32 - '0' as u32) as u64;
        if !overflow {
            if value > (u64::MAX - d) / 10 {
                overflow = true;
            } else {
                value = value * 10 + d;
            }
        }
        i = i + 1;
    }
    proof {
        assert(digits.take(n - start) == digits);
    }
    if overflow {
        Err(ParseError::Overflow)
    } else {
        Ok(value)
    }
}

/// Whether `c` is white space, as Unicode defines it.
pub open spec fn is_white_space(c: char) -> bool {
    let code = c as u32;
    ||| 0x09 <= code <= 0x0d
    ||| code == 0x20
    ||| code == 0x85
    ||| code == 0xa0
    ||| code == 0x1680
    ||| 0x2000 <= code <= 0x200a
    ||| code == 0x2028
    ||| code == 0x2029
    ||| code == 0x202f
    ||| code == 0x205f
    ||| code == 0x3000
}

/// Whether a text holds nothing but white space.
pub open spec fn is_blank(text: Seq<char>) -> bool {
    forall|i: int| 0 <= i < text.len() ==> is_white_space(#[trigger] text[i])
}

/// How many characters of white space a text starts with.
pub open spec fn leading_space(text: Seq<char>) -> nat
    decreases text.len(),
{
    if text.len() > 0 && is_white_space(text[0]) {
        1 + leading_space(text.skip(1))
    } else {
        0
    }
}

/// How many characters of white space a text ends with.
pub open spec fn trailing_space(text: Seq<char>) -> nat
    decreases text.len(),
{
    if text.len() > 0 && is_white_space(text.last()) {
        1 + trailing_space(text.drop_last())
    } else {
        0
    }
}

/// The text without the white space at its start and at its end.
pub open spec fn trimmed(text: Seq<char>) -> Seq<char> {
    if is_blank(text) {
        Seq::empty()
    } else {
        text.subrange(leading_space(text) as int, text.len() - trailing_space(text))
    }
}

fn white_space(c: char) -> (answer: bool)
    ensures
        answer == is_white_space(c),
{
    let code = c as u32;
    (0x09 <= code && code <= 0x0d) || code == 0x20 || code == 0x85 || code == 0xa0 || code
        == 0x1680 || (0x2000 <= code && code <= 0x200a) || code == 0x2028 || code == 0x2029 || code
        == 0x202f || code == 0x205f || code == 0x3000
}

proof fn lemma_leading_space(text: Seq<char>, n: int)
    requires
        0 <= n <= text.len(),
        forall|i: int| 0 <= i < n ==> is_white_space(#[trigger] text[i]),
        n == text.len() || !is_white_space(text[n]),
    ensures
        leading_space(text) == n,
    decreases n,
{
    if n > 0 {
        let rest = text.skip(1);
        assert forall|i: int| 0 <= i < n - 1 implies is_white_space(#[trigger] rest[i]) by {
            assert(rest[i] == text[i + 1]);
        }
        lemma_leading_space(rest, n - 1);
    }
}

proof fn lemma_trailing_space(text: Seq<char>, n: int)
    requires
        0 <= n <= text.len(),
        forall|i: int| text.len() - n <= i < text.len() ==> is_white_space(#[trigger] text[i]),
        n == text.len() || !is_white_space(text[text.len() - n - 1]),
    ensures
        trailing_space(text) == n,
    decreases n,
{
    if n > 0 {
        let rest = text.drop_last();
        assert forall|i: int| rest.len() - (n - 1) <= i < rest.len() implies is_white_space(
            #[trigger] rest[i],
        ) by {
            assert(rest[i] == text[i]);
        }
        lemma_trailing_space(rest, n - 1);
    }
}

/// Whether a text holds nothing but white space.
pub fn blank(text: &String) -> (answer: bool)
    ensures
        answer == is_blank(text@),
{
    let n = text.as_str().unicode_len();
    let mut i: usize = 0;
    while i < n
        invariant
            i <= n,
            n == text@.len(),
            forall|j: int| 0 <= j < i ==> is_white_space(#[trigger] text@[j]),
        decreases n - i,
    {
        if !white_space(text.as_str().get_char(i)) {
            return false;
        }
        i = i + 1;
    }
    true
}

/// Removes the white space at the start and at the end of a text.
pub fn trim(text: &String) -> (result: String)
    ensures
        result@ == trimmed(text@),
{
    let n = text.as_str().unicode_len();
    let mut from: usize = 0;
    while from < n && white_space(text.as_str().get_char(from))
        invariant
            from <= n,
            n == text@.len(),
            forall|j: int| 0 <= j < from ==> is_white_space(#[trigger] text@[j]),
        decreases n - from,
    {
        from = from + 1;
    }
    if from == n {
        return String::new();
    }
    let mut to: usize = n;
    while to > from && white_space(text.as_str().get_char(to - 1))
        invariant
            from <= to <= n,
            from < n,
            n == text@.len(),
            !is_white_space(text@[from as int]),
            forall|j: int| to <= j < n ==> is_white_space(#[trigger] text@[j]),
        decreases to,
    {
        to = to - 1;
    }
    proof {
        lemma_leading_space(text@, from as int);
        lemma_trailing_space(text@, n - to);
        assert(!is_blank(text@));
    }
    String::from_str(text.as_str().substring_char(from, to))
}

} // verus!
