//! Small operations on text, stated over sequences of characters.

use vstd::prelude::*;
use vstd::string::*;

verus! {

/// Whether two texts hold the same characters.
pub fn text_eq(a: &str, b: &str) -> (same: bool)
    ensures
        same == (a@ == b@),
{
    a.to_owned() == b.to_owned()
}

/// `first` followed by `second`.
pub fn join(first: &str, second: &str) -> (joined: String)
    ensures
        joined@ == first@ + second@,
{
    let mut joined = first.to_owned();
    joined.append(second);
    joined
}

/// `first`, `second` and `third`, one after the other.
pub fn join3(first: &str, second: &str, third: &str) -> (joined: String)
    ensures
        joined@ == first@ + second@ + third@,
{
    let mut joined = first.to_owned();
    joined.append(second);
    joined.append(third);
    joined
}

/// The first `count` characters of a text, or all of it where it is shorter.
pub open spec fn leading(text: Seq<char>, count: nat) -> Seq<char> {
    if text.len() <= count {
        text
    } else {
        text.take(count as int)
    }
}

/// The first `count` characters of `text`.
pub fn first_chars(text: &str, count: usize) -> (head: String)
    ensures
        head@ == leading(text@, count as nat),
{
    let len = text.unicode_len();
    if len <= count {
        text.to_owned()
    } else {
        text.substring_char(0, count).to_owned()
    }
}

/// Whether `text` begins with `prefix`.
pub fn starts_with(text: &str, prefix: &str) -> (yes: bool)
    ensures
        yes == prefix@.is_prefix_of(text@),
{
    let len = text.unicode_len();
    let want = prefix.unicode_len();
    if want > len {
        false
    } else {
        text_eq(text.substring_char(0, want), prefix)
    }
}

/// The number of leading characters of `text` that equal `c`.
pub open spec fn run_length(text: Seq<char>, c: char) -> nat
    decreases text.len(),
{
    if text.len() > 0 && text[0] == c {
        1 + run_length(text.drop_first(), c)
    } else {
        0
    }
}

/// `text` without its leading run of `c`.
pub open spec fn without_leading(text: Seq<char>, c: char) -> Seq<char> {
    text.skip(run_length(text, c) as int)
}

proof fn lemma_run_length_step(text: Seq<char>, c: char, k: nat)
    requires
        k <= text.len(),
        forall|i: int| 0 <= i < k ==> text[i] == c,
        k == text.len() || text[k as int] != c,
    ensures
        run_length(text, c) == k,
    decreases k,
{
    if k > 0 {
        let rest = text.drop_first();
        assert forall|i: int| 0 <= i < k - 1 implies rest[i] == c by {
            assert(rest[i] == text[i + 1]);
        }
        if k < text.len() {
            assert(rest[(k - 1) as int] == text[k as int]);
        }
        lemma_run_length_step(rest, c, (k - 1) as nat);
    }
}

/// `text` without the characters `c` that it begins with.
pub fn strip_leading(text: &str, c: char) -> (rest: &str)
    ensures
        rest@ == without_leading(text@, c),
{
    let len = text.unicode_len();
    let mut k: usize = 0;
    while k < len && text.get_char(k) == c
        invariant
            k <= len,
            len == text@.len(),
            forall|i: int| 0 <= i < k ==> text@[i] == c,
        decreases len - k,
    {
        k = k + 1;
    }
    proof {
        lemma_run_length_step(text@, c, k as nat);
    }
    text.substring_char(k, len)
}

/// The decimal digit of a number below ten.
pub open spec fn digit_char(d: nat) -> char {
    if d == 0 {
        '0'
    } else if d == 1 {
        '1'
    } else if d == 2 {
        '2'
    } else if d == 3 {
        '3'
    } else if d == 4 {
        '4'
    } else if d == 5 {
        '5'
    } else if d == 6 {
        '6'
    } else if d == 7 {
        '7'
    } else if d == 8 {
        '8'
    } else {
        '9'
    }
}

/// A natural number in decimal, without leading zeros.
pub open spec fn decimal(n: nat) -> Seq<char>
    decreases n,
{
    if n < 10 {
        seq![digit_char(n)]
    } else {
        decimal(n / 10).push(digit_char(n % 10))
    }
}

/// An integer in decimal, with a minus sign where it is negative.
pub open spec fn signed_decimal(n: int) -> Seq<char> {
    if n < 0 {
        seq!['-'] + decimal((-n) as nat)
    } else {
        decimal(n as nat)
    }
}

fn digit_text(d: u64) -> (text: &'static str)
    requires
        d < 10,
    ensures
        text@ == seq![digit_char(d as nat)],
{
    proof {
        reveal_strlit("0");
        reveal_strlit("1");
        reveal_strlit("2");
        reveal_strlit("3");
        reveal_strlit("4");
        reveal_strlit("5");
        reveal_strlit("6");
        reveal_strlit("7");
        reveal_strlit("8");
        reveal_strlit("9");
    }
    let text = if d == 0 {
        "0"
    } else if d == 1 {
        "1"
    } else if d == 2 {
        "2"
    } else if d == 3 {
        "3"
    } else if d == 4 {
        "4"
    } else if d == 5 {
        "5"
    } else if d == 6 {
        "6"
    } else if d == 7 {
        "7"
    } else if d == 8 {
        "8"
    } else {
        "9"
    };
    assert(text@ =~= seq![digit_char(d as nat)]);
    text
}

/// `n` written in decimal.
pub fn u64_text(n: u64) -> (text: String)
    ensures
        text@ == decimal(n as nat),
    decreases n,
{
    if n < 10 {
        digit_text(n).to_owned()
    } else {
        let mut text = u64_text(n / 10);
        let last = digit_text(n % 10);
        text.append(last);
        assert(text@ =~= decimal((n / 10) as nat).push(digit_char((n % 10) as nat)));
        text
    }
}

/// `n` written in decimal, with its sign.
pub fn i64_text(n: i64) -> (text: String)
    ensures
        text@ == signed_decimal(n as int),
{
    if n < 0 {
        let magnitude: u64 = ((-(n + 1)) as u64) + 1;
        let digits = u64_text(magnitude);
        proof {
            reveal_strlit("-");
        }
        let text = join("-", digits.as_str());
        assert(text@ =~= seq!['-'] + decimal((-n) as nat));
        text
    } else {
        u64_text(n as u64)
    }
}

/// The lines of a text, as `str::lines` tells them apart: a line ends at a line
/// feed, with or without a carriage return before it, and the ends are not
/// part of the lines.
pub uninterp spec fn lines_of(text: Seq<char>) -> Seq<Seq<char>>;

/// The text of each line of a sequence.
pub open spec fn line_views(lines: Seq<String>) -> Seq<Seq<char>> {
    lines.map_values(|l: String| l@)
}

/// Trusted: `str::lines`. The lines depend on the characters alone.
#[verifier::external_body]
pub(crate) fn split_lines(text: &str) -> (lines: Vec<String>)
    ensures
        line_views(lines@) == lines_of(text@),
{
    text.lines().map(String::from).collect()
}

/// What `str::to_lowercase` makes of a text.
pub uninterp spec fn lowercase(text: Seq<char>) -> Seq<char>;

/// Trusted: `str::to_lowercase`. The result depends on the characters alone.
#[verifier::external_body]
pub(crate) fn to_lowercase(text: &str) -> (lower: String)
    ensures
        lower@ == lowercase(text@),
{
    text.to_lowercase()
}

/// Whether the character `c` occurs in `text`.
pub fn contains_char(text: &str, c: char) -> (found: bool)
    ensures
        found == text@.contains(c),
{
    let mut found = false;
    for x in it: text.chars()
        invariant
            it.seq() == text@,
            found == (exists|k: int| 0 <= k < it.index() && text@[k] == c),
    {
        if x == c {
            found = true;
        }
    }
    found
}

/// The characters that `char::is_whitespace` accepts: the code points with the
/// Unicode property `White_Space`.
pub open spec fn is_space(c: char) -> bool {
    let code = c as u32;
    ||| 0x09 <= code <= 0x0D
    ||| code == 0x20
    ||| code == 0x85
    ||| code == 0xA0
    ||| code == 0x1680
    ||| 0x2000 <= code <= 0x200A
    ||| code == 0x2028
    ||| code == 0x2029
    ||| code == 0x202F
    ||| code == 0x205F
    ||| code == 0x3000
}

/// A text without the white space at its two ends.
pub open spec fn is_trimmed(text: Seq<char>) -> bool {
    text.len() > 0 ==> !is_space(text.first()) && !is_space(text.last())
}

/// Whether `inner` is `outer` with nothing but white space taken from its ends.
pub open spec fn is_trim_of(inner: Seq<char>, outer: Seq<char>) -> bool {
    exists|from: int, to: int|
        {
            &&& 0 <= from <= to <= outer.len()
            &&& inner == #[trigger] outer.subrange(from, to)
            &&& forall|i: int| 0 <= i < from ==> is_space(outer[i])
            &&& forall|i: int| to <= i < outer.len() ==> is_space(outer[i])
            &&& is_trimmed(inner)
        }
}

/// Trusted: `str::trim`. The result is the text between its leading and its
/// trailing white space.
#[verifier::external_body]
pub(crate) fn trim(text: &str) -> (inner: &str)
    ensures
        is_trim_of(inner@, text@),
{
    text.trim()
}

/// Trusted: the type `std::string::FromUtf8Error`, of which nothing is known.
#[verifier::external_type_specification]
#[verifier::external_body]
pub struct ExFromUtf8Error(std::string::FromUtf8Error);

/// Trusted: `String::from_utf8`. It succeeds on the bytes that are valid UTF-8
/// and on no others, and the text is then what the bytes encode.
#[verifier::external_body]
pub(crate) fn decode_utf8_bytes(bytes: Vec<u8>) -> (r: Result<String, std::string::FromUtf8Error>)
    ensures
        match r {
            Ok(text) => vstd::utf8::valid_utf8(bytes@) && text@ == vstd::utf8::decode_utf8(bytes@),
            Err(_) => !vstd::utf8::valid_utf8(bytes@),
        },
{
    String::from_utf8(bytes)
}

/// Trusted: `Display` of `FromUtf8Error`, the reason why bytes are no text.
/// Nothing is claimed of the message.
#[verifier::external_body]
pub(crate) fn utf8_error_text(error: &std::string::FromUtf8Error) -> (message: String) {
    error.to_string()
}

} // verus!
