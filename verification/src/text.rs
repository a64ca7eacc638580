//! Text helpers: trimming, decimal numbers and views of optional and listed strings.
use vstd::prelude::*;
use vstd::string::*;

verus! {

/// The text held by an optional string.
pub open spec fn opt_text(text: Option<String>) -> Option<Seq<char>> {
    match text {
        Some(s) => Some(s@),
        None => None,
    }
}

/// The texts held by a list of strings.
pub open spec fn texts(list: Seq<String>) -> Seq<Seq<char>> {
    list.map_values(|s: String| s@)
}

/// Whether a character has the Unicode `White_Space` property.
pub open spec fn white_space(c: char) -> bool {
    let n = c as u32;
    ||| 0x9 <= n <= 0xD
    ||| n == 0x20
    ||| n == 0x85
    ||| n == 0xA0
    ||| n == 0x1680
    ||| 0x2000 <= n <= 0x200A
    ||| n == 0x2028
    ||| n == 0x2029
    ||| n == 0x202F
    ||| n == 0x205F
    ||| n == 0x3000
}

/// `inner` is `outer` without its leading and trailing white space.
pub open spec fn trims_to(outer: Seq<char>, inner: Seq<char>) -> bool {
    exists|start: int, end: int| #[trigger] trims_between(outer, inner, start, end)
}

/// `inner` is the part of `outer` from `start` to `end`, it neither starts nor ends with white
/// space, and everything around it is white space.
pub open spec fn trims_between(outer: Seq<char>, inner: Seq<char>, start: int, end: int) -> bool {
    &&& 0 <= start <= end <= outer.len()
    &&& inner == outer.subrange(start, end)
    &&& forall|i: int| 0 <= i < start ==> white_space(#[trigger] outer[i])
    &&& forall|i: int| end <= i < outer.len() ==> white_space(#[trigger] outer[i])
    &&& inner.len() > 0 ==> !white_space(inner.first()) && !white_space(inner.last())
}

/// The text without its leading and trailing white space.
pub open spec fn trimmed(text: Seq<char>) -> Seq<char> {
    choose|inner: Seq<char>| trims_to(text, inner)
}

/// The text holds nothing but white space.
pub open spec fn blank(text: Seq<char>) -> bool {
    forall|i: int| 0 <= i < text.len() ==> white_space(#[trigger] text[i])
}

/// `str::trim`: the text without leading and trailing white space, where white space is what
/// `char::is_whitespace` accepts, the characters with the Unicode property `White_Space`.
#[verifier::external_body]
pub(crate) fn trim(text: &str) -> (r: &str)
    ensures
        trims_to(text@, r@),
{
    text.trim()
}

/// The digit character for a number below sixteen.
pub open spec fn digit(n: nat) -> char {
    if n < 10 {
        (('0' as nat) + n) as char
    } else {
        (('a' as nat) + n - 10) as char
    }
}

/// The digit for a number below sixteen.
fn digit_text(n: u8) -> (r: &'static str)
    requires
        n < 16,
    ensures
        r@ == seq![digit(n as nat)],
{
    let r: &'static str = match n {
        0 => "0",
        1 => "1",
        2 => "2",
        3 => "3",
        4 => "4",
        5 => "5",
        6 => "6",
        7 => "7",
        8 => "8",
        9 => "9",
        10 => "a",
        11 => "b",
        12 => "c",
        13 => "d",
        14 => "e",
        _ => "f",
    };
    proof {
        reveal_strlit("0");
        reveal_strlit("1");
        reveal_strlit("2");
        reveal_strlit("3");
        reveal_strlit("4");
        reveal_strlit("5");
        reveal_strlit("6");
        reveal_strlit("7");
        reveal_strlit("8");
        reveal_strlit("9");
        reveal_strlit("a");
        reveal_strlit("b");
        reveal_strlit("c");
        reveal_strlit("d");
        reveal_strlit("e");
        reveal_strlit("f");
        assert(r@ =~= seq![digit(n as nat)]);
    }
    r
}

/// The decimal digits of a number, without leading zeros.
pub open spec fn decimal(n: nat) -> Seq<char>
    decreases n,
{
    if n < 10 {
        seq![digit(n)]
    } else {
        decimal(n / 10).push(digit(n % 10))
    }
}

/// The number in decimal digits.
pub(crate) fn decimal_text(n: u32) -> (r: String)
    ensures
        r@ == decimal(n as nat),
    decreases n,
{
    if n < 10 {
        digit_text(n as u8).to_owned()
    } else {
        let mut text: String = decimal_text(n / 10);
        text.append(digit_text((n % 10) as u8));
        assert(text@ =~= decimal(n as nat));
        text
    }
}

/// The bytes in hexadecimal digits, two to a byte.
pub open spec fn hex(bytes: Seq<u8>) -> Seq<char>
    decreases bytes.len(),
{
    if bytes.len() == 0 {
        seq![]
    } else {
        hex(bytes.drop_last()) + seq![
            digit((bytes.last() / 16) as nat),
            digit((bytes.last() % 16) as nat),
        ]
    }
}

/// The bytes in hexadecimal digits.
pub(crate) fn hex_text(bytes: &Vec<u8>) -> (r: String)
    ensures
        r@ == hex(bytes@),
{
    let mut text: String = "".to_owned();
    let mut i: usize = 0;
    proof {
        reveal_strlit("");
        assert(text@ =~= hex(bytes@.take(0)));
    }
    while i < bytes.len()
        invariant
            i <= bytes.len(),
            text@ == hex(bytes@.take(i as int)),
        decreases bytes.len() - i,
    {
        text.append(digit_text(bytes[i] / 16));
        text.append(digit_text(bytes[i] % 16));
        i = i + 1;
        assert(bytes@.take(i as int).drop_last() =~= bytes@.take(i - 1));
        assert(text@ =~= hex(bytes@.take(i as int)));
    }
    assert(bytes@.take(i as int) =~= bytes@);
    text
}

/// Nothing is left of a text exactly where it holds nothing but white space.
pub proof fn blank_trims_to_nothing(outer: Seq<char>, inner: Seq<char>)
    requires
        trims_to(outer, inner),
    ensures
        inner.len() == 0 <==> blank(outer),
{
    let (start, end) = choose|start: int, end: int| #[trigger]
        trims_between(outer, inner, start, end);
    if start < end {
        assert(inner.first() == outer[start]);
    }
}

/// A copy of the text without its leading and trailing white space.
pub(crate) fn trimmed_copy(text: &str) -> (r: String)
    ensures
        r@ == trimmed(text@),
        r@.len() == 0 <==> blank(text@),
{
    let inner: &str = trim(text);
    proof {
        trim_is_unique(text@, inner@, trimmed(text@));
        blank_trims_to_nothing(text@, inner@);
    }
    inner.to_owned()
}

/// A text put together from two parts.
pub(crate) fn joined(first: &str, second: &str) -> (r: String)
    ensures
        r@ == first@ + second@,
{
    let mut out: String = first.to_owned();
    out.append(second);
    out
}

/// A copy of an optional string.
pub(crate) fn copy_opt(text: &Option<String>) -> (r: Option<String>)
    ensures
        opt_text(r) == opt_text(*text),
{
    match text {
        Some(s) => Some(s.clone()),
        None => None,
    }
}

/// A copy of a list of strings.
pub(crate) fn copy_list(list: &Vec<String>) -> (r: Vec<String>)
    ensures
        texts(r@) == texts(list@),
{
    let mut out: Vec<String> = Vec::new();
    let mut i: usize = 0;
    while i < list.len()
        invariant
            i <= list.len(),
            out@.len() == i,
            forall|k: int| 0 <= k < i ==> (#[trigger] out@[k])@ == list@[k]@,
        decreases list.len() - i,
    {
        out.push(list[i].clone());
        i = i + 1;
    }
    assert(texts(out@) =~= texts(list@));
    out
}

/// Whether a list of strings holds the given text.
pub(crate) fn contains_text(list: &Vec<String>, text: &String) -> (r: bool)
    ensures
        r == texts(list@).contains(text@),
{
    let mut i: usize = 0;
    while i < list.len()
        invariant
            i <= list.len(),
            forall|k: int| 0 <= k < i ==> texts(list@)[k] != text@,
        decreases list.len() - i,
    {
        if list[i] == *text {
            assert(texts(list@)[i as int] == text@);
            return true;
        }
        i = i + 1;
    }
    false
}

/// Trimming leaves one result only.
pub proof fn trim_is_unique(outer: Seq<char>, first: Seq<char>, second: Seq<char>)
    requires
        trims_to(outer, first),
        trims_to(outer, second),
    ensures
        first == second,
{
    let (a, b) = choose|start: int, end: int| #[trigger] trims_between(outer, first, start, end);
    let (c, d) = choose|start: int, end: int| #[trigger] trims_between(outer, second, start, end);
    if a < b {
        assert(first.first() == outer[a]);
        assert(first.last() == outer[b - 1]);
    }
    if c < d {
        assert(second.first() == outer[c]);
        assert(second.last() == outer[d - 1]);
    }
    assert(first =~= second);
}

/// The number that a digit stands for.
pub open spec fn digit_value(c: char) -> int {
    if '0' <= c <= '9' {
        c as int - '0' as int
    } else {
        c as int - 'a' as int + 10
    }
}

/// The number that decimal digits stand for.
pub open spec fn decimal_value(digits: Seq<char>) -> int
    decreases digits.len(),
{
    if digits.len() == 0 {
        0
    } else {
        10 * decimal_value(digits.drop_last()) + digit_value(digits.last())
    }
}

/// A number below sixteen has a digit of its own, which stands for it.
pub proof fn digit_stands_for_its_number(n: nat)
    requires
        n < 16,
    ensures
        digit_value(digit(n)) == n,
        n < 10 ==> '0' <= digit(n) <= '9',
        n >= 10 ==> 'a' <= digit(n) <= 'f',
{
}

/// The decimal digits of a number stand for that number, and there is no zero in front.
pub proof fn decimal_stands_for_its_number(n: nat)
    ensures
        decimal_value(decimal(n)) == n,
        decimal(n).len() > 0,
        forall|i: int| 0 <= i < decimal(n).len() ==> '0' <= #[trigger] decimal(n)[i] <= '9',
        n > 0 ==> decimal(n)[0] != '0',
    decreases n,
{
    if n < 10 {
        digit_stands_for_its_number(n);
        reveal_with_fuel(decimal_value, 2);
        assert(decimal(n).drop_last() =~= seq![]);
    } else {
        decimal_stands_for_its_number(n / 10);
        digit_stands_for_its_number(n % 10);
        assert(decimal(n).drop_last() =~= decimal(n / 10));
    }
}

/// Each byte is shown by two hexadecimal digits, the high one first.
pub proof fn hex_shows_every_byte(bytes: Seq<u8>, i: int)
    requires
        0 <= i < bytes.len(),
    ensures
        hex(bytes).len() == 2 * bytes.len(),
        16 * digit_value(hex(bytes)[2 * i]) + digit_value(hex(bytes)[2 * i + 1]) == bytes[i],
    decreases bytes.len(),
{
    let before = bytes.drop_last();
    digit_stands_for_its_number((bytes.last() / 16) as nat);
    digit_stands_for_its_number((bytes.last() % 16) as nat);
    if i < before.len() {
        hex_shows_every_byte(before, i);
        assert(before[i] == bytes[i]);
    } else if before.len() > 0 {
        hex_shows_every_byte(before, 0);
    }
}

/// A text that has been trimmed stays as it is when trimmed again.
pub proof fn trimming_again_changes_nothing(text: Seq<char>, inner: Seq<char>)
    requires
        trims_to(text, inner),
    ensures
        trimmed(text) == inner,
        trimmed(inner) == inner,
{
    trim_is_unique(text, inner, trimmed(text));
    let (start, end) = choose|start: int, end: int| #[trigger]
        trims_between(text, inner, start, end);
    assert(inner.subrange(0, inner.len() as int) =~= inner);
    assert(trims_between(inner, inner, 0, inner.len() as int));
    trim_is_unique(inner, inner, trimmed(inner));
}

/// The views of optional and listed texts hold the texts, each at its place.
pub proof fn values_hold_the_texts(text: Option<String>, list: Seq<String>, i: int)
    ensures
        text is None ==> opt_text(text) is None,
        text matches Some(s) ==> opt_text(text) == Some(s@),
        texts(list).len() == list.len(),
        0 <= i < list.len() ==> texts(list)[i] == list[i]@,
{
}

}
