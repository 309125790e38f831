//! Helpers on text: decimal numerals and amounts with a unit, substring
//! search, the splitting of names at a separator, and bytes as text.
//!
//! One function of std is taken on trust here, `String::from_utf8`: its
//! contract below says what its documentation says.

use vstd::prelude::*;
use vstd::string::*;
use vstd::utf8::{decode_utf8, valid_utf8};

verus! {

/// The error of `String::from_utf8`. Nothing here looks into it.
#[verifier::external_type_specification]
#[verifier::external_body]
pub struct ExFromUtf8Error(std::string::FromUtf8Error);

/// `String::from_utf8` gives the text that the bytes encode, and fails where
/// they are no UTF-8.
pub assume_specification[ String::from_utf8 ](vec: Vec<u8>) -> (result: Result<
    String,
    std::string::FromUtf8Error,
>)
    ensures
        valid_utf8(vec@) ==> result is Ok && result->Ok_0@ == decode_utf8(vec@),
        !valid_utf8(vec@) ==> result is Err,
;

/// The text that the bytes encode; the empty text where they are no UTF-8.
pub open spec fn text_of_bytes(bytes: Seq<u8>) -> Seq<char> {
    if valid_utf8(bytes) {
        decode_utf8(bytes)
    } else {
        Seq::empty()
    }
}

/// The text that the bytes encode; the empty text where they are no UTF-8.
pub fn bytes_to_text(bytes: Vec<u8>) -> (text: String)
    ensures
        text@ == text_of_bytes(bytes@),
{
    match String::from_utf8(bytes) {
        Ok(text) => text,
        Err(_) => String::new(),
    }
}

/// The character that writes the decimal digit `d`.
pub open spec fn digit_char(d: int) -> char {
    if d == 0 {
        '0'
    } else if d == 1 {
        '1'
    } else if d == 2 {
        '2'
    } else if d == 3 {
        '3'
    } else if d == 4 {
        '4'
    } else if d == 5 {
        '5'
    } else if d == 6 {
        '6'
    } else if d == 7 {
        '7'
    } else if d == 8 {
        '8'
    } else {
        '9'
    }
}

/// The decimal numeral of `n`: no sign, no leading zero, `"0"` for zero.
pub open spec fn decimal_text(n: nat) -> Seq<char>
    decreases n,
{
    if n < 10 {
        seq![digit_char(n as int)]
    } else {
        decimal_text(n / 10).push(digit_char((n % 10) as int))
    }
}

/// The digit that the character writes, if it writes one.
pub open spec fn digit_value(c: char) -> Option<int> {
    if c == '0' {
        Some(0)
    } else if c == '1' {
        Some(1)
    } else if c == '2' {
        Some(2)
    } else if c == '3' {
        Some(3)
    } else if c == '4' {
        Some(4)
    } else if c == '5' {
        Some(5)
    } else if c == '6' {
        Some(6)
    } else if c == '7' {
        Some(7)
    } else if c == '8' {
        Some(8)
    } else if c == '9' {
        Some(9)
    } else {
        None
    }
}

/// Every character of the text writes a digit.
pub open spec fn all_digits(s: Seq<char>) -> bool {
    forall|i: int| 0 <= i < s.len() ==> digit_value(#[trigger] s[i]) is Some
}

/// The number that a text of digits writes in decimal; leading zeros count
/// for nothing, and the empty text writes zero.
pub open spec fn decimal_value(s: Seq<char>) -> nat
    decreases s.len(),
{
    if s.len() == 0 {
        0
    } else {
        let digit = digit_value(s.last());
        let d: nat = if digit is Some {
            digit->Some_0 as nat
        } else {
            0
        };
        decimal_value(s.drop_last()) * 10 + d
    }
}

/// The number that a text of the form `<digits> <unit>` gives: at least one
/// digit, one space, and the unit, with nothing before, between or after.
pub open spec fn amount_of_text(text: Seq<char>, unit: Seq<char>) -> Option<nat> {
    let digits = text.len() - unit.len() - 1;
    if digits >= 1 && text.subrange(digits + 1, text.len() as int) == unit && text[digits] == ' '
        && all_digits(text.subrange(0, digits)) {
        Some(decimal_value(text.subrange(0, digits)))
    } else {
        None
    }
}

/// `needle` stands in `hay` at position `i`.
pub open spec fn occurs_at(hay: Seq<char>, needle: Seq<char>, i: int) -> bool {
    0 <= i && i + needle.len() <= hay.len() && hay.subrange(i, i + needle.len()) == needle
}

/// `needle` stands somewhere in `hay`. The empty text stands in every text.
pub open spec fn text_contains(hay: Seq<char>, needle: Seq<char>) -> bool {
    exists|i: int| occurs_at(hay, needle, i)
}

/// `k` is where the last segment of `s` begins: nothing from `k` on is the
/// separator, and `k` is the start of `s` or follows a separator.
pub open spec fn starts_last_segment(s: Seq<char>, sep: char, k: int) -> bool {
    &&& 0 <= k <= s.len()
    &&& forall|j: int| k <= j < s.len() ==> s[j] != sep
    &&& (k == 0 || s[k - 1] == sep)
}

/// Where the last segment of `s` begins.
pub open spec fn last_segment_start(s: Seq<char>, sep: char) -> int {
    choose|k: int| starts_last_segment(s, sep, k)
}

/// What follows the last `sep` in `s`; the whole of `s` where it holds no `sep`.
pub open spec fn last_segment_of(s: Seq<char>, sep: char) -> Seq<char> {
    s.subrange(last_segment_start(s, sep), s.len() as int)
}

/// The stem of a file name: the name up to its last `.`, or the whole name
/// where it holds no `.` or only a leading one.
pub open spec fn file_stem_of(name: Seq<char>) -> Seq<char> {
    let k = last_segment_start(name, '.');
    if k <= 1 {
        name
    } else {
        name.subrange(0, k - 1)
    }
}

/// A decimal numeral is made of digits and writes its number.
pub proof fn decimal_text_is_read_back(n: nat)
    ensures
        decimal_text(n).len() >= 1,
        all_digits(decimal_text(n)),
        decimal_value(decimal_text(n)) == n,
    decreases n,
{
    if n < 10 {
        let s = decimal_text(n);
        assert(s.len() == 1);
        assert(s.drop_last().len() == 0);
        assert(decimal_value(s.drop_last()) == 0);
        assert(s.last() == digit_char(n as int));
    } else {
        decimal_text_is_read_back(n / 10);
        let s = decimal_text(n);
        assert(s.drop_last() =~= decimal_text(n / 10));
        assert(s.last() == digit_char((n % 10) as int));
        assert forall|i: int| 0 <= i < s.len() implies digit_value(#[trigger] s[i]) is Some by {
            if i < s.len() - 1 {
                assert(s[i] == decimal_text(n / 10)[i]);
            }
        }
    }
}

/// The number that the first digits of a text write is no larger than the
/// number that the whole text writes.
pub proof fn decimal_value_grows(s: Seq<char>, k: int)
    requires
        0 <= k <= s.len(),
    ensures
        decimal_value(s.subrange(0, k)) <= decimal_value(s),
    decreases s.len() - k,
{
    if k == s.len() {
        assert(s.subrange(0, k) =~= s);
    } else {
        decimal_value_grows(s, k + 1);
        let longer = s.subrange(0, k + 1);
        assert(longer.drop_last() =~= s.subrange(0, k));
    }
}

/// A numeral with a unit behind it is read back as its number.
pub proof fn amount_text_is_read_back(n: nat, unit: Seq<char>)
    ensures
        amount_of_text(decimal_text(n) + seq![' '] + unit, unit) == Some(n),
{
    decimal_text_is_read_back(n);
    let digits = decimal_text(n);
    let text = digits + seq![' '] + unit;
    assert(text.subrange(digits.len() as int + 1, text.len() as int) =~= unit);
    assert(text.subrange(0, digits.len() as int) =~= digits);
    assert(text[digits.len() as int] == ' ');
}

/// Only one position starts the last segment.
pub proof fn last_segment_start_is_unique(s: Seq<char>, sep: char, k: int)
    requires
        starts_last_segment(s, sep, k),
    ensures
        last_segment_start(s, sep) == k,
{
    let c = last_segment_start(s, sep);
    assert(starts_last_segment(s, sep, c));
    if c < k {
        assert(s[k - 1] == sep);
    } else if k < c {
        assert(s[c - 1] == sep);
    }
}

fn digit_str(d: u8) -> (s: &'static str)
    requires
        d < 10,
    ensures
        s@ == seq![digit_char(d as int)],
{
    proof {
        reveal_strlit("0");
        reveal_strlit("1");
        reveal_strlit("2");
        reveal_strlit("3");
        reveal_strlit("4");
        reveal_strlit("5");
        reveal_strlit("6");
        reveal_strlit("7");
        reveal_strlit("8");
        reveal_strlit("9");
    }
    let s = if d == 0 {
        "0"
    } else if d == 1 {
        "1"
    } else if d == 2 {
        "2"
    } else if d == 3 {
        "3"
    } else if d == 4 {
        "4"
    } else if d == 5 {
        "5"
    } else if d == 6 {
        "6"
    } else if d == 7 {
        "7"
    } else if d == 8 {
        "8"
    } else {
        "9"
    };
    assert(s@ =~= seq![digit_char(d as int)]);
    s
}

/// Appends the decimal numeral of `n` to `out`.
pub fn append_decimal(out: &mut String, n: u128)
    ensures
        final(out)@ == old(out)@ + decimal_text(n as nat),
    decreases n,
{
    if n >= 10 {
        append_decimal(out, n / 10);
    }
    let d: u8 = (n % 10) as u8;
    out.append(digit_str(d));
    assert(out@ =~= old(out)@ + decimal_text(n as nat));
}

/// The decimal numeral of `n`.
pub fn decimal_string(n: u128) -> (text: String)
    ensures
        text@ == decimal_text(n as nat),
{
    let mut text = String::new();
    append_decimal(&mut text, n);
    assert(text@ =~= decimal_text(n as nat));
    text
}

fn digit_of(c: char) -> (digit: Option<u8>)
    ensures
        match digit {
            Some(d) => digit_value(c) == Some(d as int) && d < 10,
            None => digit_value(c) is None,
        },
{
    if c == '0' {
        Some(0)
    } else if c == '1' {
        Some(1)
    } else if c == '2' {
        Some(2)
    } else if c == '3' {
        Some(3)
    } else if c == '4' {
        Some(4)
    } else if c == '5' {
        Some(5)
    } else if c == '6' {
        Some(6)
    } else if c == '7' {
        Some(7)
    } else if c == '8' {
        Some(8)
    } else if c == '9' {
        Some(9)
    } else {
        None
    }
}

/// Reads a text of the form `<digits> <unit>`. There is no number where the
/// text has another form, or where its number is too large for 128 bits.
pub fn parse_amount(text: &str, unit: &str) -> (amount: Option<u128>)
    ensures
        match amount {
            Some(n) => amount_of_text(text@, unit@) == Some(n as nat),
            None => amount_of_text(text@, unit@) is None || amount_of_text(text@, unit@)->Some_0
                > u128::MAX,
        },
{
    let chars = chars_of(text);
    let unit_chars = chars_of(unit);
    if chars.len() < unit_chars.len() || chars.len() - unit_chars.len() < 2 {
        return None;
    }
    let digits: usize = chars.len() - unit_chars.len() - 1;
    if chars[digits] != ' ' {
        return None;
    }
    if !matches_at(&chars, &unit_chars, digits + 1) {
        return None;
    }
    let ghost numeral = text@.subrange(0, digits as int);
    let mut value: u128 = 0;
    let mut i: usize = 0;
    while i < digits
        invariant
            i <= digits,
            digits < chars.len(),
            chars@ == text@,
            digits as int == text@.len() - unit@.len() - 1,
            numeral == text@.subrange(0, digits as int),
            all_digits(numeral.subrange(0, i as int)),
            value == decimal_value(numeral.subrange(0, i as int)),
        decreases digits - i,
    {
        let ghost read = numeral.subrange(0, i as int);
        let ghost longer = numeral.subrange(0, i + 1);
        proof {
            assert(longer.drop_last() =~= read);
            assert(longer.last() == chars@[i as int]);
        }
        let d = match digit_of(chars[i]) {
            Some(d) => d,
            None => {
                assert(digit_value(numeral[i as int]) is None);
                assert(!all_digits(numeral));
                return None;
            },
        };
        proof {
            assert forall|k: int| 0 <= k < longer.len() implies digit_value(#[trigger] longer[k])
                is Some by {
                if k < i {
                    assert(longer[k] == read[k]);
                }
            }
        }
        let next = match value.checked_mul(10) {
            Some(tenfold) => tenfold.checked_add(d as u128),
            None => None,
        };
        match next {
            Some(next) => {
                value = next;
            },
            None => {
                proof {
                    assert(decimal_value(longer) > u128::MAX);
                    decimal_value_grows(numeral, i + 1);
                }
                return None;
            },
        }
        i += 1;
    }
    proof {
        assert(numeral.subrange(0, digits as int) =~= numeral);
    }
    Some(value)
}

/// The characters of `s`, one by one.
pub fn chars_of(s: &str) -> (chars: Vec<char>)
    ensures
        chars@ == s@,
{
    let n = s.unicode_len();
    let mut chars: Vec<char> = Vec::new();
    let mut i: usize = 0;
    while i < n
        invariant
            i <= n,
            n == s@.len(),
            chars@ == s@.subrange(0, i as int),
        decreases n - i,
    {
        chars.push(s.get_char(i));
        i += 1;
        assert(chars@ =~= s@.subrange(0, i as int));
    }
    assert(chars@ =~= s@);
    chars
}

fn matches_at(hay: &Vec<char>, needle: &Vec<char>, i: usize) -> (found: bool)
    requires
        i + needle.len() <= hay.len(),
    ensures
        found == occurs_at(hay@, needle@, i as int),
{
    let mut j: usize = 0;
    while j < needle.len()
        invariant
            j <= needle.len(),
            i + needle.len() <= hay.len(),
            forall|k: int| 0 <= k < j ==> hay@[i + k] == needle@[k],
        decreases needle.len() - j,
    {
        if hay[i + j] != needle[j] {
            assert(hay@.subrange(i as int, i + needle.len())[j as int] != needle@[j as int]);
            return false;
        }
        j += 1;
    }
    assert(hay@.subrange(i as int, i + needle.len()) =~= needle@);
    true
}

/// Says whether `needle` stands somewhere in `hay`.
pub fn contains(hay: &str, needle: &str) -> (found: bool)
    ensures
        found == text_contains(hay@, needle@),
{
    let h = chars_of(hay);
    let n = chars_of(needle);
    if n.len() == 0 {
        assert(h@.subrange(0, 0) =~= n@);
        assert(occurs_at(h@, n@, 0));
        return true;
    }
    if n.len() > h.len() {
        return false;
    }
    let count: usize = h.len() - n.len() + 1;
    let mut i: usize = 0;
    while i < count
        invariant
            i <= count,
            count == h.len() - n.len() + 1,
            n.len() <= h.len(),
            h@ == hay@,
            n@ == needle@,
            forall|k: int| 0 <= k < i ==> !occurs_at(h@, n@, k),
        decreases count - i,
    {
        if matches_at(&h, &n, i) {
            return true;
        }
        i += 1;
    }
    false
}

/// Finds where the last segment of `chars` begins.
fn find_last_segment(chars: &Vec<char>, sep: char) -> (k: usize)
    ensures
        k == last_segment_start(chars@, sep),
        starts_last_segment(chars@, sep, k as int),
{
    let mut k: usize = chars.len();
    while k > 0
        invariant
            k <= chars.len(),
            forall|j: int| k <= j < chars.len() ==> chars@[j] != sep,
        decreases k,
    {
        if chars[k - 1] == sep {
            proof {
                last_segment_start_is_unique(chars@, sep, k as int);
            }
            return k;
        }
        k -= 1;
    }
    proof {
        last_segment_start_is_unique(chars@, sep, 0);
    }
    k
}

/// What follows the last `sep` in `s`; the whole of `s` where it holds no `sep`.
pub fn last_segment(s: &str, sep: char) -> (segment: String)
    ensures
        segment@ == last_segment_of(s@, sep),
{
    let chars = chars_of(s);
    let k = find_last_segment(&chars, sep);
    s.substring_char(k, chars.len()).to_owned()
}

/// The stem of a file name, as `std::path::Path::file_stem` gives it for the
/// name of a directory entry.
pub fn file_stem(name: &str) -> (stem: String)
    ensures
        stem@ == file_stem_of(name@),
{
    let chars = chars_of(name);
    let k = find_last_segment(&chars, '.');
    if k <= 1 {
        assert(name@.subrange(0, name@.len() as int) =~= name@);
        name.substring_char(0, chars.len()).to_owned()
    } else {
        name.substring_char(0, k - 1).to_owned()
    }
}

} // verus!
