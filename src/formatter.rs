//! Normalisation of phone numbers to and from the `+1` country-code form.
use vstd::prelude::*;

verus! {

/// An ASCII decimal digit, as `char::is_digit(10)` accepts it.
pub open spec fn is_digit(c: char) -> bool {
    '0' <= c && c <= '9'
}

/// Every character of `s` is a decimal digit (true of the empty text).
pub open spec fn all_digits(s: Seq<char>) -> bool {
    forall|i: int| 0 <= i < s.len() ==> is_digit(#[trigger] s[i])
}

/// The canonical identifier for `s`: text made of digits alone (the empty
/// text too) gets `+1` in front, even where it already starts with `1`;
/// other text without a `+` that starts with `1` and has more than one
/// character gets a `+` in front; anything else is kept as it is.
pub open spec fn phone_number(s: Seq<char>) -> Seq<char> {
    if all_digits(s) {
        seq!['+', '1'] + s
    } else if !s.contains('+') && s.len() > 1 && s[0] == '1' {
        seq!['+'] + s
    } else {
        s
    }
}

/// The number as shown to a person: `+1` or a leading country digit is dropped.
pub open spec fn display_number(s: Seq<char>) -> Seq<char> {
    if s.len() > 2 && s[0] == '+' && s[1] == '1' {
        s.subrange(2, s.len() as int)
    } else if s.len() > 0 && s[0] == '1' && all_digits(s.subrange(1, s.len() as int)) {
        s.subrange(1, s.len() as int)
    } else {
        s
    }
}

fn char_is_digit(c: char) -> (r: bool)
    ensures
        r == is_digit(c),
{
    '0' <= c && c <= '9'
}

/// Whether every character of `s` from position `from` on is a digit.
fn digits_from(s: &str, from: usize) -> (r: bool)
    requires
        from <= s@.len(),
    ensures
        r == all_digits(s@.subrange(from as int, s@.len() as int)),
{
    let n = s.unicode_len();
    let mut i = from;
    while i < n
        invariant
            n == s@.len(),
            from <= i <= n,
            all_digits(s@.subrange(from as int, i as int)),
        decreases n - i,
    {
        if !char_is_digit(s.get_char(i)) {
            assert(s@.subrange(from as int, n as int)[i - from] == s@[i as int]);
            return false;
        }
        assert forall|k: int| 0 <= k < i + 1 - from implies is_digit(
            #[trigger] s@.subrange(from as int, i + 1)[k],
        ) by {
            if k < i - from {
                assert(s@.subrange(from as int, i + 1)[k] == s@.subrange(from as int, i as int)[k]);
            }
        }
        i = i + 1;
    }
    true
}

fn contains_plus(s: &str) -> (r: bool)
    ensures
        r == s@.contains('+'),
{
    let n = s.unicode_len();
    let mut i: usize = 0;
    while i < n
        invariant
            n == s@.len(),
            i <= n,
            forall|k: int| 0 <= k < i ==> s@[k] != '+',
        decreases n - i,
    {
        if s.get_char(i) == '+' {
            return true;
        }
        i = i + 1;
    }
    false
}

/// Format a phone number to a standardized format with country code.
pub fn format_phone_number(number: &str) -> (r: String)
    ensures
        r@ == phone_number(number@),
{
    let n = number.unicode_len();
    if digits_from(number, 0) {
        assert(number@.subrange(0, n as int) == number@);
        let mut r = String::from_str("+1");
        proof {
            reveal_strlit("+1");
        }
        r.append(number);
        assert(r@ =~= seq!['+', '1'] + number@);
        r
    } else if !contains_plus(number) && n > 1 && number.get_char(0) == '1' {
        assert(number@.subrange(0, n as int) == number@);
        let mut r = String::from_str("+");
        proof {
            reveal_strlit("+");
        }
        r.append(number);
        assert(r@ =~= seq!['+'] + number@);
        r
    } else {
        assert(number@.subrange(0, n as int) == number@);
        number.to_owned()
    }
}

/// Format a phone number for display by removing country code.
pub fn format_display_number(number: &str) -> (r: String)
    ensures
        r@ == display_number(number@),
{
    let n = number.unicode_len();
    if n > 2 && number.get_char(0) == '+' && number.get_char(1) == '1' {
        number.substring_char(2, n).to_owned()
    } else if n > 0 && number.get_char(0) == '1' && digits_from(number, 1) {
        number.substring_char(1, n).to_owned()
    } else {
        number.to_owned()
    }
}

} // verus!
