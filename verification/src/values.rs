//! The text of the three kinds of value that are not free text: flags,
//! counts and ratios.
//!
//! A flag is `true` or `false`. A count is an unsigned decimal number that
//! fits in 32 bits, with an optional `+` before it. A ratio is kept as the
//! text of a decimal number: the library decides whether a text is one, and
//! leaves its numeric value to the caller.
use crate::text::{is_space, lacks, lemma_trimmed_already, spells, to_chars, trimmed};
use vstd::prelude::*;

verus! {

/// Whether `c` is one of the digits `0` to `9`.
pub open spec fn is_digit(c: char) -> bool {
    0x30 <= c as u32 <= 0x39
}

/// The number that the digit `c` stands for.
pub open spec fn digit_value(c: char) -> nat {
    (c as u32 - 0x30) as nat
}

/// The digit that stands for `d`, which is less than ten.
pub open spec fn digit_char(d: nat) -> char {
    if d == 0 {
        '0'
    } else if d == 1 {
        '1'
    } else if d == 2 {
        '2'
    } else if d == 3 {
        '3'
    } else if d == 4 {
        '4'
    } else if d == 5 {
        '5'
    } else if d == 6 {
        '6'
    } else if d == 7 {
        '7'
    } else if d == 8 {
        '8'
    } else {
        '9'
    }
}

/// Whether `s` holds digits only.
pub open spec fn all_digits(s: Seq<char>) -> bool {
    forall|i: int| 0 <= i < s.len() ==> is_digit(#[trigger] s[i])
}

/// The number that the digits `s` spell in base ten.
pub open spec fn decimal_value(s: Seq<char>) -> nat
    decreases s.len(),
{
    if s.len() == 0 {
        0
    } else {
        10 * decimal_value(s.drop_last()) + digit_value(s.last())
    }
}

/// The digits of `n` in base ten, without leading zeros.
pub open spec fn decimal_text(n: nat) -> Seq<char>
    decreases n,
{
    if n < 10 {
        seq![digit_char(n)]
    } else {
        decimal_text(n / 10).push(digit_char(n % 10))
    }
}

/// The flag that `s` spells, if it spells one: exactly `true` or `false`.
pub open spec fn flag_of(s: Seq<char>) -> Option<bool> {
    if s == "true"@ {
        Some(true)
    } else if s == "false"@ {
        Some(false)
    } else {
        None
    }
}

/// The text of a flag.
pub open spec fn flag_text(b: bool) -> Seq<char> {
    if b {
        "true"@
    } else {
        "false"@
    }
}

/// The count that `s` spells, if it spells one: an optional `+`, then at
/// least one digit, the whole no greater than `u32::MAX`. Leading zeros are
/// accepted; a `-`, white space or any other character is not.
pub open spec fn count_of(s: Seq<char>) -> Option<u32> {
    let digits = if s.len() > 0 && s[0] == '+' {
        s.skip(1)
    } else {
        s
    };
    if digits.len() > 0 && all_digits(digits) && decimal_value(digits) <= u32::MAX {
        Some(decimal_value(digits) as u32)
    } else {
        None
    }
}

/// Where the run of digits that starts at `i` ends.
pub open spec fn digits_end(s: Seq<char>, i: int) -> int
    decreases s.len() - i,
{
    if 0 <= i < s.len() && is_digit(s[i]) {
        digits_end(s, i + 1)
    } else {
        i
    }
}

/// The code of `c`, with an upper-case ASCII letter taken as its lower-case
/// form.
pub open spec fn lower_code(c: char) -> u32 {
    if 0x41 <= c as u32 <= 0x5a {
        (c as u32 + 0x20) as u32
    } else {
        c as u32
    }
}

/// Whether `s` spells the lower-case `word`, in upper or lower case.
pub open spec fn spells_ignoring_case(s: Seq<char>, word: Seq<char>) -> bool {
    s.len() == word.len() && forall|i: int|
        0 <= i < s.len() ==> lower_code(#[trigger] s[i]) == word[i] as u32
}

/// How many characters of sign stand at `i`: one for a `+` or `-`, else none.
pub open spec fn sign_len(s: Seq<char>, i: int) -> int {
    if 0 <= i < s.len() && (s[i] == '+' || s[i] == '-') {
        1
    } else {
        0
    }
}

/// Whether an exponent stands at `j` and runs to the end of `s`: an `e` or
/// `E`, an optional sign, and at least one digit.
pub open spec fn is_exponent_at(s: Seq<char>, j: int) -> bool {
    let k = j + 1 + sign_len(s, j + 1);
    0 <= j < s.len() && (s[j] == 'e' || s[j] == 'E') && k < s.len() && digits_end(s, k)
        == s.len()
}

/// Whether a decimal number stands at `a` and runs to the end of `s`: digits
/// with at most one `.` among them, at least one digit in all, and an
/// optional exponent.
pub open spec fn is_number_at(s: Seq<char>, a: int) -> bool {
    let i = digits_end(s, a);
    let dot = i < s.len() && s[i] == '.';
    let j = if dot {
        digits_end(s, i + 1)
    } else {
        i
    };
    let digits = if dot {
        j - a - 1
    } else {
        j - a
    };
    digits >= 1 && (j == s.len() || is_exponent_at(s, j))
}

/// Whether `s` is the text of a ratio: an optional sign, then `inf`,
/// `infinity` or `nan` in any case, or a decimal number. This is the grammar
/// by which the standard library reads a floating-point number.
pub open spec fn is_ratio_text(s: Seq<char>) -> bool {
    let a = sign_len(s, 0);
    let body = s.skip(a);
    spells_ignoring_case(body, "inf"@) || spells_ignoring_case(body, "infinity"@)
        || spells_ignoring_case(body, "nan"@) || is_number_at(s, a)
}

/// A prefix of a run of digits spells no more than the whole run.
pub proof fn lemma_decimal_value_prefix(s: Seq<char>, k: int)
    requires
        0 <= k <= s.len(),
    ensures
        decimal_value(s.take(k)) <= decimal_value(s),
    decreases s.len() - k,
{
    if k == s.len() {
        assert(s.take(k) =~= s);
    } else {
        lemma_decimal_value_prefix(s.drop_last(), k);
        assert(s.drop_last().take(k) =~= s.take(k));
    }
}

/// The digits of a number are digits.
pub proof fn lemma_decimal_text_digits(n: nat)
    ensures
        forall|i: int| 0 <= i < decimal_text(n).len() ==> is_digit(#[trigger] decimal_text(n)[i]),
    decreases n,
{
    let digits = decimal_text(n);
    if n >= 10 {
        lemma_decimal_text_digits(n / 10);
        assert forall|i: int| 0 <= i < digits.len() implies is_digit(#[trigger] digits[i]) by {
            if i < digits.len() - 1 {
                assert(digits[i] == decimal_text(n / 10)[i]);
            }
        }
    } else {
        assert(digits[0] == digit_char(n));
    }
}

/// The digits that a number is written as spell the number.
pub proof fn lemma_decimal_text_value(n: nat)
    ensures
        decimal_value(decimal_text(n)) == n,
    decreases n,
{
    let digits = decimal_text(n);
    if n >= 10 {
        lemma_decimal_text_value(n / 10);
        assert(digits.drop_last() =~= decimal_text(n / 10));
        assert(digits.last() == digit_char(n % 10));
    } else {
        assert(digits.drop_last() =~= Seq::<char>::empty());
        assert(decimal_value(Seq::<char>::empty()) == 0);
        assert(digits.last() == digit_char(n));
    }
}

/// The run of digits that starts at `i` holds digits only, and ends before
/// what is no digit.
pub proof fn lemma_digits_end(s: Seq<char>, i: int)
    requires
        0 <= i <= s.len(),
    ensures
        i <= digits_end(s, i) <= s.len(),
        forall|k: int| i <= k < digits_end(s, i) ==> is_digit(#[trigger] s[k]),
    decreases s.len() - i,
{
    if i < s.len() && is_digit(s[i]) {
        lemma_digits_end(s, i + 1);
    }
}

/// The text of a ratio has no white space at either end.
pub proof fn lemma_ratio_text_trimmed(s: Seq<char>)
    requires
        is_ratio_text(s),
    ensures
        trimmed(s) == s,
{
    reveal_strlit("inf");
    reveal_strlit("infinity");
    reveal_strlit("nan");
    let a = sign_len(s, 0);
    let body = s.skip(a);
    if spells_ignoring_case(body, "inf"@) || spells_ignoring_case(body, "infinity"@)
        || spells_ignoring_case(body, "nan"@) {
        assert(body[0] == s[a]);
        assert(body.last() == s.last());
        assert(!is_space(body[0]));
        assert(!is_space(body.last()));
    } else {
        lemma_digits_end(s, a);
        let i = digits_end(s, a);
        let dot = i < s.len() && s[i] == '.';
        if dot {
            lemma_digits_end(s, i + 1);
        }
        let j = if dot {
            digits_end(s, i + 1)
        } else {
            i
        };
        if j < s.len() {
            let k = j + 1 + sign_len(s, j + 1);
            lemma_digits_end(s, k);
            assert(is_digit(s[s.len() - 1]));
        } else if dot && j == i + 1 {
            assert(s.last() == '.');
        } else {
            assert(is_digit(s[s.len() - 1]));
        }
        if a == 0 {
            if i == 0 {
                assert(s[0] == '.');
            } else {
                assert(is_digit(s[0]));
            }
        }
    }
    lemma_trimmed_already(s);
}

/// The text of a ratio holds no `=` and no line feed.
pub proof fn lemma_ratio_text_plain(s: Seq<char>)
    requires
        is_ratio_text(s),
    ensures
        lacks(s, '='),
        lacks(s, '\n'),
{
    reveal_strlit("inf");
    reveal_strlit("infinity");
    reveal_strlit("nan");
    let a = sign_len(s, 0);
    let body = s.skip(a);
    if spells_ignoring_case(body, "inf"@) || spells_ignoring_case(body, "infinity"@)
        || spells_ignoring_case(body, "nan"@) {
        assert forall|k: int| 0 <= k < s.len() implies s[k] != '=' && s[k] != '\n' by {
            if k >= a {
                assert(body[k - a] == s[k]);
                assert(lower_code(body[k - a]) >= 0x61);
            }
        }
    } else {
        lemma_digits_end(s, a);
        let i = digits_end(s, a);
        let dot = i < s.len() && s[i] == '.';
        if dot {
            lemma_digits_end(s, i + 1);
        }
        let j = if dot {
            digits_end(s, i + 1)
        } else {
            i
        };
        if j < s.len() {
            let k = j + 1 + sign_len(s, j + 1);
            lemma_digits_end(s, k);
        }
    }
}

/// Whether `c` is a digit.
pub fn is_decimal_digit(c: char) -> (b: bool)
    ensures
        b == is_digit(c),
{
    let n: u32 = c as u32;
    0x30 <= n && n <= 0x39
}

/// The flag that `s` spells, if it spells one.
pub fn parse_flag(s: &str) -> (r: Option<bool>)
    ensures
        r == flag_of(s@),
{
    let chars = to_chars(s);
    if spells(&chars, "true") {
        Some(true)
    } else if spells(&chars, "false") {
        Some(false)
    } else {
        None
    }
}

/// The count that `s` spells, if it spells one.
pub fn parse_count(s: &str) -> (r: Option<u32>)
    ensures
        r == count_of(s@),
{
    let chars = to_chars(s);
    let n = chars.len();
    let start: usize = if n > 0 && chars[0] == '+' {
        1
    } else {
        0
    };
    let ghost digits = chars@.skip(start as int);
    proof {
        assert(chars@.skip(0) =~= chars@);
        assert(digits.len() == n - start);
    }
    if start == n {
        return None;
    }
    let mut value: u64 = 0;
    let mut i: usize = start;
    while i < n
        invariant
            start <= i <= n,
            n == chars.len(),
            digits == chars@.skip(start as int),
            digits.len() > 0,
            count_of(s@) == if all_digits(digits) && decimal_value(digits) <= u32::MAX {
                Some(decimal_value(digits) as u32)
            } else {
                None
            },
            all_digits(digits.take(i - start)),
            value == decimal_value(digits.take(i - start)),
            value <= u32::MAX,
        decreases n - i,
    {
        let c = chars[i];
        let ghost k = i - start;
        assert(digits[k] == c);
        if !is_decimal_digit(c) {
            return None;
        }
        let next: u64 = value * 10 + (c as u32 - 0x30) as u64;
        proof {
            assert(digits.take(k + 1).drop_last() =~= digits.take(k));
            assert(digits.take(k + 1).last() == c);
            assert(next == decimal_value(digits.take(k + 1)));
            assert forall|m: int| 0 <= m < k + 1 implies is_digit(
                #[trigger] digits.take(k + 1)[m],
            ) by {
                if m < k {
                    assert(digits.take(k)[m] == digits.take(k + 1)[m]);
                }
            }
        }
        if next > 0xffff_ffff {
            proof {
                lemma_decimal_value_prefix(digits, k + 1);
            }
            return None;
        }
        value = next;
        i = i + 1;
    }
    proof {
        assert(digits.take(n - start) =~= digits);
    }
    Some(value as u32)
}

/// Where the run of digits that starts at `i` ends.
pub fn skip_digits(chars: &Vec<char>, i: usize) -> (j: usize)
    requires
        i <= chars.len(),
    ensures
        i <= j <= chars.len(),
        j == digits_end(chars@, i as int),
{
    let mut j: usize = i;
    while j < chars.len()
        invariant
            i <= j <= chars.len(),
            digits_end(chars@, i as int) == digits_end(chars@, j as int),
        ensures
            i <= j <= chars.len(),
            j == digits_end(chars@, i as int),
        decreases chars.len() - j,
    {
        if !is_decimal_digit(chars[j]) {
            break ;
        }
        j = j + 1;
    }
    j
}

/// Whether the characters of `chars` from `from` on spell the lower-case
/// `word`, in upper or lower case.
pub fn spells_from(chars: &Vec<char>, from: usize, word: &str) -> (b: bool)
    requires
        from <= chars.len(),
    ensures
        b == spells_ignoring_case(chars@.skip(from as int), word@),
{
    let letters = to_chars(word);
    let n = letters.len();
    if chars.len() - from != n {
        return false;
    }
    let ghost body = chars@.skip(from as int);
    let mut i: usize = 0;
    while i < n
        invariant
            i <= n,
            n == letters.len(),
            from + n == chars.len(),
            letters@ == word@,
            body == chars@.skip(from as int),
            forall|k: int| 0 <= k < i ==> lower_code(#[trigger] body[k]) == word@[k] as u32,
        decreases n - i,
    {
        let c: u32 = chars[from + i] as u32;
        let lowered: u32 = if 0x41 <= c && c <= 0x5a {
            c + 0x20
        } else {
            c
        };
        assert(body[i as int] == chars@[from + i]);
        if lowered != letters[i] as u32 {
            return false;
        }
        i = i + 1;
    }
    true
}

/// Whether `s` is the text of a ratio.
pub fn is_ratio(s: &str) -> (b: bool)
    ensures
        b == is_ratio_text(s@),
{
    let chars = to_chars(s);
    let n = chars.len();
    let a: usize = if n > 0 && (chars[0] == '+' || chars[0] == '-') {
        1
    } else {
        0
    };
    if spells_from(&chars, a, "inf") || spells_from(&chars, a, "infinity") || spells_from(
        &chars,
        a,
        "nan",
    ) {
        return true;
    }
    let i = skip_digits(&chars, a);
    let dot = i < n && chars[i] == '.';
    let j = if dot {
        skip_digits(&chars, i + 1)
    } else {
        i
    };
    let digits = if dot {
        j - a - 1
    } else {
        j - a
    };
    if digits < 1 {
        return false;
    }
    if j == n {
        return true;
    }
    if chars[j] != 'e' && chars[j] != 'E' {
        return false;
    }
    let k: usize = if j + 1 < n && (chars[j + 1] == '+' || chars[j + 1] == '-') {
        j + 2
    } else {
        j + 1
    };
    if k >= n {
        return false;
    }
    skip_digits(&chars, k) == n
}

/// The flag that `raw` spells, or `fallback` where it spells none.
pub fn flag_or(raw: &str, fallback: bool) -> (b: bool)
    ensures
        b == match flag_of(raw@) {
            Some(flag) => flag,
            None => fallback,
        },
{
    match parse_flag(raw) {
        Some(flag) => flag,
        None => fallback,
    }
}

/// The count that `raw` spells, or `fallback` where it spells none.
pub fn count_or(raw: &str, fallback: u32) -> (n: u32)
    ensures
        n == match count_of(raw@) {
            Some(count) => count,
            None => fallback,
        },
{
    match parse_count(raw) {
        Some(count) => count,
        None => fallback,
    }
}

/// The text `raw` where it is the text of a ratio, and else `fallback`.
pub fn ratio_or(raw: &str, fallback: &str) -> (s: String)
    ensures
        s@ == if is_ratio_text(raw@) {
            raw@
        } else {
            fallback@
        },
{
    if is_ratio(raw) {
        raw.to_owned()
    } else {
        fallback.to_owned()
    }
}

/// The text of a flag.
pub fn flag_str(b: bool) -> (s: &'static str)
    ensures
        s@ == flag_text(b),
{
    if b {
        "true"
    } else {
        "false"
    }
}

/// The text of one digit.
pub fn digit_str(d: u32) -> (s: &'static str)
    requires
        d < 10,
    ensures
        s@ == seq![digit_char(d as nat)],
{
    proof {
        reveal_strlit("0");
        reveal_strlit("1");
        reveal_strlit("2");
        reveal_strlit("3");
        reveal_strlit("4");
        reveal_strlit("5");
        reveal_strlit("6");
        reveal_strlit("7");
        reveal_strlit("8");
        reveal_strlit("9");
    }
    let s = if d == 0 {
        "0"
    } else if d == 1 {
        "1"
    } else if d == 2 {
        "2"
    } else if d == 3 {
        "3"
    } else if d == 4 {
        "4"
    } else if d == 5 {
        "5"
    } else if d == 6 {
        "6"
    } else if d == 7 {
        "7"
    } else if d == 8 {
        "8"
    } else {
        "9"
    };
    assert(s@ =~= seq![digit_char(d as nat)]);
    s
}

/// Appends the digits of `n` to `out`.
pub fn push_count(out: &mut String, n: u32)
    ensures
        final(out)@ == old(out)@ + decimal_text(n as nat),
    decreases n,
{
    if n >= 10 {
        push_count(out, n / 10);
    }
    out.append(digit_str(n % 10));
    proof {
        if n >= 10 {
            assert(old(out)@ + decimal_text((n / 10) as nat) + seq![digit_char((n % 10) as nat)]
                =~= old(out)@ + decimal_text(n as nat));
        } else {
            assert(n % 10 == n);
        }
    }
}

/// The digits of `n` in base ten, without leading zeros.
pub fn count_text(n: u32) -> (s: String)
    ensures
        s@ == decimal_text(n as nat),
{
    let mut s = String::new();
    push_count(&mut s, n);
    assert(Seq::<char>::empty() + decimal_text(n as nat) =~= decimal_text(n as nat));
    s
}

} // verus!
