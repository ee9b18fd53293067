use vstd::prelude::*;
use vstd::string::StrSliceExecFns;
use crate::error::NumberError;

verus! {

/// The characters the line splitter treats as spacing: the Unicode
/// white-space code points, as `str::split_whitespace` sees them.
pub open spec fn is_space(c: char) -> bool {
    let p = c as u32;
    (9 <= p && p <= 13) || p == 32 || p == 0x85 || p == 0xA0 || p == 0x1680 || (0x2000 <= p
        && p <= 0x200A) || p == 0x2028 || p == 0x2029 || p == 0x202F || p == 0x205F || p == 0x3000
}

/// An ASCII letter.
pub open spec fn is_letter(c: char) -> bool {
    let p = c as u32;
    (65 <= p && p <= 90) || (97 <= p && p <= 122)
}

/// An ASCII decimal digit.
pub open spec fn is_digit(c: char) -> bool {
    let p = c as u32;
    48 <= p && p <= 57
}

/// A letter, a digit or an underscore.
pub open spec fn is_word_char(c: char) -> bool {
    is_letter(c) || is_digit(c) || c == '_'
}

/// The variable-name grammar: a letter or underscore, then letters,
/// digits and underscores.
pub open spec fn is_variable_name(s: Seq<char>) -> bool {
    &&& s.len() >= 1
    &&& is_letter(s[0]) || s[0] == '_'
    &&& forall|i: int| 1 <= i < s.len() ==> is_word_char(#[trigger] s[i])
}

/// The label-name grammar: a dot, then a letter, digit or underscore,
/// then letters, digits and underscores.
pub open spec fn is_label_name(s: Seq<char>) -> bool {
    &&& s.len() >= 2
    &&& s[0] == '.'
    &&& forall|i: int| 1 <= i < s.len() ==> is_word_char(#[trigger] s[i])
}

/// Executable test of [`is_space`].
fn space_char(c: char) -> (r: bool)
    ensures
        r == is_space(c),
{
    let p = c as u32;
    (9 <= p && p <= 13) || p == 32 || p == 0x85 || p == 0xA0 || p == 0x1680 || (0x2000 <= p
        && p <= 0x200A) || p == 0x2028 || p == 0x2029 || p == 0x202F || p == 0x205F || p == 0x3000
}

/// Executable test of [`is_word_char`].
fn word_char(c: char) -> (r: bool)
    ensures
        r == is_word_char(c),
{
    let p = c as u32;
    (65 <= p && p <= 90) || (97 <= p && p <= 122) || (48 <= p && p <= 57) || c == '_'
}

/// Executable test of [`is_variable_name`].
pub fn check_variable_name(s: &str) -> (r: bool)
    ensures
        r == is_variable_name(s@),
{
    let n = s.unicode_len();
    if n == 0 {
        return false;
    }
    let c0 = s.get_char(0);
    let p0 = c0 as u32;
    if !((65 <= p0 && p0 <= 90) || (97 <= p0 && p0 <= 122) || c0 == '_') {
        return false;
    }
    let mut i: usize = 1;
    while i < n
        invariant
            1 <= i <= n,
            n == s@.len(),
            is_letter(s@[0]) || s@[0] == '_',
            forall|j: int| 1 <= j < i ==> is_word_char(#[trigger] s@[j]),
        decreases n - i,
    {
        if !word_char(s.get_char(i)) {
            return false;
        }
        i += 1;
    }
    true
}

/// Executable test of [`is_label_name`].
pub fn check_label_name(s: &str) -> (r: bool)
    ensures
        r == is_label_name(s@),
{
    let n = s.unicode_len();
    if n < 2 {
        return false;
    }
    if s.get_char(0) != '.' {
        return false;
    }
    let mut i: usize = 1;
    while i < n
        invariant
            1 <= i <= n,
            n == s@.len(),
            s@[0] == '.',
            forall|j: int| 1 <= j < i ==> is_word_char(#[trigger] s@[j]),
        decreases n - i,
    {
        if !word_char(s.get_char(i)) {
            return false;
        }
        i += 1;
    }
    true
}

/// How many characters the token at the head of `s` spans: the length
/// of the longest space-free prefix.
pub open spec fn token_len(s: Seq<char>) -> nat
    decreases s.len(),
{
    if s.len() == 0 || is_space(s[0]) {
        0
    } else {
        1 + token_len(s.drop_first())
    }
}

pub proof fn lemma_token_len_bound(s: Seq<char>)
    ensures
        token_len(s) <= s.len(),
    decreases s.len(),
{
    if s.len() > 0 && !is_space(s[0]) {
        lemma_token_len_bound(s.drop_first());
    }
}

/// The whitespace-separated tokens of a line, in order.
pub open spec fn tokenize(s: Seq<char>) -> Seq<Seq<char>>
    decreases s.len(),
{
    if s.len() == 0 {
        Seq::empty()
    } else if is_space(s[0]) {
        tokenize(s.drop_first())
    } else {
        proof {
            lemma_token_len_bound(s);
        }
        seq![s.take(token_len(s) as int)] + tokenize(s.skip(token_len(s) as int))
    }
}

/// The token length is decided by where the first space sits.
proof fn lemma_token_len_at(s: Seq<char>, k: int)
    requires
        0 <= k <= s.len(),
        forall|j: int| 0 <= j < k ==> !is_space(#[trigger] s[j]),
        k == s.len() || is_space(s[k]),
    ensures
        token_len(s) == k,
    decreases s.len(),
{
    if k > 0 {
        lemma_token_len_at(s.drop_first(), k - 1);
    }
}

/// Skipping a space at the head leaves the tokens unchanged.
proof fn lemma_tokenize_skip_space(s: Seq<char>, i: int)
    requires
        0 <= i < s.len(),
        is_space(s[i]),
    ensures
        tokenize(s.skip(i)) == tokenize(s.skip(i + 1)),
{
    assert(s.skip(i).drop_first() =~= s.skip(i + 1));
    assert(tokenize(s.skip(i)) == tokenize(s.skip(i).drop_first()));
}

/// A maximal space-free run starting at `i` is the next token.
proof fn lemma_tokenize_take_token(s: Seq<char>, i: int, k: int)
    requires
        0 <= i < k <= s.len(),
        forall|j: int| i <= j < k ==> !is_space(#[trigger] s[j]),
        k == s.len() || is_space(s[k]),
    ensures
        tokenize(s.skip(i)) == seq![s.subrange(i, k)] + tokenize(s.skip(k)),
{
    let t = s.skip(i);
    assert(!is_space(t[0]));
    lemma_token_len_at(t, k - i);
    assert(t.take(k - i) =~= s.subrange(i, k));
    assert(t.skip(k - i) =~= s.skip(k));
}

/// Split a line into its whitespace-separated tokens.
pub fn split_tokens(line: &str) -> (r: Vec<String>)
    ensures
        r.deep_view() == tokenize(line@),
{
    let n = line.unicode_len();
    let mut toks: Vec<String> = Vec::new();
    let mut i: usize = 0;
    proof {
        assert(line@.skip(0) =~= line@);
        assert(toks.deep_view() =~= Seq::<Seq<char>>::empty());
        assert(toks.deep_view() + tokenize(line@) =~= tokenize(line@));
    }
    while i < n
        invariant
            0 <= i <= n,
            n == line@.len(),
            tokenize(line@) == toks.deep_view() + tokenize(line@.skip(i as int)),
        decreases n - i,
    {
        let c = line.get_char(i);
        if space_char(c) {
            proof {
                lemma_tokenize_skip_space(line@, i as int);
            }
            i += 1;
        } else {
            let start = i;
            i += 1;
            loop
                invariant
                    start < i <= n,
                    n == line@.len(),
                    forall|j: int| start <= j < i ==> !is_space(#[trigger] line@[j]),
                ensures
                    start < i <= n,
                    forall|j: int| start <= j < i ==> !is_space(#[trigger] line@[j]),
                    i == n || is_space(line@[i as int]),
                decreases n - i,
            {
                if i == n {
                    break;
                }
                if space_char(line.get_char(i)) {
                    break;
                }
                i += 1;
            }
            let tok = line.substring_char(start, i);
            proof {
                lemma_tokenize_take_token(line@, start as int, i as int);
            }
            let ghost old_toks = toks.deep_view();
            toks.push(tok.to_owned());
            proof {
                assert(toks.deep_view() =~= old_toks + seq![line@.subrange(start as int, i as int)]);
                assert(toks.deep_view() + tokenize(line@.skip(i as int)) =~= old_toks + (seq![
                    line@.subrange(start as int, i as int),
                ] + tokenize(line@.skip(i as int))));
            }
        }
    }
    proof {
        assert(line@.skip(n as int) =~= Seq::<char>::empty());
        assert(tokenize(line@) =~= toks.deep_view());
    }
    toks
}

/// The numeric value of a digit character.
pub open spec fn digit_val(c: char) -> nat {
    (c as u32 - 48) as nat
}

/// One step at a time through a digit string, most significant first,
/// exactly as the standard library scans an unsigned literal: the first
/// offending character or overflowing prefix decides the error.
pub open spec fn scan_digits(d: Seq<char>, acc: nat) -> Result<u16, NumberError>
    decreases d.len(),
{
    if d.len() == 0 {
        Ok(acc as u16)
    } else if !is_digit(d[0]) {
        Err(NumberError::InvalidDigit)
    } else if acc * 10 + digit_val(d[0]) > 0xFFFF {
        Err(NumberError::TooLarge)
    } else {
        scan_digits(d.drop_first(), acc * 10 + digit_val(d[0]))
    }
}

/// The digits of a numeric literal, once an optional leading plus sign
/// is stripped.
pub open spec fn literal_digits(s: Seq<char>) -> Seq<char> {
    if s.len() >= 1 && s[0] == '+' {
        s.drop_first()
    } else {
        s
    }
}

/// What parsing a token as a 16-bit number yields: an optional plus
/// sign, then decimal digits whose value fits in 16 bits.
pub open spec fn parse_number(s: Seq<char>) -> Result<u16, NumberError> {
    if s.len() == 0 {
        Err(NumberError::Empty)
    } else if literal_digits(s).len() == 0 {
        Err(NumberError::InvalidDigit)
    } else {
        scan_digits(literal_digits(s), 0)
    }
}

/// Parse a token as a 16-bit number.
pub fn parse_u16(s: &str) -> (r: Result<u16, NumberError>)
    ensures
        r == parse_number(s@),
{
    let n = s.unicode_len();
    if n == 0 {
        return Err(NumberError::Empty);
    }
    let start: usize = if s.get_char(0) == '+' {
        1
    } else {
        0
    };
    let ghost d = literal_digits(s@);
    proof {
        if start == 1 {
            assert(d =~= s@.skip(1));
        } else {
            assert(d =~= s@.skip(0));
        }
    }
    if start == n {
        return Err(NumberError::InvalidDigit);
    }
    let mut value: u32 = 0;
    let mut i: usize = start;
    while i < n
        invariant
            start <= i <= n,
            n == s@.len(),
            d == s@.skip(start as int),
            value <= 0xFFFF,
            parse_number(s@) == scan_digits(d, 0),
            scan_digits(d, 0) == scan_digits(s@.skip(i as int), value as nat),
        decreases n - i,
    {
        let ghost rest = s@.skip(i as int);
        proof {
            assert(rest.len() > 0);
            assert(rest[0] == s@[i as int]);
            assert(rest.drop_first() =~= s@.skip(i + 1));
        }
        let c = s.get_char(i);
        let p = c as u32;
        if !(48 <= p && p <= 57) {
            return Err(NumberError::InvalidDigit);
        }
        value = value * 10 + (p - 48);
        if value > 0xFFFF {
            return Err(NumberError::TooLarge);
        }
        i += 1;
    }
    proof {
        assert(s@.skip(n as int) =~= Seq::<char>::empty());
    }
    Ok(value as u16)
}

} // verus!
