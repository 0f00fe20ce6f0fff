//! Text as sequences of characters: whitespace, fields, prefixes and decimal numbers.
use vstd::prelude::*;
use vstd::string::{StrSliceExecFns, StringExecFns, StringSliceAdditionalSpecFns};
use vstd::utf8::{decode_utf8, encode_utf8_decode_utf8, valid_utf8};

verus! {

/// Whether `c` is Unicode white space.
pub open spec fn is_space(c: char) -> bool {
    let n = c as u32;
    ||| 0x09 <= n <= 0x0D
    ||| n == 0x20
    ||| n == 0x85
    ||| n == 0xA0
    ||| n == 0x1680
    ||| 0x2000 <= n <= 0x200A
    ||| n == 0x2028
    ||| n == 0x2029
    ||| n == 0x202F
    ||| n == 0x205F
    ||| n == 0x3000
}

/// Whether `c` is part of a word, that is, no white space.
pub open spec fn is_word(c: char) -> bool {
    !is_space(c)
}

/// Whether `c` does not end a line.
pub open spec fn is_inline(c: char) -> bool {
    c != '\n'
}

/// How many characters at the start of `s` satisfy `p`.
pub open spec fn prefix_len(s: Seq<char>, p: spec_fn(char) -> bool) -> nat
    decreases s.len(),
{
    if s.len() > 0 && p(s[0]) {
        1 + prefix_len(s.drop_first(), p)
    } else {
        0
    }
}

/// How many characters at the end of `s` satisfy `p`.
pub open spec fn suffix_len(s: Seq<char>, p: spec_fn(char) -> bool) -> nat
    decreases s.len(),
{
    if s.len() > 0 && p(s.last()) {
        1 + suffix_len(s.drop_last(), p)
    } else {
        0
    }
}

/// `s` without the white space at its start and at its end.
pub open spec fn trim(s: Seq<char>) -> Seq<char> {
    let rest = s.skip(prefix_len(s, |c: char| is_space(c)) as int);
    rest.take(rest.len() - suffix_len(rest, |c: char| is_space(c)))
}

/// The `k`-th field of `s`, counted from zero, where fields are the maximal
/// runs of characters that are no white space.
pub open spec fn field(s: Seq<char>, k: nat) -> Option<Seq<char>>
    decreases k,
{
    let rest = s.skip(prefix_len(s, |c: char| is_space(c)) as int);
    let width = prefix_len(rest, |c: char| is_word(c));
    if width == 0 {
        None
    } else if k == 0 {
        Some(rest.take(width as int))
    } else {
        field(rest.skip(width as int), (k - 1) as nat)
    }
}

/// `s` without `prefix` at its start, where it starts with it.
pub open spec fn strip_prefix(s: Seq<char>, prefix: Seq<char>) -> Option<Seq<char>> {
    if prefix.is_prefix_of(s) {
        Some(s.skip(prefix.len() as int))
    } else {
        None
    }
}

/// Whether `c` is one of the ten decimal digits.
pub open spec fn is_digit(c: char) -> bool {
    0x30 <= c as u32 <= 0x39
}

/// The number a digit stands for.
pub open spec fn digit_value(c: char) -> nat {
    if is_digit(c) {
        (c as u32 - 0x30) as nat
    } else {
        0
    }
}

/// The digit that stands for `d`.
pub open spec fn digit_char(d: nat) -> char
    recommends
        d < 10,
{
    (0x30 + d) as char
}

/// Whether `s` holds decimal digits only.
pub open spec fn all_digits(s: Seq<char>) -> bool {
    forall|i: int| 0 <= i < s.len() ==> is_digit(#[trigger] s[i])
}

/// The number that the digits of `s` denote in base ten.
pub open spec fn decimal_value(s: Seq<char>) -> nat
    decreases s.len(),
{
    if s.len() == 0 {
        0
    } else {
        decimal_value(s.drop_last()) * 10 + digit_value(s.last())
    }
}

/// The 32-bit unsigned number written in `s`: an optional `+`, then one or
/// more decimal digits whose value fits. `None` for any other text.
pub open spec fn parse_u32(s: Seq<char>) -> Option<u32> {
    let body = if s.len() > 0 && s[0] == '+' {
        s.drop_first()
    } else {
        s
    };
    if body.len() > 0 && all_digits(body) && decimal_value(body) <= u32::MAX {
        Some(decimal_value(body) as u32)
    } else {
        None
    }
}

/// `n` written in base ten, without sign or leading zeros.
pub open spec fn decimal_text(n: nat) -> Seq<char>
    decreases n,
{
    if n < 10 {
        seq![digit_char(n)]
    } else {
        decimal_text(n / 10).push(digit_char(n % 10))
    }
}

/// The characters of `s`, in order.
pub fn chars_of(s: &str) -> (v: Vec<char>)
    ensures
        v@ == s@,
{
    let mut v: Vec<char> = Vec::new();
    for c in it: s.chars()
        invariant
            v@ == it.seq().take(it.index() as int),
            it.seq() == s@,
    {
        v.push(c);
    }
    v
}

/// An owned copy of `s`.
pub fn owned(s: &str) -> (r: String)
    ensures
        r@ == s@,
{
    s.to_owned()
}

/// `a` followed by `b`.
pub fn joined(a: &str, b: &str) -> (r: String)
    ensures
        r@ == a@ + b@,
{
    let mut r = a.to_owned();
    r.append(b);
    r
}

/// Whether `c` is Unicode white space.
pub fn is_whitespace(c: char) -> (r: bool)
    ensures
        r == is_space(c),
{
    let n: u32 = c as u32;
    (0x09 <= n && n <= 0x0D) || n == 0x20 || n == 0x85 || n == 0xA0 || n == 0x1680 || (0x2000 <= n
        && n <= 0x200A) || n == 0x2028 || n == 0x2029 || n == 0x202F || n == 0x205F || n == 0x3000
}

proof fn lemma_prefix_len_step(s: Seq<char>, p: spec_fn(char) -> bool, from: int, i: int, to: int)
    requires
        0 <= from <= i <= to <= s.len(),
    ensures
        i < to && p(s[i]) ==> prefix_len(s.subrange(i, to), p) == 1 + prefix_len(
            s.subrange(i + 1, to),
            p,
        ),
        i == to || !p(s[i]) ==> prefix_len(s.subrange(i, to), p) == 0,
{
    if i < to {
        assert(s.subrange(i, to)[0] == s[i]);
        assert(s.subrange(i, to).drop_first() =~= s.subrange(i + 1, to));
    }
}

/// The end of the run of white space that starts at `from` and does not pass `to`.
pub fn skip_spaces(text: &[char], from: usize, to: usize) -> (i: usize)
    requires
        from <= to <= text@.len(),
    ensures
        i == from + prefix_len(text@.subrange(from as int, to as int), |c: char| is_space(c)),
        from <= i <= to,
{
    let ghost p = |c: char| is_space(c);
    let mut i = from;
    while i < to && is_whitespace(text[i])
        invariant
            from <= i <= to <= text@.len(),
            p == (|c: char| is_space(c)),
            prefix_len(text@.subrange(from as int, to as int), p) == (i - from) + prefix_len(
                text@.subrange(i as int, to as int),
                p,
            ),
        decreases to - i,
    {
        proof {
            lemma_prefix_len_step(text@, p, from as int, i as int, to as int);
        }
        i += 1;
    }
    proof {
        lemma_prefix_len_step(text@, p, from as int, i as int, to as int);
    }
    i
}

/// The end of the word that starts at `from` and does not pass `to`.
pub fn skip_word(text: &[char], from: usize, to: usize) -> (i: usize)
    requires
        from <= to <= text@.len(),
    ensures
        i == from + prefix_len(text@.subrange(from as int, to as int), |c: char| is_word(c)),
        from <= i <= to,
{
    let ghost p = |c: char| is_word(c);
    let mut i = from;
    while i < to && !is_whitespace(text[i])
        invariant
            from <= i <= to <= text@.len(),
            p == (|c: char| is_word(c)),
            prefix_len(text@.subrange(from as int, to as int), p) == (i - from) + prefix_len(
                text@.subrange(i as int, to as int),
                p,
            ),
        decreases to - i,
    {
        proof {
            lemma_prefix_len_step(text@, p, from as int, i as int, to as int);
        }
        i += 1;
    }
    proof {
        lemma_prefix_len_step(text@, p, from as int, i as int, to as int);
    }
    i
}

/// The end of the line that starts at `from`: the place of its line feed, or `to`.
pub fn skip_line(text: &[char], from: usize, to: usize) -> (i: usize)
    requires
        from <= to <= text@.len(),
    ensures
        i == from + prefix_len(text@.subrange(from as int, to as int), |c: char| is_inline(c)),
        from <= i <= to,
{
    let ghost p = |c: char| is_inline(c);
    let mut i = from;
    while i < to && text[i] != '\n'
        invariant
            from <= i <= to <= text@.len(),
            p == (|c: char| is_inline(c)),
            prefix_len(text@.subrange(from as int, to as int), p) == (i - from) + prefix_len(
                text@.subrange(i as int, to as int),
                p,
            ),
        decreases to - i,
    {
        proof {
            lemma_prefix_len_step(text@, p, from as int, i as int, to as int);
        }
        i += 1;
    }
    proof {
        lemma_prefix_len_step(text@, p, from as int, i as int, to as int);
    }
    i
}

proof fn lemma_suffix_len_step(s: Seq<char>, p: spec_fn(char) -> bool, from: int, i: int)
    requires
        0 <= from <= i <= s.len(),
    ensures
        from < i && p(s[i - 1]) ==> suffix_len(s.subrange(from, i), p) == 1 + suffix_len(
            s.subrange(from, i - 1),
            p,
        ),
        i == from || !p(s[i - 1]) ==> suffix_len(s.subrange(from, i), p) == 0,
{
    if from < i {
        assert(s.subrange(from, i).last() == s[i - 1]);
        assert(s.subrange(from, i).drop_last() =~= s.subrange(from, i - 1));
    }
}

/// Where `text` begins and ends once the white space around it is left out.
pub fn trim_range(text: &[char]) -> (r: (usize, usize))
    ensures
        r.0 <= r.1 <= text@.len(),
        text@.subrange(r.0 as int, r.1 as int) == trim(text@),
{
    let ghost p = |c: char| is_space(c);
    let n = text.len();
    assert(text@.subrange(0, n as int) =~= text@);
    let a = skip_spaces(text, 0, n);
    let ghost rest = text@.subrange(a as int, n as int);
    assert(rest =~= text@.skip(a as int));
    let mut b = n;
    while b > a && is_whitespace(text[b - 1])
        invariant
            a <= b <= n == text@.len(),
            p == (|c: char| is_space(c)),
            rest == text@.subrange(a as int, n as int),
            suffix_len(rest, p) == (n - b) + suffix_len(text@.subrange(a as int, b as int), p),
        decreases b,
    {
        proof {
            lemma_suffix_len_step(text@, p, a as int, b as int);
        }
        b -= 1;
    }
    proof {
        lemma_suffix_len_step(text@, p, a as int, b as int);
        assert(rest.take(rest.len() - suffix_len(rest, p)) =~= text@.subrange(a as int, b as int));
    }
    (a, b)
}

/// Where the `k`-th field of the part of `text` between `from` and `to` lies.
pub fn field_range(text: &[char], from: usize, to: usize, k: usize) -> (r: Option<(usize, usize)>)
    requires
        from <= to <= text@.len(),
    ensures
        match r {
            Some((a, b)) => from <= a < b <= to && field(
                text@.subrange(from as int, to as int),
                k as nat,
            ) == Some(text@.subrange(a as int, b as int)),
            None => field(text@.subrange(from as int, to as int), k as nat) is None,
        },
{
    let mut pos = from;
    let mut j: usize = 0;
    loop
        invariant
            from <= pos <= to <= text@.len(),
            j <= k,
            field(text@.subrange(from as int, to as int), k as nat) == field(
                text@.subrange(pos as int, to as int),
                (k - j) as nat,
            ),
        decreases k - j,
    {
        let a = skip_spaces(text, pos, to);
        let b = skip_word(text, a, to);
        proof {
            let s = text@.subrange(pos as int, to as int);
            assert(s.skip(a - pos) =~= text@.subrange(a as int, to as int));
            assert(text@.subrange(a as int, to as int).take(b - a) =~= text@.subrange(
                a as int,
                b as int,
            ));
            assert(text@.subrange(a as int, to as int).skip(b - a) =~= text@.subrange(
                b as int,
                to as int,
            ));
        }
        if b == a {
            return None;
        }
        if j == k {
            return Some((a, b));
        }
        pos = b;
        j += 1;
    }
}

/// Whether `text` begins with `prefix`.
pub fn starts_with(text: &[char], prefix: &[char]) -> (r: bool)
    ensures
        r == prefix@.is_prefix_of(text@),
{
    let n = prefix.len();
    if n > text.len() {
        return false;
    }
    let mut i: usize = 0;
    while i < n
        invariant
            i <= n == prefix@.len() <= text@.len(),
            forall|j: int| 0 <= j < i ==> prefix@[j] == text@[j],
        decreases n - i,
    {
        if prefix[i] != text[i] {
            proof {
                assert(text@.subrange(0, n as int)[i as int] == text@[i as int]);
            }
            return false;
        }
        i += 1;
    }
    assert(prefix@ =~= text@.subrange(0, n as int));
    true
}

/// Whether the part of `text` between `from` and `to` reads `word`.
pub fn range_equals(text: &[char], from: usize, to: usize, word: &[char]) -> (r: bool)
    requires
        from <= to <= text@.len(),
    ensures
        r == (text@.subrange(from as int, to as int) == word@),
{
    let n = word.len();
    if to - from != n {
        return false;
    }
    let mut i: usize = 0;
    while i < n
        invariant
            i <= n == word@.len() == to - from,
            from <= to <= text@.len(),
            forall|j: int| 0 <= j < i ==> word@[j] == text@[from + j],
        decreases n - i,
    {
        if word[i] != text[from + i] {
            proof {
                assert(text@.subrange(from as int, to as int)[i as int] == text@[from + i]);
            }
            return false;
        }
        i += 1;
    }
    assert(word@ =~= text@.subrange(from as int, to as int));
    true
}

proof fn lemma_decimal_value_push(s: Seq<char>, i: int)
    requires
        0 <= i < s.len(),
    ensures
        decimal_value(s.take(i + 1)) == decimal_value(s.take(i)) * 10 + digit_value(s[i]),
{
    assert(s.take(i + 1).drop_last() =~= s.take(i));
}

proof fn lemma_decimal_value_grows(s: Seq<char>, i: int)
    requires
        0 <= i <= s.len(),
    ensures
        decimal_value(s.take(i)) <= decimal_value(s),
    decreases s.len() - i,
{
    if i == s.len() {
        assert(s.take(i) =~= s);
    } else {
        lemma_decimal_value_push(s, i);
        lemma_decimal_value_grows(s, i + 1);
    }
}

/// The number written in the part of `text` between `from` and `to`.
pub fn parse_decimal(text: &[char], from: usize, to: usize) -> (r: Option<u32>)
    requires
        from <= to <= text@.len(),
    ensures
        r == parse_u32(text@.subrange(from as int, to as int)),
{
    let ghost s = text@.subrange(from as int, to as int);
    let start: usize = if from < to && text[from] == '+' {
        from + 1
    } else {
        from
    };
    let ghost body = text@.subrange(start as int, to as int);
    assert(body =~= if s.len() > 0 && s[0] == '+' {
        s.drop_first()
    } else {
        s
    });
    if start == to {
        return None;
    }
    let mut value: u32 = 0;
    let mut i: usize = start;
    assert(body.take(0) =~= Seq::<char>::empty());
    while i < to
        invariant
            start <= i <= to <= text@.len(),
            from <= start,
            body == text@.subrange(start as int, to as int),
            parse_u32(text@.subrange(from as int, to as int)) == (if all_digits(body)
                && decimal_value(body) <= u32::MAX {
                Some(decimal_value(body) as u32)
            } else {
                None
            }),
            all_digits(body.take(i - start)),
            value == decimal_value(body.take(i - start)),
        decreases to - i,
    {
        let c: u32 = text[i] as u32;
        if c < 0x30 || c > 0x39 {
            assert(!is_digit(body[i - start]));
            return None;
        }
        let d: u32 = c - 0x30;
        proof {
            lemma_decimal_value_push(body, i - start);
            lemma_decimal_value_grows(body, i - start + 1);
        }
        if value > (u32::MAX - d) / 10 {
            return None;
        }
        value = value * 10 + d;
        i += 1;
        assert forall|j: int| 0 <= j < i - start implies is_digit(#[trigger] body.take(i - start)[j]) by {
            if j < i - start - 1 {
                assert(body.take(i - start - 1)[j] == body[j]);
            }
        }
    }
    assert(body.take(to - start) =~= body);
    Some(value)
}

fn digit_text(d: u32) -> (r: &'static str)
    requires
        d < 10,
    ensures
        r@ == seq![digit_char(d as nat)],
{
    proof {
        reveal_strlit("0");
        reveal_strlit("1");
        reveal_strlit("2");
        reveal_strlit("3");
        reveal_strlit("4");
        reveal_strlit("5");
        reveal_strlit("6");
        reveal_strlit("7");
        reveal_strlit("8");
        reveal_strlit("9");
    }
    let r = match d {
        0 => "0",
        1 => "1",
        2 => "2",
        3 => "3",
        4 => "4",
        5 => "5",
        6 => "6",
        7 => "7",
        8 => "8",
        _ => "9",
    };
    assert(r@ =~= seq![digit_char(d as nat)]);
    r
}

/// `n` in base ten.
pub fn decimal(n: u32) -> (r: String)
    ensures
        r@ == decimal_text(n as nat),
    decreases n,
{
    if n < 10 {
        owned(digit_text(n))
    } else {
        let mut r = decimal(n / 10);
        r.append(digit_text(n % 10));
        assert(r@ =~= decimal_text((n / 10) as nat).push(digit_char((n % 10) as nat)));
        r
    }
}

proof fn lemma_decimal_text_digits(n: nat)
    ensures
        decimal_text(n).len() > 0,
        all_digits(decimal_text(n)),
        decimal_value(decimal_text(n)) == n,
    decreases n,
{
    if n < 10 {
        let s = seq![digit_char(n)];
        assert(s.drop_last() =~= Seq::<char>::empty());
        assert(decimal_value(s.drop_last()) == 0);
    } else {
        lemma_decimal_text_digits(n / 10);
        let head = decimal_text(n / 10);
        let s = head.push(digit_char(n % 10));
        assert(s.drop_last() =~= head);
        assert(s.last() == digit_char(n % 10));
    }
}

/// A number written in base ten reads back as itself.
pub proof fn lemma_decimal_round_trip(n: u32)
    ensures
        parse_u32(decimal_text(n as nat)) == Some(n),
{
    lemma_decimal_text_digits(n as nat);
    let s = decimal_text(n as nat);
    assert(is_digit(s[0]));
}

/// The text that `bytes` encode in UTF-8, or `None` where they encode none.
pub open spec fn decoded(bytes: Seq<u8>) -> Option<Seq<char>> {
    if valid_utf8(bytes) {
        Some(decode_utf8(bytes))
    } else {
        None
    }
}

/// `std::str::from_utf8`: the string slice that `bytes` are the UTF-8
/// encoding of. It is there exactly where the bytes are valid UTF-8, and
/// then its bytes are the bytes given.
#[verifier::external_body]
pub(crate) fn utf8_text(bytes: &[u8]) -> (r: Option<&str>)
    ensures
        r is Some <==> valid_utf8(bytes@),
        r matches Some(s) ==> s.spec_bytes() == bytes@,
{
    std::str::from_utf8(bytes).ok()
}

/// The text that `bytes` encode in UTF-8, without the white space around it.
pub open spec fn trimmed_text(bytes: Seq<u8>) -> Option<Seq<char>> {
    match decoded(bytes) {
        Some(s) => Some(trim(s)),
        None => None,
    }
}

/// The string slice that `bytes` encode in UTF-8.
pub fn decode(bytes: &[u8]) -> (r: Option<&str>)
    ensures
        match r {
            Some(s) => decoded(bytes@) == Some(s@),
            None => decoded(bytes@) is None,
        },
{
    match utf8_text(bytes) {
        Some(s) => {
            proof {
                encode_utf8_decode_utf8(s@);
            }
            Some(s)
        },
        None => None,
    }
}

/// The text that `bytes` encode in UTF-8, without the white space around it.
pub fn trimmed(bytes: &[u8]) -> (r: Option<String>)
    ensures
        match r {
            Some(s) => trimmed_text(bytes@) == Some(s@),
            None => trimmed_text(bytes@) is None,
        },
{
    match decode(bytes) {
        Some(s) => {
            let chars = chars_of(s);
            let (a, b) = trim_range(chars.as_slice());
            Some(owned(s.substring_char(a, b)))
        },
        None => None,
    }
}

} // verus!
