//! Text as sequences of characters: comparing, trimming, cutting at a marker,
//! removing terminal colour codes, and writing numbers in decimal.

use vstd::prelude::*;
use vstd::string::*;

verus! {

/// Appends one character to a string.
///
/// Calls `String::push`, which appends the given character to the end of the
/// string; this is taken on trust.
#[verifier::external_body]
fn push_char(text: &mut String, c: char)
    ensures
        final(text)@ == old(text)@.push(c),
{
    text.push(c);
}

/// The characters of a text, one by one.
pub fn to_chars(s: &str) -> (v: Vec<char>)
    ensures
        v@ == s@,
{
    let mut v: Vec<char> = Vec::new();
    for c in it: s.chars()
        invariant
            it.seq() == s@,
            v@ == it.seq().take(it.index() as int),
    {
        v.push(c);
    }
    v
}

/// Appends the characters `chars[from..to]` to a text.
pub fn push_chars(text: &mut String, chars: &Vec<char>, from: usize, to: usize)
    requires
        from <= to <= chars.len(),
    ensures
        final(text)@ == old(text)@ + chars@.subrange(from as int, to as int),
{
    let mut i: usize = from;
    while i < to
        invariant
            from <= i <= to <= chars.len(),
            text@ == old(text)@ + chars@.subrange(from as int, i as int),
        decreases to - i,
    {
        push_char(text, chars[i]);
        assert(chars@.subrange(from as int, i + 1) =~= chars@.subrange(from as int, i as int).push(
            chars@[i as int],
        ));
        i = i + 1;
    }
}

/// Whether two texts hold the same characters.
pub fn same_text(a: &str, b: &str) -> (same: bool)
    ensures
        same == (a@ == b@),
{
    let x = to_chars(a);
    let y = to_chars(b);
    if x.len() != y.len() {
        return false;
    }
    let mut i: usize = 0;
    while i < x.len()
        invariant
            x@ == a@,
            y@ == b@,
            x.len() == y.len(),
            i <= x.len(),
            forall|j: int| 0 <= j < i ==> x@[j] == y@[j],
        decreases x.len() - i,
    {
        if x[i] != y[i] {
            return false;
        }
        i = i + 1;
    }
    assert(x@ =~= y@);
    true
}

/// The characters that count as white space: those with the Unicode property
/// `White_Space`.
pub open spec fn spec_is_white_space(c: char) -> bool {
    let u = c as u32;
    ||| 0x09 <= u <= 0x0D
    ||| u == 0x20
    ||| u == 0x85
    ||| u == 0xA0
    ||| u == 0x1680
    ||| 0x2000 <= u <= 0x200A
    ||| u == 0x2028
    ||| u == 0x2029
    ||| u == 0x202F
    ||| u == 0x205F
    ||| u == 0x3000
}

#[verifier::when_used_as_spec(spec_is_white_space)]
pub fn is_white_space(c: char) -> (b: bool)
    ensures
        b == spec_is_white_space(c),
{
    let u: u32 = c as u32;
    (0x09 <= u && u <= 0x0D) || u == 0x20 || u == 0x85 || u == 0xA0 || u == 0x1680 || (0x2000 <= u
        && u <= 0x200A) || u == 0x2028 || u == 0x2029 || u == 0x202F || u == 0x205F || u == 0x3000
}

/// A text without the white space it starts with.
pub open spec fn trimmed_start(s: Seq<char>) -> Seq<char>
    decreases s.len(),
{
    if s.len() > 0 && is_white_space(s.first()) {
        trimmed_start(s.drop_first())
    } else {
        s
    }
}

/// A text without the white space it ends with.
pub open spec fn trimmed_end(s: Seq<char>) -> Seq<char>
    decreases s.len(),
{
    if s.len() > 0 && is_white_space(s.last()) {
        trimmed_end(s.drop_last())
    } else {
        s
    }
}

/// A text without the white space at either end.
pub open spec fn trimmed(s: Seq<char>) -> Seq<char> {
    trimmed_end(trimmed_start(s))
}

proof fn lemma_trimmed_start(s: Seq<char>, a: int)
    requires
        0 <= a <= s.len(),
        forall|j: int| 0 <= j < a ==> is_white_space(#[trigger] s[j]),
        a == s.len() || !is_white_space(s[a]),
    ensures
        trimmed_start(s) == s.skip(a),
    decreases a,
{
    if a > 0 {
        let rest = s.drop_first();
        assert forall|j: int| 0 <= j < a - 1 implies is_white_space(#[trigger] rest[j]) by {
            assert(rest[j] == s[j + 1]);
        }
        lemma_trimmed_start(rest, a - 1);
    }
}

proof fn lemma_trimmed_end(s: Seq<char>, b: int)
    requires
        0 <= b <= s.len(),
        forall|j: int| b <= j < s.len() ==> is_white_space(#[trigger] s[j]),
        b == 0 || !is_white_space(s[b - 1]),
    ensures
        trimmed_end(s) == s.take(b),
    decreases s.len() - b,
{
    if b < s.len() {
        lemma_trimmed_end(s.drop_last(), b);
    }
}

/// The part of a text between the white space at its two ends.
pub fn trim(s: &str) -> (t: &str)
    ensures
        t@ == trimmed(s@),
{
    let v = to_chars(s);
    let n = v.len();
    let mut a: usize = 0;
    while a < n && is_white_space(v[a])
        invariant
            n == v.len(),
            a <= n,
            forall|j: int| 0 <= j < a ==> is_white_space(#[trigger] v@[j]),
        decreases n - a,
    {
        a = a + 1;
    }
    let mut b: usize = n;
    while b > a && is_white_space(v[b - 1])
        invariant
            n == v.len(),
            a <= b <= n,
            forall|j: int| b <= j < n ==> is_white_space(#[trigger] v@[j]),
        decreases b,
    {
        b = b - 1;
    }
    proof {
        let rest = s@.skip(a as int);
        lemma_trimmed_start(s@, a as int);
        assert forall|j: int| b - a <= j < rest.len() implies is_white_space(#[trigger] rest[j]) by {
            assert(rest[j] == s@[j + a]);
        }
        lemma_trimmed_end(rest, b - a);
    }
    s.substring_char(a, b)
}

/// The last `n` characters of a text; all of it if it has no more.
pub open spec fn last_chars(s: Seq<char>, n: nat) -> Seq<char> {
    if s.len() <= n {
        s
    } else {
        s.skip(s.len() - n)
    }
}

/// The last `n` characters of a text; all of it if it has no more.
pub fn end_of(s: &str, n: usize) -> (t: &str)
    ensures
        t@ == last_chars(s@, n as nat),
{
    let len = s.unicode_len();
    if len <= n {
        s
    } else {
        s.substring_char(len - n, len)
    }
}

/// Whether `marker` stands in `s` at index `i`.
pub open spec fn occurs_at(s: Seq<char>, marker: Seq<char>, i: int) -> bool {
    0 <= i && i + marker.len() <= s.len() && s.subrange(i, i + marker.len()) == marker
}

/// The greatest index up to `i` at which `marker` stands in `s`, or `-1` if it
/// stands at none.
pub open spec fn last_occurrence_up_to(s: Seq<char>, marker: Seq<char>, i: int) -> int
    decreases i + 1,
{
    if i < 0 {
        -1
    } else if occurs_at(s, marker, i) {
        i
    } else {
        last_occurrence_up_to(s, marker, i - 1)
    }
}

/// The greatest index at which `marker` stands in `s`, or `-1`.
pub open spec fn last_occurrence(s: Seq<char>, marker: Seq<char>) -> int {
    last_occurrence_up_to(s, marker, s.len() - marker.len())
}

/// What follows the last `marker` in `s`; all of `s` if it holds no `marker`.
pub open spec fn after_last(s: Seq<char>, marker: Seq<char>) -> Seq<char> {
    let i = last_occurrence(s, marker);
    if i < 0 {
        s
    } else {
        s.skip(i + marker.len())
    }
}

/// The last occurrence is an occurrence, and none comes after it.
pub proof fn lemma_last_occurrence(s: Seq<char>, marker: Seq<char>, i: int)
    ensures
        -1 <= last_occurrence_up_to(s, marker, i),
        last_occurrence_up_to(s, marker, i) <= i || i < -1,
        last_occurrence_up_to(s, marker, i) >= 0 ==> occurs_at(
            s,
            marker,
            last_occurrence_up_to(s, marker, i),
        ),
        forall|j: int|
            last_occurrence_up_to(s, marker, i) < j <= i ==> !occurs_at(s, marker, j),
    decreases i + 1,
{
    if i >= 0 && !occurs_at(s, marker, i) {
        lemma_last_occurrence(s, marker, i - 1);
    }
}

fn stands_at(v: &Vec<char>, m: &Vec<char>, i: usize) -> (b: bool)
    requires
        i + m.len() <= v.len(),
    ensures
        b == occurs_at(v@, m@, i as int),
{
    let mut k: usize = 0;
    while k < m.len()
        invariant
            i + m.len() <= v.len(),
            k <= m.len(),
            forall|j: int| 0 <= j < k ==> v@[i + j] == m@[j],
        decreases m.len() - k,
    {
        if v[i + k] != m[k] {
            return false;
        }
        k = k + 1;
    }
    assert(v@.subrange(i as int, i + m.len()) =~= m@);
    true
}

/// What follows the last `marker` in `s`; all of `s` if it holds no `marker`.
pub fn suffix_after_last<'a>(s: &'a str, marker: &str) -> (t: &'a str)
    ensures
        t@ == after_last(s@, marker@),
{
    let v = to_chars(s);
    let m = to_chars(marker);
    if m.len() > v.len() {
        return s;
    }
    let top: usize = v.len() - m.len();
    let mut i: usize = top;
    loop
        invariant
            top == v.len() - m.len(),
            i <= top,
            v@ == s@,
            m@ == marker@,
            last_occurrence(v@, m@) == last_occurrence_up_to(v@, m@, i as int),
        decreases i,
    {
        if stands_at(&v, &m, i) {
            return s.substring_char(i + m.len(), v.len());
        }
        if i == 0 {
            assert(last_occurrence_up_to(v@, m@, -1) == -1);
            return s;
        }
        i = i - 1;
    }
}

/// The character that starts a terminal control sequence.
pub open spec fn escape_char() -> char {
    '\u{1b}'
}

/// A character of the parameters of a colour code: a digit or a semicolon.
pub open spec fn spec_is_parameter(c: char) -> bool {
    ('0' <= c && c <= '9') || c == ';'
}

#[verifier::when_used_as_spec(spec_is_parameter)]
pub fn is_parameter(c: char) -> (b: bool)
    ensures
        b == spec_is_parameter(c),
{
    ('0' <= c && c <= '9') || c == ';'
}

/// The first index from `from` on that holds no parameter character.
pub open spec fn parameters_end(s: Seq<char>, from: int) -> int
    decreases s.len() - from,
{
    if 0 <= from < s.len() && is_parameter(s[from]) {
        parameters_end(s, from + 1)
    } else {
        from
    }
}

/// The index behind the colour code that starts at `i`: the escape character,
/// `[`, any number of digits and semicolons, and `m`. It is `i` itself where no
/// colour code starts.
pub open spec fn colour_code_end(s: Seq<char>, i: int) -> int {
    if 0 <= i && i + 1 < s.len() && s[i] == escape_char() && s[i + 1] == '[' {
        let e = parameters_end(s, i + 2);
        if e < s.len() && s[e] == 'm' {
            e + 1
        } else {
            i
        }
    } else {
        i
    }
}

/// The text from index `i` on, without its colour codes.
pub open spec fn without_colour_codes_from(s: Seq<char>, i: int) -> Seq<char>
    decreases s.len() - i,
{
    if i < 0 || i >= s.len() {
        Seq::empty()
    } else {
        let e = colour_code_end(s, i);
        if e > i {
            without_colour_codes_from(s, e)
        } else {
            seq![s[i]] + without_colour_codes_from(s, i + 1)
        }
    }
}

/// A text without its colour codes. The codes are found from left to right,
/// and what is left of a broken code stays.
pub open spec fn without_colour_codes(s: Seq<char>) -> Seq<char> {
    without_colour_codes_from(s, 0)
}

fn code_end(v: &Vec<char>, i: usize) -> (e: usize)
    requires
        i < v.len(),
    ensures
        e == colour_code_end(v@, i as int),
        i <= e <= v.len(),
{
    let n = v.len();
    if n - i < 2 || v[i] != '\u{1b}' || v[i + 1] != '[' {
        return i;
    }
    let mut j: usize = i + 2;
    while j < n && is_parameter(v[j])
        invariant
            n == v.len(),
            i + 2 <= j <= n,
            parameters_end(v@, j as int) == parameters_end(v@, i + 2),
        decreases n - j,
    {
        j = j + 1;
    }
    if j < n && v[j] == 'm' {
        j + 1
    } else {
        i
    }
}

/// Appends `chars` without its colour codes to a text.
pub fn push_without_colour_codes(text: &mut String, chars: &Vec<char>)
    ensures
        final(text)@ == old(text)@ + without_colour_codes(chars@),
{
    let n = chars.len();
    let mut i: usize = 0;
    while i < n
        invariant
            n == chars.len(),
            i <= n,
            text@ + without_colour_codes_from(chars@, i as int) == old(text)@
                + without_colour_codes(chars@),
        decreases n - i,
    {
        let e = code_end(chars, i);
        if e > i {
            i = e;
        } else {
            let ghost before = text@;
            push_char(text, chars[i]);
            assert(before + (seq![chars@[i as int]] + without_colour_codes_from(chars@, i + 1))
                =~= text@ + without_colour_codes_from(chars@, i + 1));
            i = i + 1;
        }
    }
}

/// A text without its colour codes.
pub fn strip_colour_codes(s: &str) -> (t: String)
    ensures
        t@ == without_colour_codes(s@),
{
    let v = to_chars(s);
    let mut t = String::new();
    push_without_colour_codes(&mut t, &v);
    t
}

/// The character of a decimal digit.
pub open spec fn digit_char(d: int) -> char {
    (('0' as int) + d) as char
}

/// A natural number in decimal, without leading zeros.
pub open spec fn decimal_nat(n: nat) -> Seq<char>
    decreases n,
{
    if n < 10 {
        seq![digit_char(n as int)]
    } else {
        decimal_nat(n / 10).push(digit_char((n % 10) as int))
    }
}

/// An integer in decimal, with `-` before a negative one.
pub open spec fn decimal(n: int) -> Seq<char> {
    if n < 0 {
        seq!['-'] + decimal_nat((-n) as nat)
    } else {
        decimal_nat(n as nat)
    }
}

fn push_decimal_nat(text: &mut String, n: u64)
    ensures
        final(text)@ == old(text)@ + decimal_nat(n as nat),
    decreases n,
{
    if n >= 10 {
        push_decimal_nat(text, n / 10);
    }
    let d: u8 = (n % 10) as u8;
    let ghost before = text@;
    push_char(text, (d + 48) as char);
    proof {
        if n >= 10 {
            assert(old(text)@ + decimal_nat((n / 10) as nat).push(digit_char((n % 10) as int))
                =~= before.push(digit_char((n % 10) as int)));
        }
    }
}

/// Appends an integer in decimal to a text.
pub fn push_decimal(text: &mut String, n: i32)
    ensures
        final(text)@ == old(text)@ + decimal(n as int),
{
    if n < 0 {
        push_char(text, '-');
        let magnitude: u64 = (-(n as i64)) as u64;
        push_decimal_nat(text, magnitude);
        assert(old(text)@.push('-') + decimal_nat((-n) as nat) =~= old(text)@ + (seq!['-']
            + decimal_nat((-n) as nat)));
    } else {
        push_decimal_nat(text, n as u64);
    }
}

} // verus!
