//! Character-level helpers shared by the decoders.
//!
//! Every decoder in this crate reads its input as a sequence of Unicode scalar
//! values (`Seq<char>`, the view of `str`). The functions here are the small
//! vocabulary those decoders are written in: case folding of ASCII letters,
//! prefix and suffix tests, searching, trimming and decimal formatting.

use vstd::prelude::*;
use vstd::std_specs::iter::IteratorSpec;

verus! {

/// The lower-case form of an ASCII letter; every other character is unchanged.
pub open spec fn ascii_lower(c: char) -> char {
    if 'A' <= c && c <= 'Z' {
        ((c as u8) + 32) as char
    } else {
        c
    }
}

/// `a` and `b` have the same length and agree character by character once
/// ASCII letters are folded to lower case.
pub open spec fn eq_ignore_ascii_case(a: Seq<char>, b: Seq<char>) -> bool {
    &&& a.len() == b.len()
    &&& forall|i: int| 0 <= i < a.len() ==> ascii_lower(#[trigger] a[i]) == ascii_lower(b[i])
}

/// `input` begins with `prefix`, ASCII case ignored.
pub open spec fn has_prefix_spec(input: Seq<char>, prefix: Seq<char>) -> bool {
    &&& prefix.len() <= input.len()
    &&& eq_ignore_ascii_case(input.take(prefix.len() as int), prefix)
}

/// `input` begins with exactly `prefix`.
pub open spec fn starts_with(input: Seq<char>, prefix: Seq<char>) -> bool {
    prefix.len() <= input.len() && input.take(prefix.len() as int) == prefix
}

/// `input` ends with exactly `suffix`.
pub open spec fn ends_with(input: Seq<char>, suffix: Seq<char>) -> bool {
    suffix.len() <= input.len() && input.skip(input.len() - suffix.len()) == suffix
}

/// `pattern` occurs in `input` at offset `at`.
pub open spec fn occurs_at(input: Seq<char>, pattern: Seq<char>, at: int) -> bool {
    &&& 0 <= at
    &&& at + pattern.len() <= input.len()
    &&& input.subrange(at, at + pattern.len()) == pattern
}

/// `pattern` occurs somewhere in `input`.
pub open spec fn contains_text(input: Seq<char>, pattern: Seq<char>) -> bool {
    exists|at: int| occurs_at(input, pattern, at)
}

/// The least index at or after `start` that holds `c`, or `s.len()` when no
/// such index exists.
pub open spec fn find_char_from(s: Seq<char>, c: char, start: int) -> int
    decreases s.len() - start,
{
    if start < 0 || start >= s.len() {
        s.len() as int
    } else if s[start] == c {
        start
    } else {
        find_char_from(s, c, start + 1)
    }
}

/// The index of the first `c` in `s`, or `s.len()` when `s` holds none.
pub open spec fn find_char(s: Seq<char>, c: char) -> int {
    find_char_from(s, c, 0)
}

/// `find_char_from` returns an index in range that holds `c` and comes
/// before no other such index, or the length when there is none.
pub proof fn lemma_find_char_from(s: Seq<char>, c: char, start: int)
    requires
        0 <= start <= s.len(),
    ensures
        start <= find_char_from(s, c, start) <= s.len(),
        find_char_from(s, c, start) < s.len() ==> s[find_char_from(s, c, start)] == c,
        forall|j: int| start <= j < find_char_from(s, c, start) ==> s[j] != c,
    decreases s.len() - start,
{
    if start < s.len() && s[start] != c {
        lemma_find_char_from(s, c, start + 1);
    }
}

/// Unicode `White_Space`: the characters that trimming removes.
pub open spec fn is_whitespace(c: char) -> bool {
    let u = c as u32;
    ||| (0x09 <= u && u <= 0x0D)
    ||| u == 0x20
    ||| u == 0x85
    ||| u == 0xA0
    ||| u == 0x1680
    ||| (0x2000 <= u && u <= 0x200A)
    ||| u == 0x2028
    ||| u == 0x2029
    ||| u == 0x202F
    ||| u == 0x205F
    ||| u == 0x3000
}

/// The index of the first character at or after `start` that is not
/// whitespace, or `s.len()` when only whitespace follows.
pub open spec fn skip_whitespace(s: Seq<char>, start: int) -> int
    decreases s.len() - start,
{
    if start < 0 || start >= s.len() {
        s.len() as int
    } else if !is_whitespace(s[start]) {
        start
    } else {
        skip_whitespace(s, start + 1)
    }
}

/// One past the index of the last character before `end` that is not
/// whitespace, never less than `floor`.
pub open spec fn drop_whitespace(s: Seq<char>, floor: int, end: int) -> int
    decreases end - floor,
{
    if end <= floor || end > s.len() || floor < 0 {
        floor
    } else if !is_whitespace(s[end - 1]) {
        end
    } else {
        drop_whitespace(s, floor, end - 1)
    }
}

/// `s` without its leading and trailing whitespace.
pub open spec fn trim_spec(s: Seq<char>) -> Seq<char> {
    let start = skip_whitespace(s, 0);
    let end = drop_whitespace(s, start, s.len() as int);
    s.subrange(start, end)
}

/// `skip_whitespace` stays in range, stops on a character that is not
/// whitespace and passes over whitespace only.
pub proof fn lemma_skip_whitespace(s: Seq<char>, start: int)
    requires
        0 <= start <= s.len(),
    ensures
        start <= skip_whitespace(s, start) <= s.len(),
        skip_whitespace(s, start) < s.len() ==> !is_whitespace(s[skip_whitespace(s, start)]),
        forall|j: int| start <= j < skip_whitespace(s, start) ==> is_whitespace(s[j]),
    decreases s.len() - start,
{
    if start < s.len() && is_whitespace(s[start]) {
        lemma_skip_whitespace(s, start + 1);
    }
}

/// `drop_whitespace` stays in range, stops after a character that is not
/// whitespace and passes over whitespace only.
pub proof fn lemma_drop_whitespace(s: Seq<char>, floor: int, end: int)
    requires
        0 <= floor <= end <= s.len(),
    ensures
        floor <= drop_whitespace(s, floor, end) <= end,
        drop_whitespace(s, floor, end) > floor ==> !is_whitespace(
            s[drop_whitespace(s, floor, end) - 1],
        ),
        forall|j: int| drop_whitespace(s, floor, end) <= j < end ==> is_whitespace(s[j]),
    decreases end - floor,
{
    if end > floor && is_whitespace(s[end - 1]) {
        lemma_drop_whitespace(s, floor, end - 1);
    }
}

/// Trimming a trimmed text changes nothing.
pub proof fn lemma_trim_idempotent(s: Seq<char>)
    ensures
        trim_spec(trim_spec(s)) == trim_spec(s),
{
    let start = skip_whitespace(s, 0);
    let end = drop_whitespace(s, start, s.len() as int);
    lemma_skip_whitespace(s, 0);
    lemma_drop_whitespace(s, start, s.len() as int);
    let t = s.subrange(start, end);
    lemma_skip_whitespace(t, 0);
    if t.len() > 0 {
        assert(t[0] == s[start]);
        assert(skip_whitespace(t, 0) == 0);
        assert(t[t.len() - 1] == s[end - 1]);
        assert(drop_whitespace(t, 0, t.len() as int) == t.len());
    } else {
        assert(skip_whitespace(t, 0) == 0);
        assert(drop_whitespace(t, 0, 0) == 0);
    }
    assert(t.subrange(0, t.len() as int) =~= t);
}

/// The decimal digit for a value below ten.
pub open spec fn digit_char(d: int) -> char {
    if d == 0 {
        '0'
    } else if d == 1 {
        '1'
    } else if d == 2 {
        '2'
    } else if d == 3 {
        '3'
    } else if d == 4 {
        '4'
    } else if d == 5 {
        '5'
    } else if d == 6 {
        '6'
    } else if d == 7 {
        '7'
    } else if d == 8 {
        '8'
    } else {
        '9'
    }
}

/// The decimal numeral of `n`, without sign or leading zeros.
pub open spec fn decimal(n: nat) -> Seq<char>
    decreases n,
{
    if n < 10 {
        seq![digit_char(n as int)]
    } else {
        decimal(n / 10).push(digit_char((n % 10) as int))
    }
}

/// The characters of `s`, in order.
pub fn to_chars(s: &str) -> (chars: Vec<char>)
    ensures
        chars@ == s@,
{
    let mut chars: Vec<char> = Vec::new();
    for c in it: s.chars()
        invariant
            chars@ == it.seq().take(it.index() as int),
            it.seq() == s@,
    {
        chars.push(c);
    }
    chars
}

/// At most the first `count` characters of `s`.
pub fn leading_chars(s: &str, count: usize) -> (chars: Vec<char>)
    ensures
        chars@ == s@.take(
            if count <= s@.len() {
                count as int
            } else {
                s@.len() as int
            },
        ),
{
    let mut chars: Vec<char> = Vec::new();
    let mut it = s.chars();
    let mut exhausted = false;
    while !exhausted && chars.len() < count
        invariant
            chars@.len() <= count,
            chars@ + it.remaining() == s@,
            exhausted ==> it.remaining().len() == 0,
        decreases
                (if exhausted {
                    0int
                } else {
                    1int
                }),
                count - chars@.len(),
    {
        match it.next() {
            Some(c) => {
                chars.push(c);
                assert(chars@ + it.remaining() =~= s@);
            },
            None => {
                exhausted = true;
            },
        }
    }
    assert(chars@ =~= s@.take(
        if count <= s@.len() {
            count as int
        } else {
            s@.len() as int
        },
    ));
    chars
}

/// Folds an ASCII capital letter to lower case.
pub fn to_ascii_lower(c: char) -> (r: char)
    ensures
        r == ascii_lower(c),
{
    if 'A' <= c && c <= 'Z' {
        ((c as u8) + 32) as char
    } else {
        c
    }
}

/// Whether two character slices are equal.
pub fn chars_equal(a: &[char], b: &[char]) -> (r: bool)
    ensures
        r == (a@ == b@),
{
    if a.len() != b.len() {
        return false;
    }
    let mut i: usize = 0;
    while i < a.len()
        invariant
            a@.len() == b@.len(),
            i <= a@.len(),
            forall|j: int| 0 <= j < i ==> a@[j] == b@[j],
        decreases a@.len() - i,
    {
        if a[i] != b[i] {
            return false;
        }
        i += 1;
    }
    assert(a@ =~= b@);
    true
}

/// Whether the characters in `chars` spell `text`.
pub fn chars_spell(chars: &[char], text: &str) -> (r: bool)
    ensures
        r == (chars@ == text@),
{
    let other = to_chars(text);
    chars_equal(chars, other.as_slice())
}

/// Whether two texts are equal.
pub fn text_equal(a: &str, b: &str) -> (r: bool)
    ensures
        r == (a@ == b@),
{
    let x = to_chars(a);
    chars_spell(x.as_slice(), b)
}

/// Whether `input` begins with `prefix`, ignoring the case of ASCII letters.
pub fn has_prefix(input: &str, prefix: &str) -> (r: bool)
    ensures
        r == has_prefix_spec(input@, prefix@),
{
    let pattern = to_chars(prefix);
    let head = leading_chars(input, pattern.len());
    if head.len() < pattern.len() {
        return false;
    }
    let mut i: usize = 0;
    while i < pattern.len()
        invariant
            head@ == input@.take(pattern@.len() as int),
            head@.len() == pattern@.len(),
            pattern@ == prefix@,
            i <= pattern@.len(),
            forall|j: int| 0 <= j < i ==> ascii_lower(#[trigger] head@[j]) == ascii_lower(pattern@[j]),
        decreases pattern@.len() - i,
    {
        if to_ascii_lower(head[i]) != to_ascii_lower(pattern[i]) {
            return false;
        }
        i += 1;
    }
    true
}

/// The index of the first `c` at or after `start`, or the length of `chars`.
pub fn find_from(chars: &[char], c: char, start: usize) -> (at: usize)
    requires
        start <= chars@.len(),
    ensures
        at == find_char_from(chars@, c, start as int),
        start <= at <= chars@.len(),
{
    let mut i: usize = start;
    while i < chars.len()
        invariant
            start <= i <= chars@.len(),
            find_char_from(chars@, c, start as int) == find_char_from(chars@, c, i as int),
        decreases chars@.len() - i,
    {
        if chars[i] == c {
            return i;
        }
        i += 1;
    }
    i
}

/// Whether `pattern` occurs in `chars` at offset `at`.
pub fn chars_occur_at(chars: &[char], pattern: &[char], at: usize) -> (r: bool)
    ensures
        r == occurs_at(chars@, pattern@, at as int),
{
    if at > chars.len() || chars.len() - at < pattern.len() {
        return false;
    }
    let mut i: usize = 0;
    while i < pattern.len()
        invariant
            at + pattern@.len() <= chars@.len() <= usize::MAX,
            i <= pattern@.len(),
            forall|j: int| 0 <= j < i ==> chars@[at + j] == pattern@[j],
        decreases pattern@.len() - i,
    {
        if chars[at + i] != pattern[i] {
            assert(chars@.subrange(at as int, at + pattern@.len())[i as int] != pattern@[i as int]);
            return false;
        }
        i += 1;
    }
    assert(chars@.subrange(at as int, at + pattern@.len()) =~= pattern@);
    true
}

/// Whether `chars` ends with exactly `suffix`.
pub fn chars_end_with(chars: &[char], suffix: &[char]) -> (r: bool)
    ensures
        r == ends_with(chars@, suffix@),
{
    if chars.len() < suffix.len() {
        return false;
    }
    let at = chars.len() - suffix.len();
    let r = chars_occur_at(chars, suffix, at);
    assert(chars@.skip(at as int) =~= chars@.subrange(at as int, at + suffix@.len()));
    r
}

/// Whether `pattern` occurs anywhere in `chars`.
pub fn chars_contain(chars: &[char], pattern: &[char]) -> (r: bool)
    ensures
        r == contains_text(chars@, pattern@),
{
    if chars.len() < pattern.len() {
        return false;
    }
    let last = chars.len() - pattern.len();
    let mut at: usize = 0;
    loop
        invariant
            last == chars@.len() - pattern@.len(),
            at <= last,
            forall|j: int| 0 <= j < at ==> !occurs_at(chars@, pattern@, j),
        decreases last - at,
    {
        if chars_occur_at(chars, pattern, at) {
            return true;
        }
        if at == last {
            return false;
        }
        at += 1;
    }
}

/// Whether `input` begins with exactly `prefix`.
pub fn text_starts_with(input: &str, prefix: &str) -> (r: bool)
    ensures
        r == starts_with(input@, prefix@),
{
    let pattern = to_chars(prefix);
    let head = leading_chars(input, pattern.len());
    let r = chars_equal(head.as_slice(), pattern.as_slice());
    proof {
        if prefix@.len() <= input@.len() {
            assert(head@ == input@.take(prefix@.len() as int));
        } else {
            assert(head@.len() < pattern@.len());
        }
    }
    r
}

/// Whether `input` ends with exactly `suffix`.
pub fn text_ends_with(input: &str, suffix: &str) -> (r: bool)
    ensures
        r == ends_with(input@, suffix@),
{
    let chars = to_chars(input);
    let pattern = to_chars(suffix);
    chars_end_with(chars.as_slice(), pattern.as_slice())
}

/// Whether `pattern` occurs anywhere in `input`.
pub fn text_contains(input: &str, pattern: &str) -> (r: bool)
    ensures
        r == contains_text(input@, pattern@),
{
    let chars = to_chars(input);
    let wanted = to_chars(pattern);
    chars_contain(chars.as_slice(), wanted.as_slice())
}

/// The index of the first `c` in `input`, or the number of characters of
/// `input` when it holds none.
pub fn text_find(input: &str, c: char) -> (at: usize)
    ensures
        at == find_char(input@, c),
        at <= input@.len(),
{
    let chars = to_chars(input);
    find_from(chars.as_slice(), c, 0)
}

/// The characters of `input` before index `end`.
pub fn text_take(input: &str, end: usize) -> (r: &str)
    requires
        end <= input@.len(),
    ensures
        r@ == input@.take(end as int),
{
    let r = input.substring_char(0, end);
    assert(input@.subrange(0, end as int) =~= input@.take(end as int));
    r
}

/// The characters of `input` from index `start` on.
pub fn text_skip(input: &str, start: usize) -> (r: &str)
    requires
        start <= input@.len(),
    ensures
        r@ == input@.skip(start as int),
{
    let len = input.unicode_len();
    let r = input.substring_char(start, len);
    assert(input@.subrange(start as int, len as int) =~= input@.skip(start as int));
    r
}

/// Whether `c` is whitespace.
pub fn is_whitespace_char(c: char) -> (r: bool)
    ensures
        r == is_whitespace(c),
{
    let u = c as u32;
    (0x09 <= u && u <= 0x0D) || u == 0x20 || u == 0x85 || u == 0xA0 || u == 0x1680 || (0x2000 <= u
        && u <= 0x200A) || u == 0x2028 || u == 0x2029 || u == 0x202F || u == 0x205F || u == 0x3000
}

/// `input` without its leading and trailing whitespace.
pub fn trim(input: &str) -> (r: String)
    ensures
        r@ == trim_spec(input@),
{
    let chars = to_chars(input);
    let mut start: usize = 0;
    while start < chars.len() && is_whitespace_char(chars[start])
        invariant
            start <= chars@.len(),
            skip_whitespace(chars@, 0) == skip_whitespace(chars@, start as int),
        decreases chars@.len() - start,
    {
        start += 1;
    }
    let mut end: usize = chars.len();
    while end > start && is_whitespace_char(chars[end - 1])
        invariant
            start <= end <= chars@.len(),
            drop_whitespace(chars@, start as int, chars@.len() as int) == drop_whitespace(
                chars@,
                start as int,
                end as int,
            ),
        decreases end - start,
    {
        end -= 1;
    }
    input.substring_char(start, end).to_owned()
}

/// The numeral for one decimal digit.
fn digit_text(d: u64) -> (r: &'static str)
    requires
        d < 10,
    ensures
        r@ == seq![digit_char(d as int)],
{
    proof {
        reveal_strlit("0");
        reveal_strlit("1");
        reveal_strlit("2");
        reveal_strlit("3");
        reveal_strlit("4");
        reveal_strlit("5");
        reveal_strlit("6");
        reveal_strlit("7");
        reveal_strlit("8");
        reveal_strlit("9");
    }
    let r = if d == 0 {
        "0"
    } else if d == 1 {
        "1"
    } else if d == 2 {
        "2"
    } else if d == 3 {
        "3"
    } else if d == 4 {
        "4"
    } else if d == 5 {
        "5"
    } else if d == 6 {
        "6"
    } else if d == 7 {
        "7"
    } else if d == 8 {
        "8"
    } else {
        "9"
    };
    assert(r@ =~= seq![digit_char(d as int)]);
    r
}

/// The decimal numeral of `n`.
pub fn to_decimal(n: u64) -> (r: String)
    ensures
        r@ == decimal(n as nat),
    decreases n,
{
    if n < 10 {
        digit_text(n).to_owned()
    } else {
        let mut head = to_decimal(n / 10);
        head.append(digit_text(n % 10));
        assert(head@ =~= decimal((n / 10) as nat).push(digit_char((n % 10) as int)));
        head
    }
}

} // verus!
