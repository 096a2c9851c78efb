//! Small operations on text.

use vstd::prelude::*;

verus! {

/// The characters of `s`, in order.
pub fn to_chars(s: &str) -> (r: Vec<char>)
    ensures
        r@ == s@,
{
    let mut out: Vec<char> = Vec::new();
    for c in iter: s.chars()
        invariant
            iter.seq() == s@,
            out@ == iter.seq().take(iter.index() as int),
    {
        out.push(c);
    }
    out
}

/// Whether two texts are the same: of the same length, with the same
/// character at each place.
pub(crate) fn str_eq(a: &str, b: &str) -> (r: bool)
    ensures
        r == (a@ == b@),
{
    let one = to_chars(a);
    let two = to_chars(b);
    if one.len() != two.len() {
        return false;
    }
    let mut i: usize = 0;
    while i < one.len()
        invariant
            i <= one.len(),
            one@.len() == two@.len(),
            one@ == a@,
            two@ == b@,
            forall|k: int| 0 <= k < i ==> one@[k] == two@[k],
        decreases one.len() - i,
    {
        if one[i] != two[i] {
            assert(a@[i as int] != b@[i as int]);
            return false;
        }
        i = i + 1;
    }
    assert(a@ =~= b@);
    true
}

/// The text made of `chars`. States what std documents of collecting
/// characters into a `String`: the characters, in order.
#[verifier::external_body]
pub(crate) fn string_from_chars(chars: &Vec<char>) -> (r: String)
    ensures
        r@ == chars@,
{
    chars.iter().collect()
}

/// `a` followed by `b`.
pub fn concat(a: &str, b: &str) -> (r: String)
    ensures
        r@ == a@ + b@,
{
    let mut r = String::from_str(a);
    r.append(b);
    r
}

/// The character that stands for a decimal digit.
pub open spec fn digit_char(d: nat) -> char {
    if d == 0 {
        '0'
    } else if d == 1 {
        '1'
    } else if d == 2 {
        '2'
    } else if d == 3 {
        '3'
    } else if d == 4 {
        '4'
    } else if d == 5 {
        '5'
    } else if d == 6 {
        '6'
    } else if d == 7 {
        '7'
    } else if d == 8 {
        '8'
    } else {
        '9'
    }
}

/// The decimal form of a number: no sign, no leading zero but for zero itself.
pub open spec fn decimal_text(n: nat) -> Seq<char>
    decreases n,
{
    if n < 10 {
        seq![digit_char(n)]
    } else {
        decimal_text(n / 10).push(digit_char(n % 10))
    }
}

/// The character that stands for the decimal digit `d`.
fn digit(d: u64) -> (r: char)
    requires
        d < 10,
    ensures
        r == digit_char(d as nat),
{
    if d == 0 {
        '0'
    } else if d == 1 {
        '1'
    } else if d == 2 {
        '2'
    } else if d == 3 {
        '3'
    } else if d == 4 {
        '4'
    } else if d == 5 {
        '5'
    } else if d == 6 {
        '6'
    } else if d == 7 {
        '7'
    } else if d == 8 {
        '8'
    } else {
        '9'
    }
}

/// The digits of the decimal form of `n`.
fn decimal_digits(n: u64) -> (r: Vec<char>)
    ensures
        r@ == decimal_text(n as nat),
    decreases n,
{
    if n < 10 {
        let mut digits: Vec<char> = Vec::new();
        digits.push(digit(n));
        assert(digits@ =~= seq![digit_char(n as nat)]);
        digits
    } else {
        let mut digits = decimal_digits(n / 10);
        digits.push(digit(n % 10));
        digits
    }
}

/// The decimal form of `n`.
pub(crate) fn decimal(n: u64) -> (r: String)
    ensures
        r@ == decimal_text(n as nat),
{
    let digits = decimal_digits(n);
    string_from_chars(&digits)
}

/// The decimal form of a number is made of digits and is not empty.
pub proof fn lemma_decimal_text(n: nat)
    ensures
        decimal_text(n).len() >= 1,
        forall|i: int|
            0 <= i < decimal_text(n).len() ==> 0x30 <= (#[trigger] decimal_text(n)[i]) as u32
                <= 0x39,
    decreases n,
{
    if n >= 10 {
        lemma_decimal_text(n / 10);
    }
}

/// Whether `c` is white space: a character with the Unicode property
/// `White_Space`.
pub open spec fn is_whitespace(c: char) -> bool {
    let u = c as u32;
    ||| 0x09 <= u <= 0x0d
    ||| u == 0x20
    ||| u == 0x85
    ||| u == 0xa0
    ||| u == 0x1680
    ||| 0x2000 <= u <= 0x200a
    ||| u == 0x2028
    ||| u == 0x2029
    ||| u == 0x202f
    ||| u == 0x205f
    ||| u == 0x3000
}

/// Whether `c` is white space.
pub fn char_is_whitespace(c: char) -> (r: bool)
    ensures
        r == is_whitespace(c),
{
    let u: u32 = c as u32;
    (0x09 <= u && u <= 0x0d) || u == 0x20 || u == 0x85 || u == 0xa0 || u == 0x1680 || (0x2000 <= u
        && u <= 0x200a) || u == 0x2028 || u == 0x2029 || u == 0x202f || u == 0x205f || u == 0x3000
}

/// Where the text starts once leading white space is left out: the index of
/// the first character that is not white space, or the length.
pub open spec fn trim_start_index(s: Seq<char>) -> int
    decreases s.len(),
{
    if s.len() > 0 && is_whitespace(s[0]) {
        1 + trim_start_index(s.drop_first())
    } else {
        0
    }
}

/// Where the text ends once trailing white space is left out: one past the
/// index of the last character that is not white space, or zero.
pub open spec fn trim_end_index(s: Seq<char>) -> int
    decreases s.len(),
{
    if s.len() > 0 && is_whitespace(s.last()) {
        trim_end_index(s.drop_last())
    } else {
        s.len() as int
    }
}

/// The text without its leading and trailing white space.
pub open spec fn trimmed(s: Seq<char>) -> Seq<char> {
    let end = trim_end_index(s);
    let start = trim_start_index(s.take(end));
    s.subrange(start, end)
}

/// [`trim_end_index`] stays inside the text.
proof fn lemma_trim_end_bound(s: Seq<char>)
    ensures
        0 <= trim_end_index(s) <= s.len(),
    decreases s.len(),
{
    if s.len() > 0 && is_whitespace(s.last()) {
        lemma_trim_end_bound(s.drop_last());
    }
}

/// [`trim_start_index`] stays inside the text.
proof fn lemma_trim_start_bound(s: Seq<char>)
    ensures
        0 <= trim_start_index(s) <= s.len(),
    decreases s.len(),
{
    if s.len() > 0 && is_whitespace(s[0]) {
        lemma_trim_start_bound(s.drop_first());
    }
}

/// What [`trim_start_index`] is, said without recursion: everything before it
/// is white space and the character at it, if there is one, is not.
pub proof fn lemma_trim_start_is(s: Seq<char>, k: int)
    requires
        0 <= k <= s.len(),
        forall|i: int| 0 <= i < k ==> is_whitespace(#[trigger] s[i]),
        k < s.len() ==> !is_whitespace(s[k]),
    ensures
        trim_start_index(s) == k,
    decreases s.len(),
{
    if k > 0 {
        let t = s.drop_first();
        lemma_trim_start_is(t, k - 1);
    }
}

/// What [`trim_end_index`] is, said without recursion.
pub proof fn lemma_trim_end_is(s: Seq<char>, k: int)
    requires
        0 <= k <= s.len(),
        forall|i: int| k <= i < s.len() ==> is_whitespace(#[trigger] s[i]),
        k > 0 ==> !is_whitespace(s[k - 1]),
    ensures
        trim_end_index(s) == k,
    decreases s.len(),
{
    if k < s.len() {
        let t = s.drop_last();
        lemma_trim_end_is(t, k);
    }
}

/// The bounds of the text between leading and trailing white space.
pub fn trim_bounds(chars: &Vec<char>) -> (r: (usize, usize))
    ensures
        r.1 == trim_end_index(chars@),
        r.0 == trim_start_index(chars@.take(r.1 as int)),
        r.0 <= r.1 <= chars.len(),
        chars@.subrange(r.0 as int, r.1 as int) == trimmed(chars@),
{
    let mut end: usize = chars.len();
    while end > 0 && char_is_whitespace(chars[end - 1])
        invariant
            end <= chars.len(),
            forall|i: int| end <= i < chars.len() ==> is_whitespace(#[trigger] chars@[i]),
        decreases end,
    {
        end = end - 1;
    }
    proof {
        lemma_trim_end_is(chars@, end as int);
    }
    let mut start: usize = 0;
    while start < end && char_is_whitespace(chars[start])
        invariant
            start <= end <= chars.len(),
            forall|i: int| 0 <= i < start ==> is_whitespace(#[trigger] chars@[i]),
        decreases end - start,
    {
        start = start + 1;
    }
    proof {
        let head = chars@.take(end as int);
        lemma_trim_start_is(head, start as int);
    }
    (start, end)
}

/// The text without its leading and trailing white space.
pub fn trim(s: &str) -> (r: String)
    ensures
        r@ == trimmed(s@),
{
    let chars = to_chars(s);
    let (start, end) = trim_bounds(&chars);
    String::from_str(s.substring_char(start, end))
}

/// The index of the first `c` in `chars` at or after `from`, or the length
/// of `chars` where there is none.
pub open spec fn find_from(chars: Seq<char>, c: char, from: int) -> int
    decreases chars.len() - from,
{
    if from < 0 || from >= chars.len() {
        chars.len() as int
    } else if chars[from] == c {
        from
    } else {
        find_from(chars, c, from + 1)
    }
}

/// What [`find_from`] is, said without recursion.
pub proof fn lemma_find_from(chars: Seq<char>, c: char, from: int)
    requires
        0 <= from <= chars.len(),
    ensures
        from <= find_from(chars, c, from) <= chars.len(),
        forall|i: int| from <= i < find_from(chars, c, from) ==> chars[i] != c,
        find_from(chars, c, from) < chars.len() ==> chars[find_from(chars, c, from)] == c,
    decreases chars.len() - from,
{
    if from < chars.len() && chars[from] != c {
        lemma_find_from(chars, c, from + 1);
    }
}

/// The index of the first `c` in `chars` at or after `from`, or the length
/// of `chars` where there is none.
pub(crate) fn find_char(chars: &Vec<char>, c: char, from: usize) -> (r: usize)
    requires
        from <= chars.len(),
    ensures
        r == find_from(chars@, c, from as int),
        from <= r <= chars.len(),
{
    let mut i: usize = from;
    while i < chars.len() && chars[i] != c
        invariant
            from <= i <= chars.len(),
            find_from(chars@, c, from as int) == find_from(chars@, c, i as int),
        decreases chars.len() - i,
    {
        i = i + 1;
    }
    proof {
        lemma_find_from(chars@, c, i as int);
    }
    i
}

/// The text made of `chars[from..to]`.
pub(crate) fn slice_to_string(s: &str, from: usize, to: usize) -> (r: String)
    requires
        from <= to <= s@.len(),
    ensures
        r@ == s@.subrange(from as int, to as int),
{
    String::from_str(s.substring_char(from, to))
}

/// The texts of `parts` written one after the other with `separator` between
/// each two.
pub open spec fn spec_join(parts: Seq<Seq<char>>, separator: Seq<char>) -> Seq<char>
    decreases parts.len(),
{
    if parts.len() == 0 {
        Seq::<char>::empty()
    } else if parts.len() == 1 {
        parts[0]
    } else {
        spec_join(parts.drop_last(), separator) + separator + parts.last()
    }
}

/// The texts of `parts` written one after the other with `separator` between
/// each two.
pub fn join(parts: &Vec<String>, separator: &str) -> (r: String)
    ensures
        r@ == spec_join(parts.deep_view(), separator@),
{
    let mut out = String::from_str("");
    proof {
        reveal_strlit("");
    }
    let mut i: usize = 0;
    while i < parts.len()
        invariant
            i <= parts.len(),
            out@ == spec_join(parts.deep_view().take(i as int), separator@),
        decreases parts.len() - i,
    {
        let ghost all = parts.deep_view();
        proof {
            assert(all.take(i + 1).drop_last() =~= all.take(i as int));
        }
        if i > 0 {
            out.append(separator);
        }
        out.append(parts[i].as_str());
        i = i + 1;
    }
    proof {
        assert(parts.deep_view().take(parts@.len() as int) =~= parts.deep_view());
    }
    out
}

/// Whether `text` starts with `prefix`.
pub open spec fn spec_starts_with(text: Seq<char>, prefix: Seq<char>) -> bool {
    prefix.len() <= text.len() && text.take(prefix.len() as int) == prefix
}

/// Whether `pattern` occurs in `text`.
pub open spec fn spec_contains(text: Seq<char>, pattern: Seq<char>) -> bool {
    exists|i: int|
        0 <= i && i + pattern.len() <= text.len() && #[trigger] text.subrange(
            i,
            i + pattern.len(),
        ) == pattern
}

/// Whether `pattern` stands in `text` at the index `at`.
pub(crate) fn matches_at(text: &Vec<char>, pattern: &Vec<char>, at: usize) -> (r: bool)
    requires
        at + pattern.len() <= text.len(),
    ensures
        r == (text@.subrange(at as int, at + pattern.len()) == pattern@),
{
    let mut j: usize = 0;
    while j < pattern.len()
        invariant
            j <= pattern.len(),
            at + pattern.len() <= text.len(),
            forall|k: int| 0 <= k < j ==> text@[at + k] == pattern@[k],
        decreases pattern.len() - j,
    {
        if text[at + j] != pattern[j] {
            return false;
        }
        j = j + 1;
    }
    assert(text@.subrange(at as int, at + pattern.len()) =~= pattern@);
    true
}

/// Whether `pattern` occurs in `text`.
pub fn contains(text: &str, pattern: &str) -> (r: bool)
    ensures
        r == spec_contains(text@, pattern@),
{
    let chars = to_chars(text);
    let wanted = to_chars(pattern);
    if wanted.len() > chars.len() {
        return false;
    }
    let last = chars.len() - wanted.len();
    let mut i: usize = 0;
    loop
        invariant
            i <= last,
            last + wanted.len() == chars.len(),
            chars@ == text@,
            wanted@ == pattern@,
            forall|k: int|
                0 <= k < i ==> #[trigger] chars@.subrange(k, k + wanted.len()) != wanted@,
        decreases last - i,
    {
        if matches_at(&chars, &wanted, i) {
            return true;
        }
        if i == last {
            return false;
        }
        i = i + 1;
    }
}

/// Whether `text` is one of `list`.
pub fn string_in(list: &Vec<String>, text: &str) -> (r: bool)
    ensures
        r == list.deep_view().contains(text@),
{
    let mut i: usize = 0;
    while i < list.len()
        invariant
            i <= list.len(),
            forall|j: int| 0 <= j < i ==> list@[j]@ != text@,
        decreases list.len() - i,
    {
        if str_eq(list[i].as_str(), text) {
            assert(list.deep_view()[i as int] == text@);
            return true;
        }
        i = i + 1;
    }
    false
}

/// [`find_from`] gives the one index at which the first `c` from `from` on
/// stands.
pub proof fn lemma_find_from_is(chars: Seq<char>, c: char, from: int, k: int)
    requires
        0 <= from <= k <= chars.len(),
        forall|i: int| from <= i < k ==> chars[i] != c,
        k < chars.len() ==> chars[k] == c,
    ensures
        find_from(chars, c, from) == k,
    decreases k - from,
{
    if from < k {
        lemma_find_from_is(chars, c, from + 1, k);
    }
}

/// Searching from `from` on is searching what is left when the first `from`
/// characters are skipped.
pub proof fn lemma_find_in_rest(chars: Seq<char>, c: char, from: int)
    requires
        0 <= from <= chars.len(),
    ensures
        find_from(chars.skip(from), c, 0) + from == find_from(chars, c, from),
{
    let k = find_from(chars, c, from);
    lemma_find_from(chars, c, from);
    let rest = chars.skip(from);
    lemma_find_from_is(rest, c, 0, k - from);
}

/// The pieces of a text between the occurrences of `c`: one more piece than
/// there are occurrences, empty pieces counted.
pub open spec fn spec_split(s: Seq<char>, c: char) -> Seq<Seq<char>>
    decreases s.len(),
{
    let at = find_from(s, c, 0);
    if 0 <= at < s.len() {
        seq![s.take(at)] + spec_split(s.skip(at + 1), c)
    } else {
        seq![s]
    }
}

/// The pieces of a text between the occurrences of `c`.
pub fn split(s: &str, c: char) -> (r: Vec<String>)
    ensures
        r.deep_view() == spec_split(s@, c),
        r@.len() >= 1,
{
    let chars = to_chars(s);
    let mut out: Vec<String> = Vec::new();
    let mut start: usize = 0;
    assert(s@.skip(0) =~= s@);
    loop
        invariant
            chars@ == s@,
            start <= chars.len(),
            spec_split(s@, c) == out.deep_view() + spec_split(s@.skip(start as int), c),
        decreases chars.len() - start,
    {
        let at = find_char(&chars, c, start);
        let ghost rest = s@.skip(start as int);
        proof {
            lemma_find_in_rest(s@, c, start as int);
            lemma_find_from(s@, c, start as int);
        }
        out.push(slice_to_string(s, start, at));
        proof {
            assert(s@.subrange(start as int, at as int) =~= rest.take(at - start));
        }
        if at == chars.len() {
            return out;
        }
        proof {
            assert(rest.skip(at - start + 1) =~= s@.skip(at + 1));
        }
        start = at + 1;
    }
}

/// The two parts of a text around the first `c` in it, and `None` where there
/// is no `c`.
pub open spec fn spec_split_once(s: Seq<char>, c: char) -> Option<(Seq<char>, Seq<char>)> {
    let at = find_from(s, c, 0);
    if 0 <= at < s.len() {
        Some((s.take(at), s.skip(at + 1)))
    } else {
        None
    }
}

/// The two parts of a text around the first `c` in it.
pub fn split_once(s: &str, c: char) -> (r: Option<(String, String)>)
    ensures
        (match r {
            Some((head, tail)) => Some((head@, tail@)),
            None => None,
        }) == spec_split_once(s@, c),
{
    let chars = to_chars(s);
    let at = find_char(&chars, c, 0);
    if at < chars.len() {
        let head = slice_to_string(s, 0, at);
        let tail = slice_to_string(s, at + 1, chars.len());
        Some((head, tail))
    } else {
        None
    }
}

} // verus!
