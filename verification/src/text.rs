//! Character sequences: conversions between strings and vectors of characters,
//! and the scanning primitives that the parsers are built from.

use vstd::prelude::*;

verus! {

/// `String::push` of the standard library appends the character to the end of
/// the string and leaves the rest as it was.
pub assume_specification[ String::push ](s: &mut String, c: char)
    ensures
        final(s)@ == old(s)@.push(c),
;

/// The characters of `s`, in order.
pub fn chars_of(s: &str) -> (out: Vec<char>)
    ensures
        out@ == s@,
{
    broadcast use vstd::string::group_string_axioms;

    let mut out: Vec<char> = Vec::new();
    for c in it: s.chars()
        invariant
            it.seq() == s@,
            out@ == s@.take(it.index()),
    {
        out.push(c);
    }
    out
}

/// Appends the characters of `v` to `out`.
pub fn push_chars(out: &mut String, v: &Vec<char>)
    ensures
        final(out)@ == old(out)@ + v@,
{
    let mut i: usize = 0;
    while i < v.len()
        invariant
            i <= v.len(),
            out@ == old(out)@ + v@.take(i as int),
        decreases v.len() - i,
    {
        out.push(v[i]);
        i = i + 1;
    }
}

/// The string made of the characters of `v`.
pub fn string_of(v: &Vec<char>) -> (out: String)
    ensures
        out@ == v@,
{
    let mut out = String::new();
    push_chars(&mut out, v);
    out
}

/// True for the characters that Unicode gives the property `White_Space`.
pub open spec fn is_whitespace(c: char) -> bool {
    let u = c as u32;
    ||| 0x09 <= u <= 0x0D
    ||| u == 0x20
    ||| u == 0x85
    ||| u == 0xA0
    ||| u == 0x1680
    ||| 0x2000 <= u <= 0x200A
    ||| u == 0x2028
    ||| u == 0x2029
    ||| u == 0x202F
    ||| u == 0x205F
    ||| u == 0x3000
}

/// True if `c` is white space.
pub fn is_whitespace_char(c: char) -> (w: bool)
    ensures
        w == is_whitespace(c),
{
    let u: u32 = c as u32;
    (0x09 <= u && u <= 0x0D) || u == 0x20 || u == 0x85 || u == 0xA0 || u == 0x1680 || (0x2000 <= u
        && u <= 0x200A) || u == 0x2028 || u == 0x2029 || u == 0x202F || u == 0x205F || u
        == 0x3000
}

/// A set of characters that a scan can run over.
#[derive(Clone, Copy, Debug, PartialEq, Eq, Structural)]
pub enum CharClass {
    /// White space.
    Whitespace,
    /// Everything but white space.
    NotWhitespace,
    /// The one character given.
    Only(char),
    /// Everything but the character given.
    Except(char),
}

impl CharClass {
    /// True if `c` belongs to the class.
    pub open spec fn holds(self, c: char) -> bool {
        match self {
            CharClass::Whitespace => is_whitespace(c),
            CharClass::NotWhitespace => !is_whitespace(c),
            CharClass::Only(x) => c == x,
            CharClass::Except(x) => c != x,
        }
    }

    /// True if `c` belongs to the class.
    pub fn test(&self, c: char) -> (b: bool)
        ensures
            b == self.holds(c),
    {
        match self {
            CharClass::Whitespace => is_whitespace_char(c),
            CharClass::NotWhitespace => !is_whitespace_char(c),
            CharClass::Only(x) => c == *x,
            CharClass::Except(x) => c != *x,
        }
    }
}

/// The length of the longest run of characters of `class` that `s` starts with.
pub open spec fn leading(s: Seq<char>, class: CharClass) -> nat
    decreases s.len(),
{
    if s.len() > 0 && class.holds(s[0]) {
        1 + leading(s.drop_first(), class)
    } else {
        0
    }
}

/// The length of the longest run of characters of `class` that `s` ends with.
pub open spec fn trailing(s: Seq<char>, class: CharClass) -> nat
    decreases s.len(),
{
    if s.len() > 0 && class.holds(s.last()) {
        1 + trailing(s.drop_last(), class)
    } else {
        0
    }
}

/// True if `n` characters of `class` open `s` and the next one, if any, is not
/// of `class`.
pub open spec fn is_leading_run(s: Seq<char>, class: CharClass, n: int) -> bool {
    &&& 0 <= n <= s.len()
    &&& forall|i: int| 0 <= i < n ==> class.holds(#[trigger] s[i])
    &&& n < s.len() ==> !class.holds(s[n])
}

/// True if `n` characters of `class` close `s` and the one before them, if
/// any, is not of `class`.
pub open spec fn is_trailing_run(s: Seq<char>, class: CharClass, n: int) -> bool {
    &&& 0 <= n <= s.len()
    &&& forall|i: int| s.len() - n <= i < s.len() ==> class.holds(#[trigger] s[i])
    &&& n < s.len() ==> !class.holds(s[s.len() - n - 1])
}

/// `leading` is the one length that [`is_leading_run`] admits.
pub proof fn lemma_leading_run(s: Seq<char>, class: CharClass, n: int)
    ensures
        is_leading_run(s, class, leading(s, class) as int),
        is_leading_run(s, class, n) ==> n == leading(s, class),
    decreases s.len(),
{
    if s.len() > 0 && class.holds(s[0]) {
        let rest = s.drop_first();
        lemma_leading_run(rest, class, n - 1);
        let m = leading(rest, class) as int;
        assert forall|i: int| 0 <= i < m + 1 implies class.holds(#[trigger] s[i]) by {
            if i > 0 {
                assert(s[i] == rest[i - 1]);
            }
        }
    }
}

/// `trailing` is the one length that [`is_trailing_run`] admits.
pub proof fn lemma_trailing_run(s: Seq<char>, class: CharClass, n: int)
    ensures
        is_trailing_run(s, class, trailing(s, class) as int),
        is_trailing_run(s, class, n) ==> n == trailing(s, class),
    decreases s.len(),
{
    if s.len() > 0 && class.holds(s.last()) {
        let rest = s.drop_last();
        lemma_trailing_run(rest, class, n - 1);
        let m = trailing(rest, class) as int;
        assert forall|i: int| s.len() - (m + 1) <= i < s.len() implies class.holds(
            #[trigger] s[i],
        ) by {
            if i < s.len() - 1 {
                assert(s[i] == rest[i]);
            }
        }
    }
}

/// Counts the characters of `class` that open `v[from..to]`.
pub(crate) fn count_leading(v: &Vec<char>, from: usize, to: usize, class: CharClass) -> (n: usize)
    requires
        from <= to <= v.len(),
    ensures
        n == leading(v@.subrange(from as int, to as int), class),
        from + n <= to,
{
    let ghost s = v@.subrange(from as int, to as int);
    let mut i: usize = from;
    while i < to && class.test(v[i])
        invariant
            from <= i <= to <= v.len(),
            s == v@.subrange(from as int, to as int),
            forall|j: int| 0 <= j < i - from ==> class.holds(#[trigger] s[j]),
        decreases to - i,
    {
        i = i + 1;
    }
    proof {
        lemma_leading_run(s, class, i - from);
    }
    i - from
}

/// Counts the characters of `class` that close `v[from..to]`.
pub(crate) fn count_trailing(v: &Vec<char>, from: usize, to: usize, class: CharClass) -> (n: usize)
    requires
        from <= to <= v.len(),
    ensures
        n == trailing(v@.subrange(from as int, to as int), class),
        from + n <= to,
{
    let ghost s = v@.subrange(from as int, to as int);
    let mut i: usize = to;
    while i > from && class.test(v[i - 1])
        invariant
            from <= i <= to <= v.len(),
            s == v@.subrange(from as int, to as int),
            forall|j: int| i - from <= j < to - from ==> class.holds(#[trigger] s[j]),
        decreases i,
    {
        i = i - 1;
    }
    proof {
        lemma_trailing_run(s, class, to - i);
    }
    to - i
}

/// A copy of `v[from..to]`.
pub(crate) fn copy_range(v: &Vec<char>, from: usize, to: usize) -> (out: Vec<char>)
    requires
        from <= to <= v.len(),
    ensures
        out@ == v@.subrange(from as int, to as int),
{
    let mut out: Vec<char> = Vec::new();
    let mut i: usize = from;
    while i < to
        invariant
            from <= i <= to <= v.len(),
            out@ == v@.subrange(from as int, i as int),
        decreases to - i,
    {
        out.push(v[i]);
        i = i + 1;
    }
    out
}

/// `s` without the characters of `class` at its two ends.
pub open spec fn trimmed(s: Seq<char>, class: CharClass) -> Seq<char> {
    let rest = s.skip(leading(s, class) as int);
    rest.take(rest.len() - trailing(rest, class))
}

/// `s` without the white space at its two ends.
pub open spec fn trim(s: Seq<char>) -> Seq<char> {
    trimmed(s, CharClass::Whitespace)
}

/// `s` without the occurrences of `c` at its two ends.
pub open spec fn trim_matches(s: Seq<char>, c: char) -> Seq<char> {
    trimmed(s, CharClass::Only(c))
}

/// A copy of `v` without the characters of `class` at its two ends.
pub fn trim_class(v: &Vec<char>, class: CharClass) -> (out: Vec<char>)
    ensures
        out@ == trimmed(v@, class),
{
    let len = v.len();
    let a = count_leading(v, 0, len, class);
    assert(v@.subrange(0, len as int) =~= v@);
    let b = count_trailing(v, a, len, class);
    copy_range(v, a, len - b)
}

/// The mathematical contents of a vector of character vectors.
pub open spec fn views(rows: Seq<Vec<char>>) -> Seq<Seq<char>> {
    rows.map_values(|row: Vec<char>| row@)
}

/// True if `pattern` stands in `s` at position `at`.
pub open spec fn occurs_at(s: Seq<char>, pattern: Seq<char>, at: int) -> bool {
    &&& 0 <= at
    &&& at + pattern.len() <= s.len()
    &&& s.subrange(at, at + pattern.len()) == pattern
}

/// True if `s` begins with `pattern`.
pub open spec fn starts_with(s: Seq<char>, pattern: Seq<char>) -> bool {
    occurs_at(s, pattern, 0)
}

/// True if `pattern` stands somewhere in `s`.
pub open spec fn contains(s: Seq<char>, pattern: Seq<char>) -> bool {
    exists|at: int| occurs_at(s, pattern, at)
}

/// True if `pattern` stands in `v` at position `at`.
pub fn matches_at(v: &Vec<char>, pattern: &Vec<char>, at: usize) -> (found: bool)
    ensures
        found == occurs_at(v@, pattern@, at as int),
{
    if at > v.len() || pattern.len() > v.len() - at {
        return false;
    }
    let ghost window = v@.subrange(at as int, at + pattern.len());
    let mut i: usize = 0;
    while i < pattern.len()
        invariant
            i <= pattern.len(),
            at + pattern.len() <= v.len(),
            window == v@.subrange(at as int, at + pattern.len()),
            forall|j: int| 0 <= j < i ==> window[j] == pattern@[j],
        decreases pattern.len() - i,
    {
        if v[at + i] != pattern[i] {
            return false;
        }
        i = i + 1;
    }
    assert(window =~= pattern@);
    true
}

/// True if `v` begins with `pattern`.
pub fn has_prefix(v: &Vec<char>, pattern: &Vec<char>) -> (found: bool)
    ensures
        found == starts_with(v@, pattern@),
{
    matches_at(v, pattern, 0)
}

/// True if `pattern` stands somewhere in `v`.
pub fn has_substring(v: &Vec<char>, pattern: &Vec<char>) -> (found: bool)
    ensures
        found == contains(v@, pattern@),
{
    if pattern.len() > v.len() {
        return false;
    }
    let last: usize = v.len() - pattern.len();
    let mut at: usize = 0;
    loop
        invariant
            at <= last,
            last == v.len() - pattern.len(),
            forall|k: int| 0 <= k < at ==> !occurs_at(v@, pattern@, k),
        decreases last - at,
    {
        if matches_at(v, pattern, at) {
            return true;
        }
        if at == last {
            return false;
        }
        at = at + 1;
    }
}

/// `s` without one carriage return at its end, if it has one.
pub open spec fn strip_carriage_return(s: Seq<char>) -> Seq<char> {
    if s.len() > 0 && s.last() == '\r' {
        s.drop_last()
    } else {
        s
    }
}

/// The lines of `s`. A line ends at a line feed, which is left out together
/// with a carriage return just before it; what follows the last line feed is
/// a line of its own unless it is empty.
pub open spec fn lines(s: Seq<char>) -> Seq<Seq<char>>
    decreases s.len(),
{
    let n = leading(s, CharClass::Except('\n')) as int;
    if s.len() == 0 {
        Seq::<Seq<char>>::empty()
    } else if n >= s.len() {
        seq![s]
    } else {
        seq![strip_carriage_return(s.take(n))] + lines(s.skip(n + 1))
    }
}

/// The lines of `v`, as [`lines`] defines them.
pub fn split_lines(v: &Vec<char>) -> (out: Vec<Vec<char>>)
    ensures
        views(out@) == lines(v@),
{
    let len = v.len();
    let mut out: Vec<Vec<char>> = Vec::new();
    let mut pos: usize = 0;
    assert(v@.skip(0) =~= v@);
    while pos < len
        invariant
            pos <= len,
            len == v.len(),
            lines(v@) == views(out@) + lines(v@.skip(pos as int)),
        decreases len - pos,
    {
        let ghost rest = v@.skip(pos as int);
        let n = count_leading(v, pos, len, CharClass::Except('\n'));
        let end: usize = pos + n;
        if end == len {
            let line = copy_range(v, pos, len);
            out.push(line);
            pos = len;
        } else {
            let stop: usize = if end > pos && v[end - 1] == '\r' {
                end - 1
            } else {
                end
            };
            let line = copy_range(v, pos, stop);
            out.push(line);
            proof {
                let whole = rest.take(n as int);
                assert(line@ =~= strip_carriage_return(whole));
                assert(rest.skip(n + 1) =~= v@.skip(end + 1));
            }
            pos = end + 1;
        }
    }
    out
}

/// The words of `s`: its longest runs of characters that are not white space,
/// in order.
pub open spec fn tokens(s: Seq<char>) -> Seq<Seq<char>>
    decreases s.len(),
{
    let gap = leading(s, CharClass::Whitespace) as int;
    let rest = s.skip(gap);
    let n = leading(rest, CharClass::NotWhitespace) as int;
    if gap >= s.len() || n <= 0 || n > rest.len() {
        Seq::<Seq<char>>::empty()
    } else {
        seq![rest.take(n)] + tokens(rest.skip(n))
    }
}

/// The words of `v`, as [`tokens`] defines them.
pub fn split_tokens(v: &Vec<char>) -> (out: Vec<Vec<char>>)
    ensures
        views(out@) == tokens(v@),
{
    let len = v.len();
    let mut out: Vec<Vec<char>> = Vec::new();
    let mut pos: usize = 0;
    assert(v@.skip(0) =~= v@);
    loop
        invariant
            pos <= len,
            len == v.len(),
            tokens(v@) == views(out@) + tokens(v@.skip(pos as int)),
        ensures
            views(out@) == tokens(v@),
        decreases len - pos,
    {
        let ghost rest = v@.skip(pos as int);
        let gap = count_leading(v, pos, len, CharClass::Whitespace);
        let start: usize = pos + gap;
        if start == len {
            break;
        }
        assert(v@.subrange(start as int, len as int) =~= rest.skip(gap as int));
        let n = count_leading(v, start, len, CharClass::NotWhitespace);
        let end: usize = start + n;
        let word = copy_range(v, start, end);
        out.push(word);
        proof {
            let tail = rest.skip(gap as int);
            lemma_leading_run(rest, CharClass::Whitespace, 0);
            lemma_leading_run(tail, CharClass::NotWhitespace, 0);
            assert(word@ =~= tail.take(n as int));
            assert(tail.skip(n as int) =~= v@.skip(end as int));
        }
        pos = end;
    }
    out
}

/// The second of the fields that `separator` divides `s` into: what stands
/// between its first and its second occurrence, or after the first where
/// there is no second. `None` where `separator` does not occur.
pub open spec fn second_field(s: Seq<char>, separator: char) -> Option<Seq<char>> {
    let first = leading(s, CharClass::Except(separator)) as int;
    let rest = s.skip(first + 1);
    if first >= s.len() {
        None
    } else {
        Some(rest.take(leading(rest, CharClass::Except(separator)) as int))
    }
}

/// The second field of `v`, as [`second_field`] defines it.
pub fn split_second_field(v: &Vec<char>, separator: char) -> (out: Option<Vec<char>>)
    ensures
        match out {
            Some(field) => second_field(v@, separator) == Some(field@),
            None => second_field(v@, separator) is None,
        },
{
    let len = v.len();
    assert(v@.subrange(0, len as int) =~= v@);
    let first = count_leading(v, 0, len, CharClass::Except(separator));
    if first == len {
        return None;
    }
    let start: usize = first + 1;
    let n = count_leading(v, start, len, CharClass::Except(separator));
    let field = copy_range(v, start, start + n);
    Some(field)
}

/// What follows the first occurrence of `separator` in `s`, up to the end of
/// `s`. `None` where `separator` does not occur.
pub open spec fn after_first(s: Seq<char>, separator: char) -> Option<Seq<char>> {
    let first = leading(s, CharClass::Except(separator)) as int;
    if first >= s.len() {
        None
    } else {
        Some(s.skip(first + 1))
    }
}

/// What follows the first occurrence of `separator` in `v`, as
/// [`after_first`] defines it.
pub fn split_after_first(v: &Vec<char>, separator: char) -> (out: Option<Vec<char>>)
    ensures
        match out {
            Some(rest) => after_first(v@, separator) == Some(rest@),
            None => after_first(v@, separator) is None,
        },
{
    let len = v.len();
    assert(v@.subrange(0, len as int) =~= v@);
    let first = count_leading(v, 0, len, CharClass::Except(separator));
    if first == len {
        return None;
    }
    let rest = copy_range(v, first + 1, len);
    assert(rest@ =~= v@.skip(first + 1));
    Some(rest)
}

/// `s` with every occurrence of `from` turned into `to`.
pub open spec fn replaced(s: Seq<char>, from: char, to: char) -> Seq<char> {
    s.map_values(|c: char| if c == from { to } else { c })
}

/// A copy of `v` with every occurrence of `from` turned into `to`.
pub fn replace_char(v: &Vec<char>, from: char, to: char) -> (out: Vec<char>)
    ensures
        out@ == replaced(v@, from, to),
{
    let mut out: Vec<char> = Vec::new();
    let mut i: usize = 0;
    while i < v.len()
        invariant
            i <= v.len(),
            out@ == replaced(v@.take(i as int), from, to),
        decreases v.len() - i,
    {
        let c = v[i];
        out.push(if c == from { to } else { c });
        i = i + 1;
    }
    out
}

/// True if `a` and `b` hold the same characters.
pub fn same_chars(a: &Vec<char>, b: &Vec<char>) -> (same: bool)
    ensures
        same == (a@ == b@),
{
    assert(a@.subrange(0, a@.len() as int) =~= a@);
    a.len() == b.len() && matches_at(a, b, 0)
}

/// The mathematical contents of a character vector that may be absent.
pub open spec fn option_view(v: Option<Vec<char>>) -> Option<Seq<char>> {
    match v {
        Some(chars) => Some(chars@),
        None => None,
    }
}

} // verus!
