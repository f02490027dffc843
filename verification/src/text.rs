//! Text operations on strings, specified over their sequences of characters.

use vstd::prelude::*;
use vstd::string::*;

verus! {

/// `p` stands in `s` at position `i`.
pub open spec fn has_at(s: Seq<char>, p: Seq<char>, i: int) -> bool {
    &&& 0 <= i
    &&& i + p.len() <= s.len()
    &&& s.subrange(i, i + p.len()) == p
}

/// `p` stands somewhere in `s`.
pub open spec fn has(s: Seq<char>, p: Seq<char>) -> bool {
    exists|i: int| has_at(s, p, i)
}

/// `s` begins with `p`.
pub open spec fn begins(s: Seq<char>, p: Seq<char>) -> bool {
    has_at(s, p, 0)
}

/// An ASCII lower case letter becomes its upper case letter; any other
/// character stays.
pub open spec fn upper_char(c: char) -> char {
    if 'a' <= c <= 'z' {
        ((c as u32) - 32) as char
    } else {
        c
    }
}

/// An ASCII upper case letter becomes its lower case letter; any other
/// character stays.
pub open spec fn lower_char(c: char) -> char {
    if 'A' <= c <= 'Z' {
        ((c as u32) + 32) as char
    } else {
        c
    }
}

/// `s` with its ASCII letters in upper case.
pub open spec fn upper(s: Seq<char>) -> Seq<char> {
    s.map_values(|c: char| upper_char(c))
}

/// `s` with its ASCII letters in lower case.
pub open spec fn lower(s: Seq<char>) -> Seq<char> {
    s.map_values(|c: char| lower_char(c))
}

/// The position of the first `c` in `s`.
pub open spec fn first_of(s: Seq<char>, c: char) -> Option<int>
    decreases s.len(),
{
    if s.len() == 0 {
        None
    } else if s[0] == c {
        Some(0)
    } else {
        match first_of(s.drop_first(), c) {
            Some(i) => Some(i + 1),
            None => None,
        }
    }
}

/// The position of the last `c` in `s`.
pub open spec fn last_of(s: Seq<char>, c: char) -> Option<int>
    decreases s.len(),
{
    if s.len() == 0 {
        None
    } else if s.last() == c {
        Some(s.len() - 1)
    } else {
        last_of(s.drop_last(), c)
    }
}

/// What stands before the first `c`, or all of `s` where there is none.
pub open spec fn before_first(s: Seq<char>, c: char) -> Seq<char> {
    match first_of(s, c) {
        Some(i) => s.take(i),
        None => s,
    }
}

/// What stands behind the last `c`, or all of `s` where there is none.
pub open spec fn after_last(s: Seq<char>, c: char) -> Seq<char> {
    match last_of(s, c) {
        Some(i) => s.skip(i + 1),
        None => s,
    }
}

/// `s` without the run of `c` at its start.
pub open spec fn without_leading(s: Seq<char>, c: char) -> Seq<char>
    decreases s.len(),
{
    if s.len() > 0 && s[0] == c {
        without_leading(s.drop_first(), c)
    } else {
        s
    }
}

/// `s` without the run of `c` at its end.
pub open spec fn without_trailing(s: Seq<char>, c: char) -> Seq<char>
    decreases s.len(),
{
    if s.len() > 0 && s.last() == c {
        without_trailing(s.drop_last(), c)
    } else {
        s
    }
}

/// `s` without the runs of `c` at its two ends.
pub open spec fn without_ends(s: Seq<char>, c: char) -> Seq<char> {
    without_trailing(without_leading(s, c), c)
}

/// A character with the Unicode property `White_Space`.
pub open spec fn blank(c: char) -> bool {
    ||| '\u{9}' <= c <= '\u{d}'
    ||| c == ' '
    ||| c == '\u{85}'
    ||| c == '\u{a0}'
    ||| c == '\u{1680}'
    ||| '\u{2000}' <= c <= '\u{200a}'
    ||| c == '\u{2028}'
    ||| c == '\u{2029}'
    ||| c == '\u{202f}'
    ||| c == '\u{205f}'
    ||| c == '\u{3000}'
}

/// `s` without the blank characters at its two ends.
pub open spec fn trimmed(s: Seq<char>) -> Seq<char>
    decreases s.len(),
{
    if s.len() > 0 && blank(s[0]) {
        trimmed(s.drop_first())
    } else if s.len() > 0 && blank(s.last()) {
        trimmed(s.drop_last())
    } else {
        s
    }
}

/// `s` with every occurrence of `p` taken out, found from left to right and
/// not overlapping.
pub open spec fn without_all(s: Seq<char>, p: Seq<char>) -> Seq<char>
    decreases s.len(),
{
    if p.len() == 0 || s.len() < p.len() {
        s
    } else if s.take(p.len() as int) == p {
        without_all(s.skip(p.len() as int), p)
    } else {
        seq![s[0]] + without_all(s.drop_first(), p)
    }
}

/// The decimal digit of value `d`.
pub open spec fn digit(d: nat) -> char {
    "0123456789"@[d as int]
}

/// The decimal numeral of `n`.
pub open spec fn decimal(n: nat) -> Seq<char>
    decreases n,
{
    if n < 10 {
        seq![digit(n)]
    } else {
        decimal(n / 10).push(digit(n % 10))
    }
}

/// `a` comes before `b` in the lexicographic order of code points.
pub open spec fn precedes(a: Seq<char>, b: Seq<char>) -> bool
    decreases a.len(),
{
    if b.len() == 0 {
        false
    } else if a.len() == 0 {
        true
    } else if a[0] == b[0] {
        precedes(a.drop_first(), b.drop_first())
    } else {
        a[0] < b[0]
    }
}

/// `s` with an underscore for every space.
pub open spec fn underscored(s: Seq<char>) -> Seq<char> {
    s.map_values(
        |c: char|
            if c == ' ' {
                '_'
            } else {
                c
            },
    )
}

/// The characters of `s`.
pub fn chars_of(s: &str) -> (r: Vec<char>)
    ensures
        r@ == s@,
{
    let mut out: Vec<char> = Vec::new();
    for c in it: s.chars()
        invariant
            it.seq() == s@,
            out@ == s@.take(it.index() as int),
    {
        out.push(c);
    }
    out
}

/// Whether `a` and `b` are the same text.
pub fn same(a: &str, b: &str) -> (r: bool)
    ensures
        r == (a@ == b@),
{
    a.to_owned() == b.to_owned()
}

/// Whether `p` stands in `s` at position `i`.
fn stands_at(s: &Vec<char>, p: &Vec<char>, i: usize) -> (r: bool)
    requires
        i + p.len() <= s.len(),
    ensures
        r == has_at(s@, p@, i as int),
{
    let mut k: usize = 0;
    while k < p.len()
        invariant
            k <= p.len(),
            i + p.len() <= s.len(),
            forall|j: int| 0 <= j < k ==> s@[i + j] == p@[j],
        decreases p@.len() - k,
    {
        if s[i + k] != p[k] {
            assert(s@.subrange(i as int, i + p@.len())[k as int] != p@[k as int]);
            return false;
        }
        k = k + 1;
    }
    assert(s@.subrange(i as int, i + p@.len()) =~= p@);
    true
}

/// Whether `p` stands somewhere in `s`.
fn chars_have(s: &Vec<char>, p: &Vec<char>) -> (r: bool)
    ensures
        r == has(s@, p@),
{
    if p.len() == 0 {
        assert(s@.subrange(0, 0) =~= p@);
        assert(has_at(s@, p@, 0));
        return true;
    }
    let mut i: usize = 0;
    while i < s.len() && p.len() <= s.len() - i
        invariant
            i <= s.len(),
            p.len() > 0,
            forall|j: int| 0 <= j < i ==> !has_at(s@, p@, j),
        decreases s.len() - i,
    {
        if stands_at(s, p, i) {
            return true;
        }
        i = i + 1;
    }
    assert forall|j: int| !has_at(s@, p@, j) by {
        if 0 <= j && j + p@.len() <= s@.len() {
            assert(j < i);
        }
    }
    false
}

/// Whether `p` stands somewhere in `s`.
pub fn contains(s: &str, p: &str) -> (r: bool)
    ensures
        r == has(s@, p@),
{
    let a = chars_of(s);
    let b = chars_of(p);
    chars_have(&a, &b)
}

/// Whether `s` begins with `p`.
pub fn starts_with(s: &str, p: &str) -> (r: bool)
    ensures
        r == begins(s@, p@),
{
    let a = chars_of(s);
    let b = chars_of(p);
    b.len() <= a.len() && stands_at(&a, &b, 0)
}

/// The ASCII upper case of `c`.
fn upper_of(c: char) -> (r: char)
    ensures
        r == upper_char(c),
{
    if 'a' <= c && c <= 'z' {
        ((c as u8) - 32) as char
    } else {
        c
    }
}

/// The ASCII lower case of `c`.
fn lower_of(c: char) -> (r: char)
    ensures
        r == lower_char(c),
{
    if 'A' <= c && c <= 'Z' {
        ((c as u8) + 32) as char
    } else {
        c
    }
}

/// The characters of `s` in ASCII upper case.
fn upper_chars(s: &str) -> (r: Vec<char>)
    ensures
        r@ == upper(s@),
{
    let a = chars_of(s);
    let mut out: Vec<char> = Vec::new();
    let mut i: usize = 0;
    while i < a.len()
        invariant
            i <= a@.len(),
            a@ == s@,
            out@ == upper(s@).take(i as int),
        decreases a@.len() - i,
    {
        out.push(upper_of(a[i]));
        i = i + 1;
        assert(out@ =~= upper(s@).take(i as int));
    }
    assert(upper(s@).take(i as int) =~= upper(s@));
    out
}

/// The characters of `s` in ASCII lower case.
fn lower_chars(s: &str) -> (r: Vec<char>)
    ensures
        r@ == lower(s@),
{
    let a = chars_of(s);
    let mut out: Vec<char> = Vec::new();
    let mut i: usize = 0;
    while i < a.len()
        invariant
            i <= a@.len(),
            a@ == s@,
            out@ == lower(s@).take(i as int),
        decreases a@.len() - i,
    {
        out.push(lower_of(a[i]));
        i = i + 1;
        assert(out@ =~= lower(s@).take(i as int));
    }
    assert(lower(s@).take(i as int) =~= lower(s@));
    out
}

/// Whether `p` stands in `s`, ASCII upper and lower case letters being the same.
pub fn contains_ignore_case(s: &str, p: &str) -> (r: bool)
    ensures
        r == has(upper(s@), upper(p@)),
{
    let a = upper_chars(s);
    let b = upper_chars(p);
    chars_have(&a, &b)
}

/// Whether `p` stands in the ASCII lower case of `s`.
pub fn lower_contains(s: &str, p: &str) -> (r: bool)
    ensures
        r == has(lower(s@), p@),
{
    let a = lower_chars(s);
    let b = chars_of(p);
    chars_have(&a, &b)
}

/// Whether `a` and `b` are the same text but for the case of ASCII letters.
pub fn same_ignore_case(a: &str, b: &str) -> (r: bool)
    ensures
        r == (lower(a@) == lower(b@)),
{
    let x = lower_chars(a);
    let y = lower_chars(b);
    if x.len() != y.len() {
        return false;
    }
    let r = stands_at(&x, &y, 0);
    assert(x@.subrange(0, y@.len() as int) =~= x@);
    r
}

/// The position of the first `c` in `s`.
fn find_char(s: &Vec<char>, c: char) -> (r: Option<usize>)
    ensures
        r matches Some(i) ==> i < s.len() && first_of(s@, c) == Some(i as int),
        r is None ==> first_of(s@, c) is None,
{
    let mut i: usize = 0;
    assert(s@.skip(0) =~= s@);
    while i < s.len()
        invariant
            i <= s@.len(),
            first_of(s@, c) == (match first_of(s@.skip(i as int), c) {
                Some(k) => Some(k + i),
                None => None,
            }),
        decreases s@.len() - i,
    {
        if s[i] == c {
            return Some(i);
        }
        assert(s@.skip(i as int).drop_first() =~= s@.skip(i + 1));
        i = i + 1;
    }
    None
}

/// The position of the last `c` in `s`.
fn find_last_char(s: &Vec<char>, c: char) -> (r: Option<usize>)
    ensures
        r matches Some(i) ==> i < s.len() && last_of(s@, c) == Some(i as int),
        r is None ==> last_of(s@, c) is None,
{
    let mut n: usize = s.len();
    assert(s@.take(n as int) =~= s@);
    while n > 0
        invariant
            n <= s@.len(),
            last_of(s@, c) == last_of(s@.take(n as int), c),
        decreases n,
    {
        if s[n - 1] == c {
            return Some(n - 1);
        }
        assert(s@.take(n as int).drop_last() =~= s@.take(n - 1));
        n = n - 1;
    }
    None
}

/// The two parts of `s` on either side of its first `c`.
pub fn split_first<'a>(s: &'a str, c: char) -> (r: Option<(&'a str, &'a str)>)
    ensures
        r is Some == first_of(s@, c) is Some,
        r matches Some(p) ==> p.0@ == s@.take(first_of(s@, c)->0) && p.1@ == s@.skip(
            first_of(s@, c)->0 + 1,
        ),
{
    let a = chars_of(s);
    match find_char(&a, c) {
        Some(i) => {
            let head = s.substring_char(0, i);
            let tail = s.substring_char(i + 1, a.len());
            assert(s@.subrange(0, i as int) =~= s@.take(i as int));
            assert(s@.subrange(i + 1, s@.len() as int) =~= s@.skip(i + 1));
            Some((head, tail))
        },
        None => None,
    }
}

/// The two parts of `s` on either side of its last `c`.
pub fn split_last<'a>(s: &'a str, c: char) -> (r: Option<(&'a str, &'a str)>)
    ensures
        r is Some == last_of(s@, c) is Some,
        r matches Some(p) ==> p.0@ == s@.take(last_of(s@, c)->0) && p.1@ == s@.skip(
            last_of(s@, c)->0 + 1,
        ),
{
    let a = chars_of(s);
    match find_last_char(&a, c) {
        Some(i) => {
            let head = s.substring_char(0, i);
            let tail = s.substring_char(i + 1, a.len());
            assert(s@.subrange(0, i as int) =~= s@.take(i as int));
            assert(s@.subrange(i + 1, s@.len() as int) =~= s@.skip(i + 1));
            Some((head, tail))
        },
        None => None,
    }
}

/// What stands before the first `c`, or all of `s` where there is none.
pub fn head<'a>(s: &'a str, c: char) -> (r: &'a str)
    ensures
        r@ == before_first(s@, c),
{
    match split_first(s, c) {
        Some((h, _)) => h,
        None => s,
    }
}

/// What stands behind the last `c`, or all of `s` where there is none.
pub fn last_segment<'a>(s: &'a str, c: char) -> (r: &'a str)
    ensures
        r@ == after_last(s@, c),
{
    match split_last(s, c) {
        Some((_, t)) => t,
        None => s,
    }
}

/// `s` without the run of `c` at its end.
pub fn trim_end_char<'a>(s: &'a str, c: char) -> (r: &'a str)
    ensures
        r@ == without_trailing(s@, c),
{
    let a = chars_of(s);
    let mut n: usize = a.len();
    assert(s@.take(n as int) =~= s@);
    while n > 0 && a[n - 1] == c
        invariant
            n <= a@.len(),
            a@ == s@,
            without_trailing(s@, c) == without_trailing(s@.take(n as int), c),
        decreases n,
    {
        assert(s@.take(n as int).drop_last() =~= s@.take(n - 1));
        n = n - 1;
    }
    assert(s@.subrange(0, n as int) =~= s@.take(n as int));
    s.substring_char(0, n)
}

/// `s` without the runs of `c` at its two ends.
pub fn trim_char<'a>(s: &'a str, c: char) -> (r: &'a str)
    ensures
        r@ == without_ends(s@, c),
{
    let a = chars_of(s);
    let mut i: usize = 0;
    assert(s@.skip(0) =~= s@);
    while i < a.len() && a[i] == c
        invariant
            i <= a@.len(),
            a@ == s@,
            without_leading(s@, c) == without_leading(s@.skip(i as int), c),
        decreases a@.len() - i,
    {
        assert(s@.skip(i as int).drop_first() =~= s@.skip(i + 1));
        i = i + 1;
    }
    assert(s@.subrange(i as int, s@.len() as int) =~= s@.skip(i as int));
    trim_end_char(s.substring_char(i, a.len()), c)
}

/// Whether `c` has the Unicode property `White_Space`.
fn is_blank(c: char) -> (r: bool)
    ensures
        r == blank(c),
{
    ('\u{9}' <= c && c <= '\u{d}') || c == ' ' || c == '\u{85}' || c == '\u{a0}' || c == '\u{1680}' || (
    '\u{2000}' <= c && c <= '\u{200a}') || c == '\u{2028}' || c == '\u{2029}' || c == '\u{202f}' || c
        == '\u{205f}' || c == '\u{3000}'
}

/// `s` without the blank characters at its two ends.
pub fn trim<'a>(s: &'a str) -> (r: &'a str)
    ensures
        r@ == trimmed(s@),
{
    let a = chars_of(s);
    let mut i: usize = 0;
    let mut n: usize = a.len();
    assert(s@.subrange(0, n as int) =~= s@);
    while i < n && is_blank(a[i])
        invariant
            i <= n == a@.len(),
            a@ == s@,
            trimmed(s@) == trimmed(s@.subrange(i as int, n as int)),
        decreases n - i,
    {
        assert(s@.subrange(i as int, n as int).drop_first() =~= s@.subrange(i + 1, n as int));
        i = i + 1;
    }
    while i < n && is_blank(a[n - 1])
        invariant
            i <= n <= a@.len(),
            a@ == s@,
            i < n ==> !blank(s@[i as int]),
            trimmed(s@) == trimmed(s@.subrange(i as int, n as int)),
        decreases n,
    {
        assert(s@.subrange(i as int, n as int).drop_last() =~= s@.subrange(i as int, n - 1));
        n = n - 1;
    }
    s.substring_char(i, n)
}

/// `s` with every occurrence of `p` taken out.
pub fn remove_all(s: &str, p: &str) -> (r: String)
    requires
        p@.len() > 0,
    ensures
        r@ == without_all(s@, p@),
{
    let a = chars_of(s);
    let b = chars_of(p);
    let mut out = String::new();
    let mut i: usize = 0;
    assert(s@.skip(0) =~= s@);
    assert(out@ + without_all(s@, p@) =~= without_all(s@, p@));
    while i < a.len() && b.len() <= a.len() - i
        invariant
            i <= a@.len(),
            a@ == s@,
            b@ == p@,
            p@.len() > 0,
            without_all(s@, p@) == out@ + without_all(s@.skip(i as int), p@),
        decreases a@.len() - i,
    {
        let ghost rest = s@.skip(i as int);
        assert(rest.take(p@.len() as int) =~= s@.subrange(i as int, i + p@.len()));
        if stands_at(&a, &b, i) {
            assert(rest.skip(p@.len() as int) =~= s@.skip(i + p@.len()));
            i = i + b.len();
        } else {
            assert(rest.drop_first() =~= s@.skip(i + 1));
            let one = s.substring_char(i, i + 1);
            assert(one@ =~= seq![rest[0]]);
            let ghost before = out@;
            out.append(one);
            assert(before + (one@ + without_all(s@.skip(i + 1), p@)) =~= out@ + without_all(
                s@.skip(i + 1),
                p@,
            ));
            i = i + 1;
        }
    }
    let tail = s.substring_char(i, a.len());
    assert(tail@ =~= s@.skip(i as int));
    out.append(tail);
    out
}

/// `s` with an underscore for every space.
pub fn with_underscores(s: &str) -> (r: String)
    ensures
        r@ == underscored(s@),
{
    let a = chars_of(s);
    let mut out = String::new();
    let mut i: usize = 0;
    proof {
        reveal_strlit("_");
    }
    assert(out@ =~= underscored(s@).take(0));
    while i < a.len()
        invariant
            i <= a@.len(),
            a@ == s@,
            out@ == underscored(s@).take(i as int),
            "_"@ == seq!['_'],
        decreases a@.len() - i,
    {
        if a[i] == ' ' {
            out.append("_");
        } else {
            let c = s.substring_char(i, i + 1);
            assert(c@ =~= seq![s@[i as int]]);
            out.append(c);
        }
        i = i + 1;
        assert(out@ =~= underscored(s@).take(i as int));
    }
    assert(underscored(s@).take(i as int) =~= underscored(s@));
    out
}

/// The decimal numeral of `n`.
pub fn numeral(n: u64) -> (r: String)
    ensures
        r@ == decimal(n as nat),
    decreases n,
{
    proof {
        reveal_strlit("0123456789");
    }
    let d: usize = (n % 10) as usize;
    let last = "0123456789".substring_char(d, d + 1);
    assert(last@ =~= seq![digit((n % 10) as nat)]);
    if n < 10 {
        last.to_owned()
    } else {
        let mut out = numeral(n / 10);
        let ghost before = out@;
        out.append(last);
        assert(out@ =~= before.push(digit((n % 10) as nat)));
        out
    }
}

/// Whether `a` comes before `b` in the lexicographic order of code points.
pub fn is_before(a: &str, b: &str) -> (r: bool)
    ensures
        r == precedes(a@, b@),
{
    let x = chars_of(a);
    let y = chars_of(b);
    let mut i: usize = 0;
    assert(x@.skip(0) =~= x@);
    assert(y@.skip(0) =~= y@);
    while i < x.len() && i < y.len() && x[i] == y[i]
        invariant
            i <= x@.len(),
            i <= y@.len(),
            precedes(x@, y@) == precedes(x@.skip(i as int), y@.skip(i as int)),
        decreases x@.len() - i,
    {
        assert(x@.skip(i as int).drop_first() =~= x@.skip(i + 1));
        assert(y@.skip(i as int).drop_first() =~= y@.skip(i + 1));
        i = i + 1;
    }
    if i == y.len() {
        false
    } else if i == x.len() {
        true
    } else {
        x[i] < y[i]
    }
}

/// `a` and `b` joined.
pub fn cat2(a: &str, b: &str) -> (r: String)
    ensures
        r@ == a@ + b@,
{
    let mut out = a.to_owned();
    out.append(b);
    out
}

/// `a`, `b` and `c` joined.
pub fn cat3(a: &str, b: &str, c: &str) -> (r: String)
    ensures
        r@ == a@ + b@ + c@,
{
    let mut out = a.to_owned();
    out.append(b);
    out.append(c);
    out
}

/// `a`, `b`, `c` and `d` joined.
pub fn cat4(a: &str, b: &str, c: &str, d: &str) -> (r: String)
    ensures
        r@ == a@ + b@ + c@ + d@,
{
    let mut out = a.to_owned();
    out.append(b);
    out.append(c);
    out.append(d);
    out
}

/// `a`, `b`, `c`, `d` and `e` joined.
pub fn cat5(a: &str, b: &str, c: &str, d: &str, e: &str) -> (r: String)
    ensures
        r@ == a@ + b@ + c@ + d@ + e@,
{
    let mut out = a.to_owned();
    out.append(b);
    out.append(c);
    out.append(d);
    out.append(e);
    out
}

} // verus!
