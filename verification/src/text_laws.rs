//! What the operations on texts are, said apart from how they are computed.
use crate::text::{
    after_last, before_first, begins, blank, decimal, digit, first_of, has, has_at, last_of, lower,
    precedes, trimmed, underscored, upper, without_all, without_leading, without_trailing,
};
use vstd::prelude::*;
use vstd::string::*;

verus! {

/// Whether `p` stands in `s`, with something before it and something after it.
pub open spec fn stands_in(s: Seq<char>, p: Seq<char>) -> bool {
    exists|a: Seq<char>, b: Seq<char>| #![trigger a + p + b] s == a + p + b
}

/// Whether `s` is free of `c`.
pub open spec fn free_of(s: Seq<char>, c: char) -> bool {
    forall|i: int| 0 <= i < s.len() ==> #[trigger] s[i] != c
}

/// A text has another in it if and only if that other stands somewhere in it.
pub proof fn text_has_what_stands_in_it(s: Seq<char>, p: Seq<char>)
    ensures
        has(s, p) <==> stands_in(s, p),
{
    if has(s, p) {
        let i = choose|i: int| has_at(s, p, i);
        let a = s.take(i);
        let b = s.skip(i + p.len());
        assert(s =~= a + p + b);
    }
    if stands_in(s, p) {
        let (a, b) = choose|a: Seq<char>, b: Seq<char>| #![trigger a + p + b] s == a + p + b;
        assert(s.subrange(a.len() as int, (a.len() + p.len()) as int) =~= p);
        assert(has_at(s, p, a.len() as int));
    }
}

/// A text begins with another if and only if it is that other and more.
pub proof fn text_begins_with_its_head(s: Seq<char>, p: Seq<char>)
    ensures
        begins(s, p) <==> exists|b: Seq<char>| #![trigger p + b] s == p + b,
        begins(s, p) <==> s.len() >= p.len() && s.take(p.len() as int) == p,
{
    if begins(s, p) {
        let b = s.skip(p.len() as int);
        assert(s =~= p + b);
        assert(s.take(p.len() as int) =~= s.subrange(0, p.len() as int));
    }
    if exists|b: Seq<char>| #![trigger p + b] s == p + b {
        let b = choose|b: Seq<char>| #![trigger p + b] s == p + b;
        assert(s.subrange(0, p.len() as int) =~= p);
        assert(s.take(p.len() as int) =~= p);
    }
    if s.len() >= p.len() && s.take(p.len() as int) == p {
        assert(s.subrange(0, p.len() as int) =~= s.take(p.len() as int));
    }
}

/// What stands after the last `c` is the part behind it that has none. A text without
/// `c` is left as it is.
pub proof fn after_last_is_the_last_part(head: Seq<char>, c: char, tail: Seq<char>)
    requires
        free_of(tail, c),
    ensures
        after_last(head + seq![c] + tail, c) == tail,
        after_last(tail, c) == tail,
{
    let s = head + seq![c] + tail;
    last_of_before(s, c, head.len() as int);
    assert(s.skip((head.len() + 1) as int) =~= tail);
    last_of_none(tail, c);
}

proof fn last_of_before(s: Seq<char>, c: char, i: int)
    requires
        0 <= i < s.len(),
        s[i] == c,
        forall|k: int| i < k < s.len() ==> #[trigger] s[k] != c,
    ensures
        last_of(s, c) == Some(i),
    decreases s.len(),
{
    if i < s.len() - 1 {
        assert(s[s.len() - 1] != c);
        let init = s.drop_last();
        assert forall|k: int| i < k < init.len() implies #[trigger] init[k] != c by {
            assert(init[k] == s[k]);
        }
        last_of_before(init, c, i);
    }
}

proof fn last_of_none(s: Seq<char>, c: char)
    requires
        free_of(s, c),
    ensures
        last_of(s, c) is None,
    decreases s.len(),
{
    if s.len() > 0 {
        assert(s[s.len() - 1] != c);
        let init = s.drop_last();
        assert forall|k: int| 0 <= k < init.len() implies #[trigger] init[k] != c by {
            assert(init[k] == s[k]);
        }
        last_of_none(init, c);
    }
}

/// What stands before the first `c` is the part before it that has none. A text
/// without `c` is left as it is.
pub proof fn before_first_is_the_first_part(head: Seq<char>, c: char, tail: Seq<char>)
    requires
        free_of(head, c),
    ensures
        before_first(head + seq![c] + tail, c) == head,
        before_first(head, c) == head,
{
    let s = head + seq![c] + tail;
    first_of_at(s, c, head.len() as int);
    assert(s.take(head.len() as int) =~= head);
    first_of_none(head, c);
}

proof fn first_of_at(s: Seq<char>, c: char, i: int)
    requires
        0 <= i < s.len(),
        s[i] == c,
        forall|k: int| 0 <= k < i ==> #[trigger] s[k] != c,
    ensures
        first_of(s, c) == Some(i),
    decreases s.len(),
{
    if i > 0 {
        assert(s[0] != c);
        let rest = s.drop_first();
        assert forall|k: int| 0 <= k < i - 1 implies #[trigger] rest[k] != c by {
            assert(rest[k] == s[k + 1]);
        }
        first_of_at(rest, c, i - 1);
    }
}

proof fn first_of_none(s: Seq<char>, c: char)
    requires
        free_of(s, c),
    ensures
        first_of(s, c) is None,
    decreases s.len(),
{
    if s.len() > 0 {
        assert(s[0] != c);
        let rest = s.drop_first();
        assert forall|k: int| 0 <= k < rest.len() implies #[trigger] rest[k] != c by {
            assert(rest[k] == s[k + 1]);
        }
        first_of_none(rest, c);
    }
}

/// Every text falls into what stands before its first `c` and the rest, and what stands
/// before is free of `c`.
pub proof fn before_first_is_free(s: Seq<char>, c: char)
    ensures
        free_of(before_first(s, c), c),
        before_first(s, c) == s || exists|tail: Seq<char>|
            #![trigger before_first(s, c) + seq![c] + tail]
            s == before_first(s, c) + seq![c] + tail,
    decreases s.len(),
{
    if s.len() > 0 && s[0] != c {
        let rest = s.drop_first();
        before_first_is_free(rest, c);
        let b = before_first(rest, c);
        first_of_in_range(rest, c);
        assert(before_first(s, c) =~= seq![s[0]] + b);
        if b != rest {
            let tail = choose|tail: Seq<char>|
                #![trigger before_first(rest, c) + seq![c] + tail]
                rest == before_first(rest, c) + seq![c] + tail;
            assert(rest == b + seq![c] + tail);
            assert(s =~= seq![s[0]] + rest);
            assert(s =~= before_first(s, c) + seq![c] + tail);
        } else {
            assert(before_first(s, c) =~= s);
        }
    } else if s.len() > 0 {
        assert(before_first(s, c) =~= Seq::empty());
        assert(s =~= before_first(s, c) + seq![c] + s.drop_first());
    }
}

proof fn first_of_in_range(s: Seq<char>, c: char)
    ensures
        first_of(s, c) matches Some(i) ==> 0 <= i < s.len(),
    decreases s.len(),
{
    if s.len() > 0 && s[0] != c {
        first_of_in_range(s.drop_first(), c);
    }
}

/// A prefix that stands nowhere else is taken away.
pub proof fn prefix_is_taken_away(p: Seq<char>, s: Seq<char>)
    requires
        p.len() > 0,
        !(has(s, p)),
    ensures
        without_all(p + s, p) == s,
        without_all(s, p) == s,
{
    nothing_is_taken_away(s, p);
    assert((p + s).take(p.len() as int) =~= p);
    assert((p + s).skip(p.len() as int) =~= s);
}

proof fn nothing_is_taken_away(s: Seq<char>, p: Seq<char>)
    requires
        p.len() > 0,
        !(has(s, p)),
    ensures
        without_all(s, p) == s,
    decreases s.len(),
{
    if s.len() >= p.len() {
        assert(!has_at(s, p, 0));
        assert(s.subrange(0, p.len() as int) =~= s.take(p.len() as int));
        let rest = s.drop_first();
        if has(rest, p) {
            let i = choose|i: int| has_at(rest, p, i);
            assert(s.subrange(i + 1, i + 1 + p.len()) =~= rest.subrange(i, i + p.len()));
            assert(has_at(s, p, i + 1));
        }
        nothing_is_taken_away(rest, p);
        assert(seq![s[0]] + rest =~= s);
    }
}

/// Upper case changes the letters `a` to `z` and nothing else, lower case the letters
/// `A` to `Z`, and each letter becomes its partner.
pub proof fn case_changes_letters(s: Seq<char>, i: int)
    requires
        0 <= i < s.len(),
    ensures
        upper(s).len() == s.len(),
        lower(s).len() == s.len(),
        'a' <= s[i] <= 'z' ==> upper(s)[i] as int == s[i] as int - 'a' as int + 'A' as int,
        !('a' <= s[i] <= 'z') ==> upper(s)[i] == s[i],
        'A' <= s[i] <= 'Z' ==> lower(s)[i] as int == s[i] as int - 'A' as int + 'a' as int,
        !('A' <= s[i] <= 'Z') ==> lower(s)[i] == s[i],
{
}

/// A space becomes an underscore, and every other character stays.
pub proof fn spaces_become_underscores(s: Seq<char>, i: int)
    requires
        0 <= i < s.len(),
    ensures
        underscored(s).len() == s.len(),
        underscored(s)[i] == (if s[i] == ' ' {
            '_'
        } else {
            s[i]
        }),
{
}

/// The number that decimal digits stand for.
pub open spec fn number_of(s: Seq<char>) -> int
    decreases s.len(),
{
    if s.len() == 0 {
        0
    } else {
        number_of(s.drop_last()) * 10 + (s.last() as int - '0' as int)
    }
}

/// The decimal text of a number stands for that number, is made of digits, and has no
/// leading zero.
pub proof fn decimal_stands_for_its_number(n: nat)
    ensures
        number_of(decimal(n)) == n,
        decimal(n).len() > 0,
        forall|i: int| 0 <= i < decimal(n).len() ==> '0' <= #[trigger] decimal(n)[i] <= '9',
        n > 0 ==> decimal(n)[0] != '0',
    decreases n,
{
    reveal_strlit("0123456789");
    if n < 10 {
        assert(seq![digit(n)].drop_last() =~= Seq::empty());
        assert(number_of(Seq::<char>::empty()) == 0);
    } else {
        decimal_stands_for_its_number(n / 10);
        let init = decimal(n / 10);
        assert(decimal(n).drop_last() =~= init);
    }
}

/// Of two texts the one comes first that has the smaller character where they first
/// differ, or that ends first.
pub proof fn order_is_that_of_the_first_difference(a: Seq<char>, b: Seq<char>, i: int)
    requires
        0 <= i <= a.len(),
        i <= b.len(),
        forall|k: int| 0 <= k < i ==> #[trigger] a[k] == b[k],
    ensures
        i < a.len() && i < b.len() && a[i] != b[i] ==> precedes(a, b) == (a[i] < b[i]),
        i == a.len() ==> precedes(a, b) == (a.len() < b.len()),
        i == b.len() ==> !precedes(a, b),
    decreases i,
{
    if i > 0 {
        assert(a[0] == b[0]);
        let x = a.drop_first();
        let y = b.drop_first();
        assert forall|k: int| 0 <= k < i - 1 implies #[trigger] x[k] == y[k] by {
            assert(a[k + 1] == b[k + 1]);
        }
        order_is_that_of_the_first_difference(x, y, i - 1);
    }
}

/// What is left after `c` was taken from an end does not have it there, and what was
/// taken is `c` alone.
pub proof fn ends_are_taken_off(s: Seq<char>, c: char)
    ensures
        without_trailing(s, c).len() == 0 || without_trailing(s, c).last() != c,
        without_trailing(s, c).len() <= s.len(),
        s.take(without_trailing(s, c).len() as int) == without_trailing(s, c),
        forall|i: int| without_trailing(s, c).len() <= i < s.len() ==> #[trigger] s[i] == c,
        without_leading(s, c).len() == 0 || without_leading(s, c)[0] != c,
        without_leading(s, c).len() <= s.len(),
        s.skip(s.len() - without_leading(s, c).len()) == without_leading(s, c),
        forall|i: int| 0 <= i < s.len() - without_leading(s, c).len() ==> #[trigger] s[i] == c,
    decreases s.len(),
{
    trailing_is_taken_off(s, c);
    leading_is_taken_off(s, c);
}

proof fn trailing_is_taken_off(s: Seq<char>, c: char)
    ensures
        without_trailing(s, c).len() == 0 || without_trailing(s, c).last() != c,
        without_trailing(s, c).len() <= s.len(),
        s.take(without_trailing(s, c).len() as int) == without_trailing(s, c),
        forall|i: int| without_trailing(s, c).len() <= i < s.len() ==> #[trigger] s[i] == c,
    decreases s.len(),
{
    let w = without_trailing(s, c);
    if s.len() > 0 && s.last() == c {
        let init = s.drop_last();
        trailing_is_taken_off(init, c);
        assert(s.take(w.len() as int) =~= init.take(w.len() as int));
        assert forall|i: int| w.len() <= i < s.len() implies #[trigger] s[i] == c by {
            if i < init.len() {
                assert(init[i] == c);
            }
        }
    } else {
        assert(s.take(w.len() as int) =~= s);
    }
}

proof fn leading_is_taken_off(s: Seq<char>, c: char)
    ensures
        without_leading(s, c).len() == 0 || without_leading(s, c)[0] != c,
        without_leading(s, c).len() <= s.len(),
        s.skip(s.len() - without_leading(s, c).len()) == without_leading(s, c),
        forall|i: int| 0 <= i < s.len() - without_leading(s, c).len() ==> #[trigger] s[i] == c,
    decreases s.len(),
{
    let w = without_leading(s, c);
    if s.len() > 0 && s[0] == c {
        let rest = s.drop_first();
        leading_is_taken_off(rest, c);
        assert(s.skip(s.len() - w.len()) =~= rest.skip(rest.len() - w.len()));
        assert forall|i: int| 0 <= i < s.len() - w.len() implies #[trigger] s[i] == c by {
            if i > 0 {
                assert(rest[i - 1] == c);
            }
        }
    } else {
        assert(s.skip(0) =~= s);
    }
}

/// What is trimmed of a text is blank, and what is left neither begins nor ends with a
/// blank.
pub proof fn blanks_are_trimmed(s: Seq<char>)
    ensures
        trimmed(s).len() > 0 ==> !blank(trimmed(s)[0]) && !blank(trimmed(s).last()),
        exists|a: Seq<char>, b: Seq<char>|
            #![trigger a + trimmed(s) + b]
            s == a + trimmed(s) + b && (forall|i: int| 0 <= i < a.len() ==> blank(#[trigger] a[i]))
                && (forall|i: int| 0 <= i < b.len() ==> blank(#[trigger] b[i])),
    decreases s.len(),
{
    let r = trimmed(s);
    if s.len() > 0 && blank(s[0]) {
        let rest = s.drop_first();
        blanks_are_trimmed(rest);
        let (a, b) = choose|a: Seq<char>, b: Seq<char>|
            #![trigger a + trimmed(rest) + b]
            rest == a + trimmed(rest) + b && (forall|i: int|
                0 <= i < a.len() ==> blank(#[trigger] a[i])) && (forall|i: int|
                0 <= i < b.len() ==> blank(#[trigger] b[i]));
        let more = seq![s[0]] + a;
        assert(s =~= seq![s[0]] + rest);
        assert(more + r + b =~= seq![s[0]] + (a + r + b));
        assert(s == more + r + b);
    } else if s.len() > 0 && blank(s.last()) {
        let rest = s.drop_last();
        blanks_are_trimmed(rest);
        let (a, b) = choose|a: Seq<char>, b: Seq<char>|
            #![trigger a + trimmed(rest) + b]
            rest == a + trimmed(rest) + b && (forall|i: int|
                0 <= i < a.len() ==> blank(#[trigger] a[i])) && (forall|i: int|
                0 <= i < b.len() ==> blank(#[trigger] b[i]));
        let more = b.push(s.last());
        assert(s =~= rest + seq![s.last()]);
        assert(a + r + more =~= (a + r + b) + seq![s.last()]);
        assert(s == a + r + more);
    } else {
        let none = Seq::<char>::empty();
        assert(s =~= none + r + none);
    }
}

} // verus!
