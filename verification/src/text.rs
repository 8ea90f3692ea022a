//! Small verified text-building blocks used by the diagnostic messages:
//! decimal rendering of unsigned integers, joining a list of names with a
//! separator, and a substring-containment predicate with the lemmas the
//! message contracts need.

use vstd::prelude::*;

verus! {

use vstd::string::StringExecFns;

/// `needle` occurs contiguously somewhere inside `hay`.
pub open spec fn seq_contains(hay: Seq<char>, needle: Seq<char>) -> bool {
    exists|i: int|
        0 <= i && i + needle.len() <= hay.len() && #[trigger] hay.subrange(i, i + needle.len())
            == needle
}

/// Every sequence contains itself.
pub proof fn lemma_contains_self(x: Seq<char>)
    ensures
        seq_contains(x, x),
{
    let i: int = 0;
    assert(x.subrange(i, i + x.len()) =~= x);
}

/// Containment survives prepending text.
pub proof fn lemma_contains_lift_left(a: Seq<char>, b: Seq<char>, x: Seq<char>)
    requires
        seq_contains(b, x),
    ensures
        seq_contains(a + b, x),
{
    let i = choose|i: int|
        0 <= i && i + x.len() <= b.len() && #[trigger] b.subrange(i, i + x.len()) == x;
    assert((a + b).subrange(a.len() + i, a.len() + i + x.len()) =~= b.subrange(i, i + x.len()));
}

/// Containment survives appending text.
pub proof fn lemma_contains_lift_right(a: Seq<char>, b: Seq<char>, x: Seq<char>)
    requires
        seq_contains(a, x),
    ensures
        seq_contains(a + b, x),
{
    let i = choose|i: int|
        0 <= i && i + x.len() <= a.len() && #[trigger] a.subrange(i, i + x.len()) == x;
    assert((a + b).subrange(i, i + x.len()) =~= a.subrange(i, i + x.len()));
}

/// A concatenation contains its middle part.
pub proof fn lemma_contains_middle(a: Seq<char>, x: Seq<char>, b: Seq<char>)
    ensures
        seq_contains(a + x + b, x),
{
    lemma_contains_self(x);
    lemma_contains_lift_left(a, x, x);
    lemma_contains_lift_right(a + x, b, x);
}

/// A concatenation contains its last part.
pub proof fn lemma_contains_end(a: Seq<char>, x: Seq<char>)
    ensures
        seq_contains(a + x, x),
{
    lemma_contains_self(x);
    lemma_contains_lift_left(a, x, x);
}

/// The characters of one decimal digit.
pub open spec fn digit_seq(d: nat) -> Seq<char> {
    if d == 0 {
        "0"@
    } else if d == 1 {
        "1"@
    } else if d == 2 {
        "2"@
    } else if d == 3 {
        "3"@
    } else if d == 4 {
        "4"@
    } else if d == 5 {
        "5"@
    } else if d == 6 {
        "6"@
    } else if d == 7 {
        "7"@
    } else if d == 8 {
        "8"@
    } else {
        "9"@
    }
}

/// The decimal rendering of `n`, most significant digit first, no sign and no
/// leading zeros (`0` itself renders as `"0"`).
pub open spec fn dec_seq(n: nat) -> Seq<char>
    decreases n,
{
    if n < 10 {
        digit_seq(n)
    } else {
        dec_seq(n / 10) + digit_seq(n % 10)
    }
}

fn digit_str(d: u64) -> (r: &'static str)
    requires
        d < 10,
    ensures
        r@ == digit_seq(d as nat),
{
    if d == 0 {
        "0"
    } else if d == 1 {
        "1"
    } else if d == 2 {
        "2"
    } else if d == 3 {
        "3"
    } else if d == 4 {
        "4"
    } else if d == 5 {
        "5"
    } else if d == 6 {
        "6"
    } else if d == 7 {
        "7"
    } else if d == 8 {
        "8"
    } else {
        "9"
    }
}

/// Renders `n` in decimal.
pub fn u64_to_dec(n: u64) -> (r: String)
    ensures
        r@ == dec_seq(n as nat),
    decreases n,
{
    if n < 10 {
        digit_str(n).to_owned()
    } else {
        let q = u64_to_dec(n / 10);
        q.concat(digit_str(n % 10))
    }
}

/// Renders `n` in decimal.
pub fn usize_to_dec(n: usize) -> (r: String)
    ensures
        r@ == dec_seq(n as nat),
    decreases n,
{
    if n < 10 {
        digit_str(n as u64).to_owned()
    } else {
        let q = usize_to_dec(n / 10);
        q.concat(digit_str((n % 10) as u64))
    }
}

/// The items joined left to right with `sep` between neighbours.
pub open spec fn join_seq(items: Seq<Seq<char>>, sep: Seq<char>) -> Seq<char>
    decreases items.len(),
{
    if items.len() == 0 {
        Seq::empty()
    } else if items.len() == 1 {
        items[0]
    } else {
        join_seq(items.drop_last(), sep) + sep + items.last()
    }
}

/// A join contains every one of its items.
pub proof fn lemma_join_contains(items: Seq<Seq<char>>, sep: Seq<char>, j: int)
    requires
        0 <= j < items.len(),
    ensures
        seq_contains(join_seq(items, sep), items[j]),
    decreases items.len(),
{
    if items.len() == 1 {
        lemma_contains_self(items[0]);
    } else if j == items.len() - 1 {
        lemma_contains_self(items.last());
        lemma_contains_lift_left(
            join_seq(items.drop_last(), sep) + sep,
            items.last(),
            items.last(),
        );
    } else {
        lemma_join_contains(items.drop_last(), sep, j);
        lemma_contains_lift_right(join_seq(items.drop_last(), sep), sep, items[j]);
        lemma_contains_lift_right(
            join_seq(items.drop_last(), sep) + sep,
            items.last(),
            items[j],
        );
    }
}

/// The views of a sequence of strings.
pub open spec fn views_of(items: Seq<String>) -> Seq<Seq<char>> {
    items.map_values(|s: String| s@)
}

/// `s` wrapped in double quotes.
pub open spec fn quote_seq(s: Seq<char>) -> Seq<char> {
    "\""@ + s + "\""@
}

/// The views of a sequence of strings, each wrapped in double quotes.
pub open spec fn quoted_views(items: Seq<String>) -> Seq<Seq<char>> {
    items.map_values(|s: String| quote_seq(s@))
}

/// Joins the strings with `sep` between neighbours, each wrapped in double
/// quotes.
pub fn join_quoted(items: &Vec<String>, sep: &str) -> (r: String)
    ensures
        r@ == join_seq(quoted_views(items@), sep@),
{
    let mut r = String::new();
    let ghost all = quoted_views(items@);
    let mut i: usize = 0;
    while i < items.len()
        invariant
            i <= items.len(),
            all == quoted_views(items@),
            all.len() == items@.len(),
            r@ == join_seq(all.take(i as int), sep@),
        decreases items.len() - i,
    {
        if i > 0 {
            r.append(sep);
        }
        r.append("\"");
        r.append(items[i].as_str());
        r.append("\"");
        proof {
            assert(all.take(i as int + 1).drop_last() =~= all.take(i as int));
            assert(all.take(i as int + 1).last() == quote_seq(items@[i as int]@));
            assert(r@ =~= join_seq(all.take(i as int + 1), sep@));
        }
        i = i + 1;
    }
    proof {
        assert(all.take(items@.len() as int) =~= all);
    }
    r
}

/// Joins the strings with `sep` between neighbours.
pub fn join_strings(items: &Vec<String>, sep: &str) -> (r: String)
    ensures
        r@ == join_seq(views_of(items@), sep@),
{
    let mut r = String::new();
    let ghost all = views_of(items@);
    let mut i: usize = 0;
    while i < items.len()
        invariant
            i <= items.len(),
            all == views_of(items@),
            all.len() == items@.len(),
            r@ == join_seq(all.take(i as int), sep@),
        decreases items.len() - i,
    {
        if i > 0 {
            r.append(sep);
        }
        r.append(items[i].as_str());
        proof {
            assert(all.take(i as int + 1).drop_last() =~= all.take(i as int));
            assert(all.take(i as int + 1).last() == items@[i as int]@);
        }
        i = i + 1;
    }
    proof {
        assert(all.take(items@.len() as int) =~= all);
    }
    r
}

} // verus!
