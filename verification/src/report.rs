//! Building blocks of the text the tools answer with: labelled lines,
//! rules, joined lists, numbers and tables of counts.

use vstd::prelude::*;
use crate::tally::{counts_view, string_views};
use crate::text::{append_decimal, append_signed, decimal, signed_decimal};

verus! {

/// `label`, the value and a line break, when the value is present.
pub open spec fn opt_line(label: Seq<char>, v: Option<String>) -> Seq<char> {
    match v {
        Some(x) => label + x@ + "\n"@,
        None => Seq::empty(),
    }
}

/// Appends `label`, the value and a line break, when the value is present.
pub fn push_opt_line(out: &mut String, label: &str, v: &Option<String>)
    ensures
        final(out)@ == old(out)@ + opt_line(label@, *v),
{
    match v {
        Some(x) => {
            out.append(label);
            out.append(x.as_str());
            out.append("\n");
        },
        None => {
            assert(out@ + opt_line(label@, *v) =~= out@);
        },
    }
}

/// A text repeated `n` times.
pub open spec fn repeated(s: Seq<char>, n: nat) -> Seq<char>
    decreases n,
{
    if n == 0 {
        Seq::empty()
    } else {
        repeated(s, (n - 1) as nat) + s
    }
}

/// Appends a text `n` times.
pub fn push_repeated(out: &mut String, s: &str, n: usize)
    ensures
        final(out)@ == old(out)@ + repeated(s@, n as nat),
{
    let ghost start = out@;
    assert(start + repeated(s@, 0) =~= start);
    for i in 0..n
        invariant
            out@ == start + repeated(s@, i as nat),
    {
        out.append(s);
        assert(out@ =~= start + repeated(s@, (i + 1) as nat));
    }
}

/// The rule that separates the parts of an answer: 80 `─`.
pub open spec fn rule() -> Seq<char> {
    repeated("─"@, 80)
}

/// The heavier rule under a title: 80 `═`.
pub open spec fn double_rule() -> Seq<char> {
    repeated("═"@, 80)
}

/// Appends the rule of 80 `─`.
pub fn push_rule(out: &mut String)
    ensures
        final(out)@ == old(out)@ + rule(),
{
    push_repeated(out, "─", 80);
}

/// Appends the rule of 80 `═`.
pub fn push_double_rule(out: &mut String)
    ensures
        final(out)@ == old(out)@ + double_rule(),
{
    push_repeated(out, "═", 80);
}

/// Items joined by a separator.
pub open spec fn joined(items: Seq<Seq<char>>, sep: Seq<char>) -> Seq<char>
    decreases items.len(),
{
    if items.len() == 0 {
        Seq::empty()
    } else if items.len() == 1 {
        items[0]
    } else {
        joined(items.drop_last(), sep) + sep + items.last()
    }
}

/// Appends strings joined by a separator.
pub fn push_joined(out: &mut String, items: &Vec<String>, sep: &str)
    ensures
        final(out)@ == old(out)@ + joined(string_views(items@), sep@),
{
    let ghost start = out@;
    let n = items.len();
    assert(string_views(items@).take(0) =~= Seq::<Seq<char>>::empty());
    assert(start + joined(Seq::<Seq<char>>::empty(), sep@) =~= start);
    for i in 0..n
        invariant
            n == items@.len(),
            out@ == start + joined(string_views(items@).take(i as int), sep@),
    {
        let ghost before = out@;
        if i > 0 {
            out.append(sep);
        }
        out.append(items[i].as_str());
        proof {
            let t = string_views(items@).take(i + 1);
            assert(t.drop_last() =~= string_views(items@).take(i as int));
            assert(t.last() == items@[i as int]@);
            if i == 0 {
                assert(t =~= seq![items@[0]@]);
                assert(out@ =~= start + joined(t, sep@));
            } else {
                assert(out@ =~= start + joined(t, sep@));
            }
        }
    }
    assert(string_views(items@).take(n as int) =~= string_views(items@));
}

/// How a flag is written: `true` or `false`.
pub open spec fn bool_text(b: bool) -> Seq<char> {
    if b {
        "true"@
    } else {
        "false"@
    }
}

/// Appends a flag as `true` or `false`.
pub fn push_bool(out: &mut String, b: bool)
    ensures
        final(out)@ == old(out)@ + bool_text(b),
{
    if b {
        out.append("true");
    } else {
        out.append("false");
    }
}

/// Appends a count in decimal.
pub fn push_count(out: &mut String, n: usize)
    ensures
        final(out)@ == old(out)@ + decimal(n as nat),
{
    append_decimal(out, n as u64);
}

/// Where an entry with count `c` goes in a table ordered by count, largest
/// first: after every entry whose count is not smaller (from `from` on).
pub open spec fn count_position(t: Seq<(Seq<char>, nat)>, c: nat, from: int) -> int
    decreases t.len() - from,
{
    if from < 0 || from >= t.len() {
        t.len() as int
    } else if t[from].1 < c {
        from
    } else {
        count_position(t, c, from + 1)
    }
}

/// A table of counts ordered by count, largest first; entries with equal
/// counts keep their order.
pub open spec fn by_count(t: Seq<(Seq<char>, nat)>) -> Seq<(Seq<char>, nat)>
    decreases t.len(),
{
    if t.len() == 0 {
        t
    } else {
        let s = by_count(t.drop_last());
        s.insert(count_position(s, t.last().1, 0), t.last())
    }
}

/// No entry has a larger count than an entry before it.
pub open spec fn ordered_by_count(t: Seq<(Seq<char>, nat)>) -> bool {
    forall|i: int, j: int| #![trigger t[i], t[j]] 0 <= i < j < t.len() ==> t[i].1 >= t[j].1
}

proof fn lemma_count_position(t: Seq<(Seq<char>, nat)>, c: nat, from: int)
    requires
        0 <= from <= t.len(),
    ensures
        ({
            let p = count_position(t, c, from);
            &&& from <= p <= t.len()
            &&& forall|j: int| from <= j < p ==> #[trigger] t[j].1 >= c
            &&& p < t.len() ==> t[p].1 < c
        }),
    decreases t.len() - from,
{
    if from < t.len() && t[from].1 >= c {
        lemma_count_position(t, c, from + 1);
    }
}

/// `by_count` orders a table by count, largest first, and keeps every
/// entry: the result is a permutation of the table.
pub proof fn lemma_by_count(t: Seq<(Seq<char>, nat)>)
    ensures
        by_count(t).len() == t.len(),
        ordered_by_count(by_count(t)),
        by_count(t).to_multiset() == t.to_multiset(),
    decreases t.len(),
{
    broadcast use vstd::seq_lib::group_to_multiset_ensures;
    if t.len() > 0 {
        let rest = t.drop_last();
        lemma_by_count(rest);
        let s = by_count(rest);
        let x = t.last();
        lemma_count_position(s, x.1, 0);
        let p = count_position(s, x.1, 0);
        let r = s.insert(p, x);
        assert forall|j: int| p <= j < s.len() implies #[trigger] s[j].1 < x.1 by {
            if p < j {
                assert(s[p].1 >= s[j].1);
            }
        }
        assert forall|i: int, j: int| #![trigger r[i], r[j]] 0 <= i < j < r.len() implies r[i].1 >= r[j].1 by {
            if j < p {
                assert(r[i] == s[i] && r[j] == s[j]);
            } else if j == p {
                assert(r[i] == s[i]);
            } else if i < p {
                assert(r[i] == s[i] && r[j] == s[j - 1]);
            } else if i == p {
                assert(r[j] == s[j - 1]);
            } else {
                assert(r[i] == s[i - 1] && r[j] == s[j - 1]);
            }
        }
        assert(r.remove(p) =~= s);
        assert(r.to_multiset().count(x) > 0) by {
            assert(r[p] == x);
            assert(r.contains(x));
        }
        assert(r.to_multiset() =~= s.to_multiset().insert(x));
        assert(t == rest.push(x));
    }
}

/// Orders a table of counts by count, largest first (stable).
pub fn sort_by_count(t: &Vec<(String, usize)>) -> (r: Vec<(String, usize)>)
    ensures
        counts_view(r@) == by_count(counts_view(t@)),
{
    let ghost input = counts_view(t@);
    let mut out: Vec<(String, usize)> = Vec::new();
    let n = t.len();
    for k in 0..n
        invariant
            n == t@.len(),
            input == counts_view(t@),
            counts_view(out@) == by_count(input.take(k as int)),
    {
        let c = t[k].1;
        let ghost view = counts_view(out@);
        proof {
            lemma_count_position(view, c as nat, 0);
        }
        let mut p: usize = 0;
        while p < out.len() && out[p].1 >= c
            invariant
                p <= out@.len(),
                view == counts_view(out@),
                count_position(view, c as nat, 0) == count_position(view, c as nat, p as int),
            decreases out@.len() - p,
        {
            p = p + 1;
        }
        proof {
            assert(count_position(view, c as nat, p as int) == p);
            assert(input.take(k + 1).drop_last() =~= input.take(k as int));
            assert(input.take(k + 1).last() == (t@[k as int].0@, c as nat));
        }
        let entry = (t[k].0.clone(), c);
        out.insert(p, entry);
        proof {
            assert(counts_view(out@) =~= view.insert(p as int, (t@[k as int].0@, c as nat)));
        }
    }
    proof {
        assert(input.take(n as int) =~= input);
    }
    out
}

/// One line per entry: two spaces, the key, `: ` and the count.
pub open spec fn count_lines(t: Seq<(Seq<char>, nat)>) -> Seq<char>
    decreases t.len(),
{
    if t.len() == 0 {
        Seq::empty()
    } else {
        count_lines(t.drop_last()) + "  "@ + t.last().0 + ": "@ + decimal(t.last().1) + "\n"@
    }
}

/// A table of counts written one line per entry, largest count first.
pub open spec fn counts_text(t: Seq<(Seq<char>, nat)>) -> Seq<char> {
    count_lines(by_count(t))
}

/// Appends a table of counts, one line per entry, largest count first.
pub fn push_counts(out: &mut String, t: &Vec<(String, usize)>)
    ensures
        final(out)@ == old(out)@ + counts_text(counts_view(t@)),
{
    let sorted = sort_by_count(t);
    let ghost start = out@;
    let ghost view = counts_view(sorted@);
    assert(start + count_lines(view.take(0)) =~= start);
    let n = sorted.len();
    for i in 0..n
        invariant
            n == sorted@.len(),
            view == counts_view(sorted@),
            out@ == start + count_lines(view.take(i as int)),
    {
        out.append("  ");
        out.append(sorted[i].0.as_str());
        out.append(": ");
        push_count(out, sorted[i].1);
        out.append("\n");
        proof {
            assert(view.take(i + 1).drop_last() =~= view.take(i as int));
            assert(out@ =~= start + count_lines(view.take(i + 1)));
        }
    }
    assert(view.take(n as int) =~= view);
}


/// A text when a condition holds, else nothing.
pub open spec fn only_if(c: bool, s: Seq<char>) -> Seq<char> {
    if c {
        s
    } else {
        Seq::empty()
    }
}

/// Appends a text when a condition holds.
pub fn push_if(out: &mut String, c: bool, s: &str)
    ensures
        final(out)@ == old(out)@ + only_if(c, s@),
{
    if c {
        out.append(s);
    } else {
        assert(out@ + only_if(c, s@) =~= out@);
    }
}

/// A count in decimal, as a string.
pub fn count_string(n: usize) -> (r: String)
    ensures
        r@ == decimal(n as nat),
{
    let mut s = String::new();
    push_count(&mut s, n);
    assert(s@ =~= decimal(n as nat));
    s
}


/// `pre`, the value and `post`, when the value is present.
pub open spec fn opt_wrapped(pre: Seq<char>, v: Option<String>, post: Seq<char>) -> Seq<char> {
    match v {
        Some(x) => pre + x@ + post,
        None => Seq::empty(),
    }
}

/// Appends `pre`, the value and `post`, when the value is present.
pub fn push_opt_wrapped(out: &mut String, pre: &str, v: &Option<String>, post: &str)
    ensures
        final(out)@ == old(out)@ + opt_wrapped(pre@, *v, post@),
{
    match v {
        Some(x) => {
            let ghost start = out@;
            out.append(pre);
            out.append(x.as_str());
            out.append(post);
            assert(out@ =~= start + opt_wrapped(pre@, *v, post@));
        },
        None => {
            assert(out@ + opt_wrapped(pre@, *v, post@) =~= out@);
        },
    }
}

/// `label`, the flag and a line break, when the flag is present.
pub open spec fn opt_bool_line(label: Seq<char>, v: Option<bool>) -> Seq<char> {
    match v {
        Some(b) => label + bool_text(b) + "\n"@,
        None => Seq::empty(),
    }
}

/// Appends `label`, the flag and a line break, when the flag is present.
pub fn push_opt_bool_line(out: &mut String, label: &str, v: Option<bool>)
    ensures
        final(out)@ == old(out)@ + opt_bool_line(label@, v),
{
    match v {
        Some(b) => {
            let ghost start = out@;
            out.append(label);
            push_bool(out, b);
            out.append("\n");
            assert(out@ =~= start + opt_bool_line(label@, v));
        },
        None => {
            assert(out@ + opt_bool_line(label@, v) =~= out@);
        },
    }
}

/// `label`, the count and a line break, when the count is present.
pub open spec fn opt_count_line(label: Seq<char>, v: Option<usize>) -> Seq<char> {
    match v {
        Some(n) => label + decimal(n as nat) + "\n"@,
        None => Seq::empty(),
    }
}

/// Appends `label`, the count and a line break, when the count is present.
pub fn push_opt_count_line(out: &mut String, label: &str, v: Option<usize>)
    ensures
        final(out)@ == old(out)@ + opt_count_line(label@, v),
{
    match v {
        Some(n) => {
            let ghost start = out@;
            out.append(label);
            push_count(out, n);
            out.append("\n");
            assert(out@ =~= start + opt_count_line(label@, v));
        },
        None => {
            assert(out@ + opt_count_line(label@, v) =~= out@);
        },
    }
}

/// `label`, the items joined by `, ` and a line break, when there are items.
pub open spec fn list_line(label: Seq<char>, v: Option<Vec<String>>) -> Seq<char> {
    match v {
        Some(items) => if items@.len() > 0 {
            label + joined(string_views(items@), ", "@) + "\n"@
        } else {
            Seq::empty()
        },
        None => Seq::empty(),
    }
}

/// Appends `label`, the items joined by `, ` and a line break, when there are items.
pub fn push_list_line(out: &mut String, label: &str, v: &Option<Vec<String>>)
    ensures
        final(out)@ == old(out)@ + list_line(label@, *v),
{
    let ghost start = out@;
    match v {
        Some(items) => {
            if items.len() > 0 {
                out.append(label);
                push_joined(out, items, ", ");
                out.append("\n");
                assert(out@ =~= start + list_line(label@, *v));
            } else {
                assert(out@ + list_line(label@, *v) =~= out@);
            }
        },
        None => {
            assert(out@ + list_line(label@, *v) =~= out@);
        },
    }
}

/// The first `n` items of a sequence (all of them when there are fewer).
pub open spec fn first_n<A>(s: Seq<A>, n: nat) -> Seq<A> {
    if s.len() <= n {
        s
    } else {
        s.take(n as int)
    }
}

/// One line per pair: `indent`, the key, `: `, the value.
pub open spec fn pair_lines(pairs: Seq<(String, String)>, indent: Seq<char>) -> Seq<char>
    decreases pairs.len(),
{
    if pairs.len() == 0 {
        Seq::empty()
    } else {
        pair_lines(pairs.drop_last(), indent) + indent + pairs.last().0@ + ": "@ + pairs.last().1@ + "\n"@
    }
}

/// Appends the lines of the first `limit` pairs.
pub fn push_pair_lines(out: &mut String, pairs: &Vec<(String, String)>, indent: &str, limit: usize)
    ensures
        final(out)@ == old(out)@ + pair_lines(first_n(pairs@, limit as nat), indent@),
{
    let ghost start = out@;
    let n = if pairs.len() <= limit { pairs.len() } else { limit };
    assert(start + pair_lines(pairs@.take(0), indent@) =~= start);
    for i in 0..n
        invariant
            n <= pairs@.len(),
            out@ == start + pair_lines(pairs@.take(i as int), indent@),
    {
        out.append(indent);
        out.append(pairs[i].0.as_str());
        out.append(": ");
        out.append(pairs[i].1.as_str());
        out.append("\n");
        proof {
            assert(pairs@.take(i + 1).drop_last() =~= pairs@.take(i as int));
            assert(out@ =~= start + pair_lines(pairs@.take(i + 1), indent@));
        }
    }
    assert(pairs@.take(n as int) =~= first_n(pairs@, limit as nat));
}

/// One line per text: `indent`, the text, a line break.
pub open spec fn indented_lines(ls: Seq<Seq<char>>, indent: Seq<char>) -> Seq<char>
    decreases ls.len(),
{
    if ls.len() == 0 {
        Seq::empty()
    } else {
        indented_lines(ls.drop_last(), indent) + indent + ls.last() + "\n"@
    }
}

/// Appends one line per text of the first `limit` texts.
pub fn push_indented_lines(out: &mut String, ls: &Vec<String>, indent: &str, limit: usize)
    ensures
        final(out)@ == old(out)@ + indented_lines(first_n(string_views(ls@), limit as nat), indent@),
{
    let ghost start = out@;
    let ghost views = string_views(ls@);
    let n = if ls.len() <= limit { ls.len() } else { limit };
    assert(start + indented_lines(views.take(0), indent@) =~= start);
    for i in 0..n
        invariant
            n <= ls@.len(),
            views == string_views(ls@),
            out@ == start + indented_lines(views.take(i as int), indent@),
    {
        out.append(indent);
        out.append(ls[i].as_str());
        out.append("\n");
        proof {
            assert(views.take(i + 1).drop_last() =~= views.take(i as int));
            assert(out@ =~= start + indented_lines(views.take(i + 1), indent@));
        }
    }
    assert(views.take(n as int) =~= first_n(views, limit as nat));
}

/// The counts of the first `limit` entries of a table ordered by count.
pub open spec fn top_counts_text(t: Seq<(Seq<char>, nat)>, limit: nat) -> Seq<char> {
    count_lines(first_n(by_count(t), limit))
}

/// Appends the lines of the `limit` largest counts, largest first.
pub fn push_top_counts(out: &mut String, t: &Vec<(String, usize)>, limit: usize)
    ensures
        final(out)@ == old(out)@ + top_counts_text(counts_view(t@), limit as nat),
{
    let sorted = sort_by_count(t);
    let ghost start = out@;
    let ghost view = counts_view(sorted@);
    let n = if sorted.len() <= limit { sorted.len() } else { limit };
    assert(start + count_lines(view.take(0)) =~= start);
    for i in 0..n
        invariant
            n <= sorted@.len(),
            view == counts_view(sorted@),
            out@ == start + count_lines(view.take(i as int)),
    {
        out.append("  ");
        out.append(sorted[i].0.as_str());
        out.append(": ");
        push_count(out, sorted[i].1);
        out.append("\n");
        proof {
            assert(view.take(i + 1).drop_last() =~= view.take(i as int));
            assert(out@ =~= start + count_lines(view.take(i + 1)));
        }
    }
    assert(view.take(n as int) =~= first_n(view, limit as nat));
}


/// `label`, the signed number and a line break, when the number is present.
pub open spec fn opt_signed_line(label: Seq<char>, v: Option<i64>) -> Seq<char> {
    match v {
        Some(n) => label + signed_decimal(n as int) + "\n"@,
        None => Seq::empty(),
    }
}

/// Appends `label`, the signed number and a line break, when the number is present.
pub fn push_opt_signed_line(out: &mut String, label: &str, v: Option<i64>)
    ensures
        final(out)@ == old(out)@ + opt_signed_line(label@, v),
{
    match v {
        Some(n) => {
            let ghost start = out@;
            out.append(label);
            append_signed(out, n);
            out.append("\n");
            assert(out@ =~= start + opt_signed_line(label@, v));
        },
        None => {
            assert(out@ + opt_signed_line(label@, v) =~= out@);
        },
    }
}

} // verus!
