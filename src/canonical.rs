//! A canonical order for line-based serializations, so that the same set of
//! lines is always written as the same bytes.
use vstd::prelude::*;
use vstd::relations::{sorted_by, total_ordering};
use vstd::seq_lib::*;
use vstd::multiset::Multiset;
use crate::text::chars_of;

verus! {

/// Lexicographic order on texts, by code point.
pub open spec fn text_le(a: Seq<char>, b: Seq<char>) -> bool
    decreases a.len(),
{
    if a.len() == 0 {
        true
    } else if b.len() == 0 {
        false
    } else if a[0] != b[0] {
        (a[0] as int) < (b[0] as int)
    } else {
        text_le(a.drop_first(), b.drop_first())
    }
}

/// `text_le` as a relation.
pub open spec fn text_order() -> spec_fn(Seq<char>, Seq<char>) -> bool {
    |a: Seq<char>, b: Seq<char>| text_le(a, b)
}

proof fn lemma_text_le_reflexive(a: Seq<char>)
    ensures
        text_le(a, a),
    decreases a.len(),
{
    if a.len() > 0 {
        lemma_text_le_reflexive(a.drop_first());
    }
}

proof fn lemma_text_le_antisymmetric(a: Seq<char>, b: Seq<char>)
    requires
        text_le(a, b),
        text_le(b, a),
    ensures
        a == b,
    decreases a.len(),
{
    if a.len() == 0 {
        assert(a =~= b);
    } else {
        assert(a[0] == b[0]);
        lemma_text_le_antisymmetric(a.drop_first(), b.drop_first());
        assert forall|i: int| 0 <= i < a.len() implies a[i] == b[i] by {
            if i > 0 {
                assert(a[i] == a.drop_first()[i - 1]);
                assert(b[i] == b.drop_first()[i - 1]);
            }
        }
        assert(a =~= b);
    }
}

proof fn lemma_text_le_transitive(a: Seq<char>, b: Seq<char>, c: Seq<char>)
    requires
        text_le(a, b),
        text_le(b, c),
    ensures
        text_le(a, c),
    decreases a.len(),
{
    if a.len() > 0 && b.len() > 0 && c.len() > 0 && a[0] == b[0] && b[0] == c[0] {
        lemma_text_le_transitive(a.drop_first(), b.drop_first(), c.drop_first());
    }
}

proof fn lemma_text_le_connected(a: Seq<char>, b: Seq<char>)
    ensures
        text_le(a, b) || text_le(b, a),
    decreases a.len(),
{
    if a.len() > 0 && b.len() > 0 && a[0] == b[0] {
        lemma_text_le_connected(a.drop_first(), b.drop_first());
    }
}

/// Texts are totally ordered by `text_le`.
pub proof fn lemma_text_order_total()
    ensures
        total_ordering(text_order()),
{
    let r = text_order();
    assert forall|x: Seq<char>| #[trigger] r(x, x) by {
        lemma_text_le_reflexive(x);
    }
    assert forall|x: Seq<char>, y: Seq<char>| #[trigger] r(x, y) && #[trigger] r(y, x) implies x
        == y by {
        lemma_text_le_antisymmetric(x, y);
    }
    assert forall|x: Seq<char>, y: Seq<char>, z: Seq<char>| #[trigger] r(x, y) && #[trigger] r(
        y,
        z,
    ) implies r(x, z) by {
        lemma_text_le_transitive(x, y, z);
    }
    assert forall|x: Seq<char>, y: Seq<char>| #[trigger] r(x, y) || #[trigger] r(y, x) by {
        lemma_text_le_connected(x, y);
    }
}

/// Whether `a` comes no later than `b`.
pub fn text_le_exec(a: &Vec<char>, b: &Vec<char>) -> (r: bool)
    ensures
        r == text_le(a@, b@),
{
    let mut i: usize = 0;
    assert(a@.skip(0) =~= a@);
    assert(b@.skip(0) =~= b@);
    while i < a.len() && i < b.len()
        invariant
            i <= a@.len(),
            i <= b@.len(),
            text_le(a@, b@) == text_le(a@.skip(i as int), b@.skip(i as int)),
        decreases a@.len() - i,
    {
        assert(a@.skip(i as int).drop_first() =~= a@.skip(i + 1));
        assert(b@.skip(i as int).drop_first() =~= b@.skip(i + 1));
        if a[i] != b[i] {
            return a[i] < b[i];
        }
        i = i + 1;
    }
    i == a.len()
}

/// The lines of a text, ended by newlines; a last line without one counts
/// when it is not empty.
pub open spec fn lines_from(cur: Seq<char>, rest: Seq<char>) -> Seq<Seq<char>>
    decreases rest.len(),
{
    if rest.len() == 0 {
        if cur.len() == 0 {
            Seq::empty()
        } else {
            seq![cur]
        }
    } else if rest[0] == '\n' {
        seq![cur] + lines_from(Seq::empty(), rest.drop_first())
    } else {
        lines_from(cur.push(rest[0]), rest.drop_first())
    }
}

/// The lines of `s`.
pub open spec fn lines_of(s: Seq<char>) -> Seq<Seq<char>> {
    lines_from(Seq::empty(), s)
}

/// Lines written one after another, each ended by a newline.
pub open spec fn join_lines(ls: Seq<Seq<char>>) -> Seq<char>
    decreases ls.len(),
{
    if ls.len() == 0 {
        Seq::empty()
    } else {
        ls[0] + seq!['\n'] + join_lines(ls.drop_first())
    }
}

/// The text of each line.
pub open spec fn views(v: Seq<Vec<char>>) -> Seq<Seq<char>> {
    v.map_values(|l: Vec<char>| l@)
}

/// `s` with its lines in ascending order.
pub open spec fn canonical_spec(s: Seq<char>) -> Seq<char> {
    join_lines(lines_of(s).sort_by(text_order()))
}

/// Texts that hold the same lines, in any order, have the same canonical form.
pub proof fn same_lines_same_canonical_form(s: Seq<char>, t: Seq<char>)
    requires
        lines_of(s).to_multiset() == lines_of(t).to_multiset(),
    ensures
        canonical_spec(s) == canonical_spec(t),
{
    lemma_text_order_total();
    lines_of(s).lemma_sort_by_ensures(text_order());
    lines_of(t).lemma_sort_by_ensures(text_order());
    lemma_sorted_unique(
        lines_of(s).sort_by(text_order()),
        lines_of(t).sort_by(text_order()),
        text_order(),
    );
}

/// The lines of `s`, without their newlines.
pub fn split_lines(s: &str) -> (r: Vec<Vec<char>>)
    ensures
        views(r@) == lines_of(s@),
{
    let chars = chars_of(s);
    let mut out: Vec<Vec<char>> = Vec::new();
    let mut cur: Vec<char> = Vec::new();
    let mut i: usize = 0;
    assert(chars@.skip(0) =~= s@);
    assert(views(out@) + lines_from(cur@, chars@.skip(0)) =~= lines_of(s@));
    while i < chars.len()
        invariant
            chars@ == s@,
            i <= chars@.len(),
            views(out@) + lines_from(cur@, chars@.skip(i as int)) == lines_of(s@),
        decreases chars@.len() - i,
    {
        let c = chars[i];
        let ghost rest = chars@.skip(i as int);
        assert(rest[0] == c);
        assert(rest.drop_first() =~= chars@.skip(i + 1));
        if c == '\n' {
            let ghost before = views(out@);
            let ghost line = cur@;
            out.push(cur);
            cur = Vec::new();
            assert(views(out@) =~= before.push(line));
            assert(cur@ =~= Seq::<char>::empty());
            assert(before + (seq![line] + lines_from(cur@, chars@.skip(i + 1))) =~= views(out@)
                + lines_from(cur@, chars@.skip(i + 1)));
        } else {
            cur.push(c);
        }
        i = i + 1;
    }
    assert(chars@.skip(i as int) =~= Seq::<char>::empty());
    if cur.len() > 0 {
        let ghost before = views(out@);
        let ghost line = cur@;
        out.push(cur);
        assert(views(out@) =~= before + seq![line]);
    } else {
        assert(views(out@) =~= views(out@) + Seq::<Seq<char>>::empty());
    }
    out
}

/// Where `x` goes in the ordered `out`: after every line that comes no later.
fn insertion_point(out: &Vec<Vec<char>>, x: &Vec<char>) -> (j: usize)
    ensures
        j <= out@.len(),
        forall|k: int| 0 <= k < j ==> text_le(#[trigger] out@[k]@, x@),
        j < out@.len() ==> !text_le(out@[j as int]@, x@),
{
    let mut j: usize = 0;
    while j < out.len()
        invariant
            j <= out@.len(),
            forall|k: int| 0 <= k < j ==> text_le(#[trigger] out@[k]@, x@),
        decreases out@.len() - j,
    {
        if !text_le_exec(&out[j], x) {
            return j;
        }
        j = j + 1;
    }
    j
}

proof fn lemma_insert_to_multiset<A>(s: Seq<A>, j: int, x: A)
    requires
        0 <= j <= s.len(),
    ensures
        s.insert(j, x).to_multiset() =~= s.to_multiset().insert(x),
{
    broadcast use group_to_multiset_ensures;
    broadcast use vstd::multiset::group_multiset_axioms;

    let t = s.insert(j, x);
    assert(t.remove(j) =~= s);
    assert(t[j] == x);
}

/// `lines` in ascending order.
pub fn sort_lines(lines: Vec<Vec<char>>) -> (r: Vec<Vec<char>>)
    ensures
        views(r@) == views(lines@).sort_by(text_order()),
{
    let ghost orig = views(lines@);
    let mut rest = lines;
    let mut out: Vec<Vec<char>> = Vec::new();
    proof {
        lemma_text_order_total();
        broadcast use group_to_multiset_ensures;
        broadcast use vstd::multiset::group_multiset_axioms;

        assert(views(out@) =~= Seq::<Seq<char>>::empty());
        assert(views(out@).to_multiset() =~= Multiset::empty());
        assert(views(out@).to_multiset().add(views(rest@).to_multiset()) =~= orig.to_multiset());
    }
    while rest.len() > 0
        invariant
            total_ordering(text_order()),
            sorted_by(views(out@), text_order()),
            views(out@).to_multiset().add(views(rest@).to_multiset()) == orig.to_multiset(),
        decreases rest@.len(),
    {
        let ghost old_rest = views(rest@);
        let ghost old_out = views(out@);
        let x = rest.pop().unwrap();
        let j = insertion_point(&out, &x);
        proof {
            assert(old_rest =~= views(rest@).push(x@));
            if j < out@.len() {
                lemma_text_le_connected(out@[j as int]@, x@);
            }
        }
        out.insert(j, x);
        proof {
            broadcast use group_to_multiset_ensures;
            broadcast use vstd::multiset::group_multiset_axioms;

            let r = text_order();
            let now = views(out@);
            assert(now =~= old_out.insert(j as int, x@));
            lemma_insert_to_multiset(old_out, j as int, x@);
            assert(now.to_multiset().add(views(rest@).to_multiset()) =~= orig.to_multiset());
            assert forall|a: int, b: int| 0 <= a < b < now.len() implies #[trigger] r(
                now[a],
                now[b],
            ) by {
                if b < j {
                    assert(r(old_out[a], old_out[b]));
                } else if b == j {
                    assert(text_le(old_out[a], x@));
                } else if a == j {
                    if j < old_out.len() {
                        assert(r(old_out[j as int], old_out[b - 1]) || j == b - 1);
                        if j != b - 1 {
                            lemma_text_le_transitive(x@, old_out[j as int], old_out[b - 1]);
                        }
                    }
                } else if a < j {
                    assert(r(old_out[a], old_out[b - 1]));
                } else {
                    assert(r(old_out[a - 1], old_out[b - 1]));
                }
            }
        }
    }
    proof {
        broadcast use group_to_multiset_ensures;
        broadcast use vstd::multiset::group_multiset_axioms;

        assert(views(rest@) =~= Seq::<Seq<char>>::empty());
        assert(views(out@).to_multiset() =~= orig.to_multiset());
        orig.lemma_sort_by_ensures(text_order());
        lemma_sorted_unique(views(out@), orig.sort_by(text_order()), text_order());
    }
    out
}

/// The lines written one after another, each ended by a newline.
pub fn join(lines: &Vec<Vec<char>>) -> (r: String)
    ensures
        r@ == join_lines(views(lines@)),
{
    let mut r = String::new();
    let mut i: usize = 0;
    assert(views(lines@).skip(0) =~= views(lines@));
    while i < lines.len()
        invariant
            i <= lines@.len(),
            r@ + join_lines(views(lines@).skip(i as int)) == join_lines(views(lines@)),
        decreases lines@.len() - i,
    {
        let line = &lines[i];
        let ghost start = r@;
        let ghost rest = views(lines@).skip(i as int);
        assert(rest[0] == line@);
        assert(rest.drop_first() =~= views(lines@).skip(i + 1));
        let mut k: usize = 0;
        while k < line.len()
            invariant
                k <= line@.len(),
                r@ == start + line@.take(k as int),
            decreases line@.len() - k,
        {
            r.push(line[k]);
            assert(line@.take(k + 1) =~= line@.take(k as int).push(line@[k as int]));
            k = k + 1;
        }
        r.push('\n');
        assert(line@.take(k as int) =~= line@);
        assert(start + (line@ + seq!['\n'] + join_lines(views(lines@).skip(i + 1))) =~= r@
            + join_lines(views(lines@).skip(i + 1)));
        i = i + 1;
    }
    assert(views(lines@).skip(i as int) =~= Seq::<Seq<char>>::empty());
    assert(r@ + Seq::<char>::empty() =~= r@);
    r
}

/// `text` with its lines in ascending order, each ended by a newline.
pub fn canonical_lines(text: &str) -> (r: String)
    ensures
        r@ == canonical_spec(text@),
{
    let lines = split_lines(text);
    let sorted = sort_lines(lines);
    join(&sorted)
}

} // verus!
