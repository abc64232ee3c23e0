//! Texts in lexicographic order of their characters, and lists of texts kept
//! in that order without repetition.

use crate::text::{chars_of, same_text, texts};
use vstd::prelude::*;
use vstd::string::*;

verus! {

/// `a` stands before `b` in the lexicographic order of code points (the
/// order in which the standard library compares strings).
pub open spec fn text_lt(a: Seq<char>, b: Seq<char>) -> bool
    decreases a.len(),
{
    if b.len() == 0 {
        false
    } else if a.len() == 0 {
        true
    } else if a[0] != b[0] {
        (a[0] as u32) < (b[0] as u32)
    } else {
        text_lt(a.drop_first(), b.drop_first())
    }
}

/// No text stands before itself.
pub proof fn lemma_text_lt_irreflexive(a: Seq<char>)
    ensures
        !text_lt(a, a),
    decreases a.len(),
{
    if a.len() > 0 {
        lemma_text_lt_irreflexive(a.drop_first());
    }
}

/// Of two different texts, one stands before the other.
pub proof fn lemma_text_lt_total(a: Seq<char>, b: Seq<char>)
    ensures
        a == b || text_lt(a, b) || text_lt(b, a),
    decreases a.len(),
{
    if a.len() == 0 || b.len() == 0 {
        if a.len() == 0 && b.len() == 0 {
            assert(a =~= b);
        }
    } else if a[0] == b[0] {
        lemma_text_lt_total(a.drop_first(), b.drop_first());
        if a.drop_first() == b.drop_first() {
            assert(a =~= seq![a[0]] + a.drop_first());
            assert(b =~= seq![b[0]] + b.drop_first());
        }
    } else {
        vstd::utf8::char_u32_cast(a[0], a[0] as u32);
        vstd::utf8::char_u32_cast(b[0], b[0] as u32);
    }
}

/// The order is transitive.
pub proof fn lemma_text_lt_transitive(a: Seq<char>, b: Seq<char>, c: Seq<char>)
    requires
        text_lt(a, b),
        text_lt(b, c),
    ensures
        text_lt(a, c),
    decreases a.len(),
{
    if a.len() > 0 && a[0] == b[0] && b[0] == c[0] {
        lemma_text_lt_transitive(a.drop_first(), b.drop_first(), c.drop_first());
    }
}

/// Whether `a` stands before `b`.
pub fn text_less(a: &str, b: &str) -> (r: bool)
    ensures
        r == text_lt(a@, b@),
{
    let av = chars_of(a);
    let bv = chars_of(b);
    let mut i: usize = 0;
    assert(av@.subrange(0, av@.len() as int) =~= av@);
    assert(bv@.subrange(0, bv@.len() as int) =~= bv@);
    while i < av.len() && i < bv.len()
        invariant
            av@ == a@,
            bv@ == b@,
            i <= av@.len(),
            i <= bv@.len(),
            text_lt(a@, b@) == text_lt(
                av@.subrange(i as int, av@.len() as int),
                bv@.subrange(i as int, bv@.len() as int),
            ),
        decreases av@.len() - i,
    {
        let ghost ra = av@.subrange(i as int, av@.len() as int);
        let ghost rb = bv@.subrange(i as int, bv@.len() as int);
        let x = av[i];
        let y = bv[i];
        assert(ra[0] == x && rb[0] == y);
        if x != y {
            return (x as u32) < (y as u32);
        }
        assert(ra.drop_first() =~= av@.subrange(i + 1, av@.len() as int));
        assert(rb.drop_first() =~= bv@.subrange(i + 1, bv@.len() as int));
        i += 1;
    }
    i < bv.len()
}

/// Each text stands before every later one.
pub open spec fn strictly_sorted(s: Seq<Seq<char>>) -> bool {
    forall|i: int, j: int| 0 <= i < j < s.len() ==> text_lt(#[trigger] s[i], #[trigger] s[j])
}

/// `s` with `x` put at its place from the end: behind the last text that
/// stands before `x`, and not at all where `x` is met first.
pub open spec fn inserted(s: Seq<Seq<char>>, x: Seq<char>) -> Seq<Seq<char>>
    decreases s.len(),
{
    if s.len() == 0 {
        seq![x]
    } else if s.last() == x {
        s
    } else if text_lt(s.last(), x) {
        s.push(x)
    } else {
        inserted(s.drop_last(), x).push(s.last())
    }
}

/// The texts of `s` inserted one after the other into the empty list.
pub open spec fn sorted_distinct(s: Seq<Seq<char>>) -> Seq<Seq<char>>
    decreases s.len(),
{
    if s.len() == 0 {
        Seq::empty()
    } else {
        inserted(sorted_distinct(s.drop_last()), s.last())
    }
}

/// Inserting keeps what was there and adds the new text.
pub proof fn lemma_inserted_members(s: Seq<Seq<char>>, x: Seq<char>)
    ensures
        forall|t: Seq<char>| #[trigger] inserted(s, x).contains(t) <==> (s.contains(t) || t == x),
    decreases s.len(),
{
    let r = inserted(s, x);
    if s.len() == 0 {
        assert(r[0] == x);
    } else if s.last() == x {
        assert(s[s.len() - 1] == x);
    } else if text_lt(s.last(), x) {
        assert forall|t: Seq<char>| #[trigger] r.contains(t) <==> (s.contains(t) || t == x) by {
            if s.contains(t) {
                let i = choose|i: int| 0 <= i < s.len() && s[i] == t;
                assert(r[i] == t);
            }
            if t == x {
                assert(r[s.len() as int] == x);
            }
        }
    } else {
        let p = s.drop_last();
        let q = inserted(p, x);
        lemma_inserted_members(p, x);
        assert forall|t: Seq<char>| #[trigger] r.contains(t) <==> (s.contains(t) || t == x) by {
            if r.contains(t) {
                let i = choose|i: int| 0 <= i < r.len() && r[i] == t;
                if i < q.len() {
                    assert(q.contains(t));
                    if p.contains(t) {
                        let k = choose|k: int| 0 <= k < p.len() && p[k] == t;
                        assert(s[k] == t);
                    }
                } else {
                    assert(s[s.len() - 1] == t);
                }
            }
            if s.contains(t) {
                let k = choose|k: int| 0 <= k < s.len() && s[k] == t;
                if k < p.len() {
                    assert(p[k] == t);
                    assert(q.contains(t));
                    let m = choose|m: int| 0 <= m < q.len() && q[m] == t;
                    assert(r[m] == t);
                } else {
                    assert(r[q.len() as int] == t);
                }
            }
            if t == x {
                assert(q.contains(x));
                let m = choose|m: int| 0 <= m < q.len() && q[m] == x;
                assert(r[m] == x);
            }
        }
    }
}

/// Inserting into a sorted list gives a sorted list.
pub proof fn lemma_inserted_sorted(s: Seq<Seq<char>>, x: Seq<char>)
    requires
        strictly_sorted(s),
    ensures
        strictly_sorted(inserted(s, x)),
    decreases s.len(),
{
    let r = inserted(s, x);
    if s.len() == 0 {
    } else if s.last() == x {
    } else if text_lt(s.last(), x) {
        assert forall|i: int, j: int| 0 <= i < j < r.len() implies text_lt(
            #[trigger] r[i],
            #[trigger] r[j],
        ) by {
            if j == s.len() {
                if i < s.len() - 1 {
                    assert(text_lt(s[i], s[s.len() - 1]));
                    lemma_text_lt_transitive(s[i], s.last(), x);
                }
            } else {
                assert(text_lt(s[i], s[j]));
            }
        }
    } else {
        let p = s.drop_last();
        let q = inserted(p, x);
        assert(strictly_sorted(p)) by {
            assert forall|i: int, j: int| 0 <= i < j < p.len() implies text_lt(
                #[trigger] p[i],
                #[trigger] p[j],
            ) by {
                assert(text_lt(s[i], s[j]));
            }
        }
        lemma_inserted_sorted(p, x);
        lemma_inserted_members(p, x);
        lemma_text_lt_total(s.last(), x);
        assert forall|i: int, j: int| 0 <= i < j < r.len() implies text_lt(
            #[trigger] r[i],
            #[trigger] r[j],
        ) by {
            if j < q.len() {
                assert(text_lt(q[i], q[j]));
            } else {
                let t = q[i];
                assert(q.contains(t));
                if t == x {
                } else {
                    assert(p.contains(t));
                    let k = choose|k: int| 0 <= k < p.len() && p[k] == t;
                    assert(text_lt(s[k], s[s.len() - 1]));
                }
            }
        }
    }
}

/// The sorted list of the distinct texts of `s` is sorted and holds exactly
/// the texts of `s`.
pub proof fn lemma_sorted_distinct(s: Seq<Seq<char>>)
    ensures
        strictly_sorted(sorted_distinct(s)),
        forall|t: Seq<char>| #[trigger] sorted_distinct(s).contains(t) <==> s.contains(t),
    decreases s.len(),
{
    if s.len() > 0 {
        let p = s.drop_last();
        lemma_sorted_distinct(p);
        lemma_inserted_sorted(sorted_distinct(p), s.last());
        lemma_inserted_members(sorted_distinct(p), s.last());
        assert forall|t: Seq<char>| #[trigger] sorted_distinct(s).contains(t) <==> s.contains(
            t,
        ) by {
            if s.contains(t) {
                let k = choose|k: int| 0 <= k < s.len() && s[k] == t;
                if k < p.len() {
                    assert(p[k] == t);
                }
            }
            if p.contains(t) {
                let k = choose|k: int| 0 <= k < p.len() && p[k] == t;
                assert(s[k] == t);
            }
            assert(s[s.len() - 1] == s.last());
        }
    }
}

/// Puts `x` at its place in `list`, unless it is there.
pub fn insert_text(list: &mut Vec<String>, x: String)
    ensures
        texts(final(list)@) == inserted(texts(old(list)@), x@),
        strictly_sorted(texts(old(list)@)) ==> strictly_sorted(texts(final(list)@)),
{
    let ghost before = texts(list@);
    let mut j: usize = list.len();
    assert(before.subrange(0, j as int) =~= before);
    assert(before.subrange(j as int, before.len() as int) =~= Seq::<Seq<char>>::empty());
    while j > 0 && !same_text(list[j - 1].as_str(), x.as_str()) && !text_less(
        list[j - 1].as_str(),
        x.as_str(),
    )
        invariant
            j <= list@.len(),
            list@ == old(list)@,
            before == texts(list@),
            inserted(before, x@) == inserted(before.subrange(0, j as int), x@) + before.subrange(
                j as int,
                before.len() as int,
            ),
        decreases j,
    {
        let ghost cur = before.subrange(0, j as int);
        assert(cur.last() == list@[j - 1]@);
        assert(cur.drop_last() =~= before.subrange(0, j - 1));
        assert(inserted(cur.drop_last(), x@).push(cur.last()) + before.subrange(
            j as int,
            before.len() as int,
        ) =~= inserted(cur.drop_last(), x@) + before.subrange(j - 1, before.len() as int));
        j -= 1;
    }
    let ghost cur = before.subrange(0, j as int);
    if j > 0 && same_text(list[j - 1].as_str(), x.as_str()) {
        assert(cur.last() == list@[j - 1]@);
        assert(cur + before.subrange(j as int, before.len() as int) =~= before);
    } else {
        proof {
            if j > 0 {
                assert(cur.last() == list@[j - 1]@);
            }
        }
        list.insert(j, x);
        assert(texts(list@) =~= cur.push(x@) + before.subrange(j as int, before.len() as int));
    }
    proof {
        if strictly_sorted(before) {
            lemma_inserted_sorted(before, x@);
        }
    }
}

/// Whether `list` holds the text `x`.
pub fn holds_text(list: &Vec<String>, x: &str) -> (r: bool)
    ensures
        r == texts(list@).contains(x@),
{
    let mut i: usize = 0;
    while i < list.len()
        invariant
            i <= list@.len(),
            forall|k: int| 0 <= k < i ==> texts(list@)[k] != x@,
        decreases list@.len() - i,
    {
        if same_text(list[i].as_str(), x) {
            assert(texts(list@)[i as int] == x@);
            return true;
        }
        i += 1;
    }
    false
}

/// The distinct texts of `items` in order.
pub fn sort_distinct(items: &Vec<String>) -> (r: Vec<String>)
    ensures
        texts(r@) == sorted_distinct(texts(items@)),
        strictly_sorted(texts(r@)),
        forall|i: int, j: int| 0 <= i < j < r@.len() ==> r@[i]@ != r@[j]@,
        forall|t: Seq<char>| #[trigger] texts(r@).contains(t) <==> texts(items@).contains(t),
{

    let mut out: Vec<String> = Vec::new();
    let mut i: usize = 0;
    assert(texts(items@).subrange(0, 0) =~= Seq::<Seq<char>>::empty());
    assert(texts(out@) =~= Seq::<Seq<char>>::empty());
    while i < items.len()
        invariant
            i <= items@.len(),
            texts(out@) == sorted_distinct(texts(items@).subrange(0, i as int)),
        decreases items@.len() - i,
    {
        insert_text(&mut out, items[i].clone());
        assert(texts(items@).subrange(0, i + 1).drop_last() =~= texts(items@).subrange(
            0,
            i as int,
        ));
        i += 1;
    }
    assert(texts(items@).subrange(0, i as int) =~= texts(items@));
    proof {
        lemma_sorted_distinct(texts(items@));
        assert forall|a: int, b: int| 0 <= a < b < out@.len() implies out@[a]@ != out@[b]@ by {
            assert(text_lt(texts(out@)[a], texts(out@)[b]));
            lemma_text_lt_irreflexive(out@[a]@);
        }
    }
    out
}

/// The texts of `items` inserted into `s` one after the other.
pub open spec fn inserted_all(s: Seq<Seq<char>>, items: Seq<Seq<char>>) -> Seq<Seq<char>>
    decreases items.len(),
{
    if items.len() == 0 {
        s
    } else {
        inserted(inserted_all(s, items.drop_last()), items.last())
    }
}

/// Inserting several texts into a sorted list gives a sorted list.
pub proof fn lemma_inserted_all_sorted(s: Seq<Seq<char>>, items: Seq<Seq<char>>)
    requires
        strictly_sorted(s),
    ensures
        strictly_sorted(inserted_all(s, items)),
    decreases items.len(),
{
    if items.len() > 0 {
        lemma_inserted_all_sorted(s, items.drop_last());
        lemma_inserted_sorted(inserted_all(s, items.drop_last()), items.last());
    }
}

/// Puts each of `items` at its place in `list`, unless it is there.
pub fn insert_all_texts(list: &mut Vec<String>, items: &Vec<String>)
    ensures
        texts(final(list)@) == inserted_all(texts(old(list)@), texts(items@)),
        strictly_sorted(texts(old(list)@)) ==> strictly_sorted(texts(final(list)@)),
{
    proof {
        if strictly_sorted(texts(list@)) {
            lemma_inserted_all_sorted(texts(list@), texts(items@));
        }
    }
    let mut i: usize = 0;
    assert(texts(items@).subrange(0, 0) =~= Seq::<Seq<char>>::empty());
    while i < items.len()
        invariant
            i <= items@.len(),
            texts(list@) == inserted_all(texts(old(list)@), texts(items@).subrange(0, i as int)),
        decreases items@.len() - i,
    {
        insert_text(list, items[i].clone());
        assert(texts(items@).subrange(0, i + 1).drop_last() =~= texts(items@).subrange(
            0,
            i as int,
        ));
        i += 1;
    }
    assert(texts(items@).subrange(0, i as int) =~= texts(items@));
}

/// A copy of a list of strings.
pub fn copy_texts(items: &Vec<String>) -> (r: Vec<String>)
    ensures
        texts(r@) == texts(items@),
{
    let mut out: Vec<String> = Vec::new();
    let mut i: usize = 0;
    while i < items.len()
        invariant
            i <= items@.len(),
            out@.len() == i,
            forall|k: int| 0 <= k < i ==> out@[k]@ == items@[k]@,
        decreases items@.len() - i,
    {
        out.push(items[i].clone());
        i += 1;
    }
    assert(texts(out@) =~= texts(items@));
    out
}

} // verus!
