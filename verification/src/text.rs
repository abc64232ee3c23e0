//! Text primitives over sequences of characters.
//!
//! Every function here is specified over `Seq<char>`, the view of `str` and
//! `String`. Classification and case mapping of single characters follow the
//! Unicode tables of the standard library and are referred to by name only.

use vstd::prelude::*;
use vstd::string::*;

verus! {

/// `String::push` appends exactly the given character.
pub assume_specification[ String::push ](s: &mut String, c: char)
    ensures
        final(s)@ == old(s)@.push(c),
;

/// What `char::is_uppercase` answers for a character.
pub uninterp spec fn char_is_uppercase(c: char) -> bool;

/// What `char::is_alphanumeric` answers for a character.
pub uninterp spec fn char_is_alphanumeric(c: char) -> bool;

/// What `char::is_whitespace` answers for a character.
pub uninterp spec fn char_is_whitespace(c: char) -> bool;

/// The characters that `char::to_lowercase` yields for a character.
pub uninterp spec fn char_lowercase(c: char) -> Seq<char>;

/// The characters that `char::to_uppercase` yields for a character.
pub uninterp spec fn char_uppercase(c: char) -> Seq<char>;

/// Calls `char::is_uppercase`; the answer depends on the character alone.
#[verifier::external_body]
pub(crate) fn is_uppercase(c: char) -> (r: bool)
    ensures
        r == char_is_uppercase(c),
{
    c.is_uppercase()
}

/// Calls `char::is_alphanumeric`; the answer depends on the character alone.
#[verifier::external_body]
pub(crate) fn is_alphanumeric(c: char) -> (r: bool)
    ensures
        r == char_is_alphanumeric(c),
{
    c.is_alphanumeric()
}

/// Calls `char::is_whitespace`; the answer depends on the character alone.
#[verifier::external_body]
pub(crate) fn is_whitespace(c: char) -> (r: bool)
    ensures
        r == char_is_whitespace(c),
{
    c.is_whitespace()
}

/// Calls `char::to_lowercase` and collects what it yields. The standard
/// library documents the mapping as one or more characters.
#[verifier::external_body]
pub(crate) fn lowercase_of(c: char) -> (r: Vec<char>)
    ensures
        r@ == char_lowercase(c),
        r@.len() >= 1,
{
    c.to_lowercase().collect()
}

/// Calls `char::to_uppercase` and collects what it yields. The standard
/// library documents the mapping as one or more characters.
#[verifier::external_body]
pub(crate) fn uppercase_of(c: char) -> (r: Vec<char>)
    ensures
        r@ == char_uppercase(c),
        r@.len() >= 1,
{
    c.to_uppercase().collect()
}

/// The characters of a string slice, in order.
pub fn chars_of(s: &str) -> (v: Vec<char>)
    ensures
        v@ == s@,
{
    broadcast use vstd::string::group_string_axioms;

    let mut v: Vec<char> = Vec::new();
    for c in it: s.chars()
        invariant
            it.seq() == s@,
            v@ == it.seq().subrange(0, it.index() as int),
    {
        v.push(c);
    }
    assert(v@ =~= s@);
    v
}

/// The string made of `v[from..to]`.
pub fn string_of_range(v: &Vec<char>, from: usize, to: usize) -> (r: String)
    requires
        from <= to <= v@.len(),
    ensures
        r@ == v@.subrange(from as int, to as int),
{
    let mut r = String::new();
    let mut i: usize = from;
    while i < to
        invariant
            from <= i <= to <= v@.len(),
            r@ == v@.subrange(from as int, i as int),
        decreases to - i,
    {
        r.push(v[i]);
        assert(v@.subrange(from as int, i as int).push(v@[i as int]) =~= v@.subrange(
            from as int,
            i + 1,
        ));
        i += 1;
    }
    assert(v@.subrange(from as int, from as int) =~= Seq::<char>::empty());
    r
}

/// The string made of the characters of `v`.
pub fn string_of(v: &Vec<char>) -> (r: String)
    ensures
        r@ == v@,
{
    let r = string_of_range(v, 0, v.len());
    assert(v@.subrange(0, v@.len() as int) =~= v@);
    r
}

/// `pat` occurs in `s` at index `i`.
pub open spec fn matches_at(s: Seq<char>, pat: Seq<char>, i: int) -> bool {
    0 <= i && i + pat.len() <= s.len() && s.subrange(i, i + pat.len()) == pat
}

/// `pat` occurs somewhere in `s`. The empty pattern occurs in every text.
pub open spec fn text_contains(s: Seq<char>, pat: Seq<char>) -> bool {
    exists|i: int| matches_at(s, pat, i)
}

/// `s` begins with `pat`.
pub open spec fn text_starts_with(s: Seq<char>, pat: Seq<char>) -> bool {
    matches_at(s, pat, 0)
}

/// Whether `pat` occurs in `s` at index `i`.
pub fn occurs_at(s: &Vec<char>, pat: &Vec<char>, i: usize) -> (r: bool)
    ensures
        r == matches_at(s@, pat@, i as int),
{
    if pat.len() > s.len() || i > s.len() - pat.len() {
        return false;
    }
    let mut j: usize = 0;
    while j < pat.len()
        invariant
            i + pat@.len() <= s@.len() <= usize::MAX,
            j <= pat@.len(),
            forall|k: int| 0 <= k < j ==> s@[i + k] == pat@[k],
        decreases pat@.len() - j,
    {
        if s[i + j] != pat[j] {
            assert(s@.subrange(i as int, i + pat@.len())[j as int] != pat@[j as int]);
            return false;
        }
        j += 1;
    }
    assert(s@.subrange(i as int, i + pat@.len()) =~= pat@);
    true
}

/// The first index at or after `start` where `pat` occurs in `s`.
pub fn find_from(s: &Vec<char>, pat: &Vec<char>, start: usize) -> (r: Option<usize>)
    ensures
        match r {
            Some(i) => start <= i && matches_at(s@, pat@, i as int) && forall|k: int|
                start <= k < i ==> !matches_at(s@, pat@, k),
            None => forall|k: int| start <= k ==> !matches_at(s@, pat@, k),
        },
{
    if start > s.len() {
        return None;
    }
    let mut i: usize = start;
    while i < s.len()
        invariant
            start <= i <= s@.len(),
            forall|k: int| start <= k < i ==> !matches_at(s@, pat@, k),
        decreases s@.len() - i,
    {
        if occurs_at(s, pat, i) {
            return Some(i);
        }
        i += 1;
    }
    if occurs_at(s, pat, i) {
        Some(i)
    } else {
        None
    }
}

/// Whether `pat` occurs in `s`.
pub fn contains(s: &str, pat: &str) -> (r: bool)
    ensures
        r == text_contains(s@, pat@),
{
    let sc = chars_of(s);
    let pc = chars_of(pat);
    find_from(&sc, &pc, 0).is_some()
}

/// Whether `s` begins with `pat`.
pub fn starts_with(s: &str, pat: &str) -> (r: bool)
    ensures
        r == text_starts_with(s@, pat@),
{
    let sc = chars_of(s);
    let pc = chars_of(pat);
    occurs_at(&sc, &pc, 0)
}

/// The views of a sequence of strings.
pub open spec fn texts(v: Seq<String>) -> Seq<Seq<char>> {
    Seq::new(v.len(), |i: int| v[i]@)
}

/// The view of an optional string.
pub open spec fn opt_text(o: Option<String>) -> Option<Seq<char>> {
    match o {
        Some(s) => Some(s@),
        None => None,
    }
}

/// Whether two string slices hold the same characters.
pub fn same_text(a: &str, b: &str) -> (r: bool)
    ensures
        r == (a@ == b@),
{
    let av = chars_of(a);
    let bv = chars_of(b);
    if av.len() != bv.len() {
        return false;
    }
    let mut i: usize = 0;
    while i < av.len()
        invariant
            av@ == a@,
            bv@ == b@,
            av@.len() == bv@.len(),
            i <= av@.len(),
            forall|k: int| 0 <= k < i ==> av@[k] == bv@[k],
        decreases av@.len() - i,
    {
        if av[i] != bv[i] {
            assert(av@[i as int] != bv@[i as int]);
            return false;
        }
        i += 1;
    }
    assert(av@ =~= bv@);
    true
}

/// Whether an optional string holds exactly the given text.
pub fn opt_is_text(o: &Option<String>, t: &str) -> (r: bool)
    ensures
        r == (opt_text(*o) == Some(t@)),
{
    match o {
        Some(s) => same_text(s.as_str(), t),
        None => false,
    }
}

/// `s` with every occurrence of `pat` replaced by `to`, scanning from the
/// left and never looking into what was already replaced. With an empty
/// pattern, `to` is put before every character and at the end.
pub open spec fn replaced(s: Seq<char>, pat: Seq<char>, to: Seq<char>) -> Seq<char>
    decreases s.len(),
{
    if s.len() == 0 {
        if pat.len() == 0 {
            to
        } else {
            s
        }
    } else if pat.len() == 0 {
        to + seq![s[0]] + replaced(s.drop_first(), pat, to)
    } else if matches_at(s, pat, 0) {
        to + replaced(s.subrange(pat.len() as int, s.len() as int), pat, to)
    } else {
        seq![s[0]] + replaced(s.drop_first(), pat, to)
    }
}

/// Replaces every occurrence of `pat` in `s` by `to`.
pub fn replace(s: &str, pat: &str, to: &str) -> (r: String)
    ensures
        r@ == replaced(s@, pat@, to@),
{
    let sc = chars_of(s);
    let pc = chars_of(pat);
    let n = sc.len();
    let mut out = String::new();
    let mut i: usize = 0;
    assert(sc@.subrange(0, n as int) =~= sc@);
    assert(out@ + replaced(sc@, pc@, to@) =~= replaced(sc@, pc@, to@));
    while i < n
        invariant
            n == sc@.len(),
            i <= n,
            replaced(sc@, pc@, to@) == out@ + replaced(sc@.subrange(i as int, n as int), pc@, to@),
        decreases n - i,
    {
        let ghost rest = sc@.subrange(i as int, n as int);
        let ghost before = out@;
        if pc.len() == 0 {
            out.append(to);
            out.push(sc[i]);
            assert(rest.drop_first() =~= sc@.subrange(i + 1, n as int));
            assert(before + (to@ + seq![rest[0]] + replaced(rest.drop_first(), pc@, to@))
                =~= before + to@ + seq![rest[0]] + replaced(rest.drop_first(), pc@, to@));
            assert(before + to@ + seq![rest[0]] =~= (before + to@).push(sc@[i as int]));
            i += 1;
        } else if occurs_at(&sc, &pc, i) {
            out.append(to);
            assert(rest.subrange(0, pc@.len() as int) =~= sc@.subrange(i as int, i + pc@.len()));
            assert(rest.subrange(pc@.len() as int, rest.len() as int) =~= sc@.subrange(
                i + pc@.len(),
                n as int,
            ));
            assert(before + (to@ + replaced(
                rest.subrange(pc@.len() as int, rest.len() as int),
                pc@,
                to@,
            )) =~= before + to@ + replaced(
                rest.subrange(pc@.len() as int, rest.len() as int),
                pc@,
                to@,
            ));
            i += pc.len();
        } else {
            out.push(sc[i]);
            proof {
                if i + pc@.len() <= n {
                    assert(rest.subrange(0, pc@.len() as int) =~= sc@.subrange(
                        i as int,
                        i + pc@.len(),
                    ));
                }
            }
            assert(rest.drop_first() =~= sc@.subrange(i + 1, n as int));
            assert(before + (seq![rest[0]] + replaced(rest.drop_first(), pc@, to@)) =~= before.push(
                sc@[i as int],
            ) + replaced(rest.drop_first(), pc@, to@));
            i += 1;
        }
    }
    assert(sc@.subrange(n as int, n as int) =~= Seq::<char>::empty());
    if pc.len() == 0 {
        out.append(to);
    } else {
        assert(out@ + Seq::<char>::empty() =~= out@);
    }
    out
}

/// `s` without its leading whitespace.
pub open spec fn trimmed_start(s: Seq<char>) -> Seq<char>
    decreases s.len(),
{
    if s.len() > 0 && char_is_whitespace(s[0]) {
        trimmed_start(s.drop_first())
    } else {
        s
    }
}

/// `s` without its trailing whitespace.
pub open spec fn trimmed_end(s: Seq<char>) -> Seq<char>
    decreases s.len(),
{
    if s.len() > 0 && char_is_whitespace(s.last()) {
        trimmed_end(s.drop_last())
    } else {
        s
    }
}

/// `s` without its leading and trailing whitespace.
pub open spec fn trimmed(s: Seq<char>) -> Seq<char> {
    trimmed_end(trimmed_start(s))
}

/// The index of the first character of `v[from..to]` that is no whitespace,
/// or `to`.
fn skip_whitespace(v: &Vec<char>, from: usize, to: usize) -> (i: usize)
    requires
        from <= to <= v@.len(),
    ensures
        from <= i <= to,
        trimmed_start(v@.subrange(from as int, to as int)) == v@.subrange(i as int, to as int),
{
    let mut i: usize = from;
    while i < to && is_whitespace(v[i])
        invariant
            from <= i <= to <= v@.len(),
            trimmed_start(v@.subrange(from as int, to as int)) == trimmed_start(
                v@.subrange(i as int, to as int),
            ),
        decreases to - i,
    {
        assert(v@.subrange(i as int, to as int).drop_first() =~= v@.subrange(i + 1, to as int));
        i += 1;
    }
    i
}

/// The index after the last character of `v[from..to]` that is no
/// whitespace, or `from`.
fn skip_whitespace_back(v: &Vec<char>, from: usize, to: usize) -> (j: usize)
    requires
        from <= to <= v@.len(),
    ensures
        from <= j <= to,
        trimmed_end(v@.subrange(from as int, to as int)) == v@.subrange(from as int, j as int),
{
    let mut j: usize = to;
    while j > from && is_whitespace(v[j - 1])
        invariant
            from <= j <= to <= v@.len(),
            trimmed_end(v@.subrange(from as int, to as int)) == trimmed_end(
                v@.subrange(from as int, j as int),
            ),
        decreases j - from,
    {
        assert(v@.subrange(from as int, j as int).drop_last() =~= v@.subrange(from as int, j - 1));
        j -= 1;
    }
    j
}

/// The bounds of `v[from..to]` without leading and trailing whitespace.
pub fn trim_range(v: &Vec<char>, from: usize, to: usize) -> (r: (usize, usize))
    requires
        from <= to <= v@.len(),
    ensures
        from <= r.0 <= r.1 <= to,
        trimmed(v@.subrange(from as int, to as int)) == v@.subrange(r.0 as int, r.1 as int),
{
    let a = skip_whitespace(v, from, to);
    let b = skip_whitespace_back(v, a, to);
    (a, b)
}

/// `s` without leading and trailing whitespace.
pub fn trim(s: &str) -> (r: String)
    ensures
        r@ == trimmed(s@),
{
    let v = chars_of(s);
    assert(v@.subrange(0, v@.len() as int) =~= v@);
    let (a, b) = trim_range(&v, 0, v.len());
    string_of_range(&v, a, b)
}

/// `s` without trailing whitespace.
pub fn trim_end(s: &str) -> (r: String)
    ensures
        r@ == trimmed_end(s@),
{
    let v = chars_of(s);
    assert(v@.subrange(0, v@.len() as int) =~= v@);
    let b = skip_whitespace_back(&v, 0, v.len());
    string_of_range(&v, 0, b)
}

/// `s` with the prefix `pat` taken off as often as it stands in front.
/// The empty pattern takes nothing off.
pub open spec fn without_leading(s: Seq<char>, pat: Seq<char>) -> Seq<char>
    decreases s.len(),
{
    if pat.len() > 0 && matches_at(s, pat, 0) {
        without_leading(s.subrange(pat.len() as int, s.len() as int), pat)
    } else {
        s
    }
}

/// The index up to which `pat` repeats at the front of `v[from..]`.
pub fn skip_leading(v: &Vec<char>, pat: &Vec<char>, from: usize) -> (i: usize)
    requires
        from <= v@.len(),
    ensures
        from <= i <= v@.len(),
        without_leading(v@.subrange(from as int, v@.len() as int), pat@) == v@.subrange(
            i as int,
            v@.len() as int,
        ),
{
    let n = v.len();
    let mut i: usize = from;
    if pat.len() == 0 {
        return i;
    }
    while occurs_at(v, pat, i)
        invariant
            n == v@.len(),
            pat@.len() > 0,
            from <= i <= n,
            without_leading(v@.subrange(from as int, n as int), pat@) == without_leading(
                v@.subrange(i as int, n as int),
                pat@,
            ),
        decreases n - i,
    {
        let ghost rest = v@.subrange(i as int, n as int);
        assert(rest.subrange(0, pat@.len() as int) =~= v@.subrange(i as int, i + pat@.len()));
        assert(rest.subrange(pat@.len() as int, rest.len() as int) =~= v@.subrange(
            i + pat@.len(),
            n as int,
        ));
        i += pat.len();
    }
    proof {
        let rest = v@.subrange(i as int, n as int);
        if i + pat@.len() <= n {
            assert(rest.subrange(0, pat@.len() as int) =~= v@.subrange(i as int, i + pat@.len()));
        }
    }
    i
}

/// `s` with the prefix `pat` taken off as often as it stands in front.
pub fn trim_start_matches(s: &str, pat: &str) -> (r: String)
    ensures
        r@ == without_leading(s@, pat@),
{
    let v = chars_of(s);
    let p = chars_of(pat);
    assert(v@.subrange(0, v@.len() as int) =~= v@);
    let i = skip_leading(&v, &p, 0);
    string_of_range(&v, i, v.len())
}

/// `s` without the prefix `pat`, where `s` begins with it.
pub open spec fn stripped_prefix(s: Seq<char>, pat: Seq<char>) -> Option<Seq<char>> {
    if matches_at(s, pat, 0) {
        Some(s.subrange(pat.len() as int, s.len() as int))
    } else {
        None
    }
}

/// Takes the prefix `pat` off `s` once, where `s` begins with it.
pub fn strip_prefix(s: &str, pat: &str) -> (r: Option<String>)
    ensures
        opt_text(r) == stripped_prefix(s@, pat@),
{
    let v = chars_of(s);
    let p = chars_of(pat);
    if occurs_at(&v, &p, 0) {
        Some(string_of_range(&v, p.len(), v.len()))
    } else {
        None
    }
}

/// The index after the last `sep` in `s`, or 0 where `s` holds none.
pub open spec fn segment_start(s: Seq<char>, sep: char) -> int
    decreases s.len(),
{
    if s.len() == 0 {
        0
    } else if s.last() == sep {
        s.len() as int
    } else {
        segment_start(s.drop_last(), sep)
    }
}

/// What follows the last `sep` in `s`; all of `s` where it holds none.
pub open spec fn last_segment(s: Seq<char>, sep: char) -> Seq<char> {
    s.subrange(segment_start(s, sep), s.len() as int)
}

/// The index after the last `sep` in `v`, or 0.
pub fn last_separator_end(v: &Vec<char>, sep: char) -> (j: usize)
    ensures
        j == segment_start(v@, sep),
        j <= v@.len(),
{
    let mut j: usize = v.len();
    assert(v@.subrange(0, j as int) =~= v@);
    while j > 0 && v[j - 1] != sep
        invariant
            j <= v@.len(),
            segment_start(v@, sep) == segment_start(v@.subrange(0, j as int), sep),
        decreases j,
    {
        assert(v@.subrange(0, j as int).drop_last() =~= v@.subrange(0, j - 1));
        j -= 1;
    }
    j
}

/// What follows the last `sep` in `s`.
pub fn last_segment_of(s: &str, sep: char) -> (r: String)
    ensures
        r@ == last_segment(s@, sep),
{
    let v = chars_of(s);
    let j = last_separator_end(&v, sep);
    string_of_range(&v, j, v.len())
}

/// The parts joined with `sep` between them.
pub open spec fn joined(parts: Seq<Seq<char>>, sep: Seq<char>) -> Seq<char>
    decreases parts.len(),
{
    if parts.len() == 0 {
        Seq::empty()
    } else if parts.len() == 1 {
        parts[0]
    } else {
        joined(parts.drop_last(), sep) + sep + parts.last()
    }
}

/// Joins the parts with `sep` between them.
pub fn join(parts: &Vec<String>, sep: &str) -> (r: String)
    ensures
        r@ == joined(texts(parts@), sep@),
{
    if parts.len() == 0 {
        return String::new();
    }
    let mut out = parts[0].clone();
    let mut i: usize = 1;
    assert(texts(parts@).subrange(0, 1)[0] == parts@[0]@);
    while i < parts.len()
        invariant
            1 <= i <= parts@.len(),
            out@ == joined(texts(parts@).subrange(0, i as int), sep@),
        decreases parts@.len() - i,
    {
        out.append(sep);
        out.append(parts[i].as_str());
        assert(texts(parts@).subrange(0, i + 1).drop_last() =~= texts(parts@).subrange(0, i as int));
        i += 1;
    }
    assert(texts(parts@).subrange(0, i as int) =~= texts(parts@));
    out
}

/// `n` spaces.
pub open spec fn spaces(n: nat) -> Seq<char> {
    Seq::new(n, |i: int| ' ')
}

/// A string of `n` spaces.
pub fn indent_of(n: usize) -> (r: String)
    ensures
        r@ == spaces(n as nat),
{
    let mut out = String::new();
    let mut i: usize = 0;
    while i < n
        invariant
            i <= n,
            out@ =~= spaces(i as nat),
        decreases n - i,
    {
        out.push(' ');
        i += 1;
    }
    out
}

/// `a + b` as a new string.
pub fn concat2(a: &str, b: &str) -> (r: String)
    ensures
        r@ == a@ + b@,
{
    let mut out = String::from_str(a);
    out.append(b);
    out
}

/// `a + b + c` as a new string.
pub fn concat3(a: &str, b: &str, c: &str) -> (r: String)
    ensures
        r@ == a@ + b@ + c@,
{
    let mut out = String::from_str(a);
    out.append(b);
    out.append(c);
    out
}

} // verus!
