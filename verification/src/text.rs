//! Character-level text operations: the replacement of every occurrence of a
//! pattern, the slug of a title, and the concatenations that build paths and
//! links.
use vstd::prelude::*;

verus! {

/// `pat` occurs in `s` at position `i`.
pub open spec fn occurs_at(s: Seq<char>, pat: Seq<char>, i: int) -> bool {
    0 <= i && i + pat.len() <= s.len() && s.subrange(i, i + pat.len()) == pat
}

/// The result of replacing, from left to right, every non-overlapping
/// occurrence of `pat` in `s` by `rep`. An empty pattern occurs before every
/// character and at the end, so `rep` is inserted there.
pub open spec fn replace_all(s: Seq<char>, pat: Seq<char>, rep: Seq<char>) -> Seq<char>
    decreases s.len(),
{
    if pat.len() == 0 {
        if s.len() == 0 {
            rep
        } else {
            rep + seq![s[0]] + replace_all(s.skip(1), pat, rep)
        }
    } else if s.len() < pat.len() {
        s
    } else if s.take(pat.len() as int) == pat {
        rep + replace_all(s.skip(pat.len() as int), pat, rep)
    } else {
        seq![s[0]] + replace_all(s.skip(1), pat, rep)
    }
}

/// How many occurrences of a non-empty `pat` the left-to-right scan of
/// `replace_all` replaces.
pub open spec fn replaced_count(s: Seq<char>, pat: Seq<char>) -> nat
    decreases s.len(),
{
    if pat.len() == 0 || s.len() < pat.len() {
        0
    } else if s.take(pat.len() as int) == pat {
        1 + replaced_count(s.skip(pat.len() as int), pat)
    } else {
        replaced_count(s.skip(1), pat)
    }
}

/// The slug of a title: every space becomes an underscore.
pub open spec fn slug_of(title: Seq<char>) -> Seq<char> {
    title.map_values(|c: char| if c == ' ' { '_' } else { c })
}

/// The characters of `s`, in order.
pub fn chars_of(s: &str) -> (res: Vec<char>)
    ensures
        res@ == s@,
{
    broadcast use vstd::string::group_string_axioms;

    let mut res: Vec<char> = Vec::new();
    for c in it: s.chars()
        invariant
            it.seq() == s@,
            res@ == s@.take(it.index()),
    {
        res.push(c);
    }
    res
}

/// Appends one character to a string by std's `String::push`, which is
/// trusted to leave the old characters in place and add `c` after them.
#[verifier::external_body]
fn push_char(s: &mut String, c: char)
    ensures
        final(s)@ == old(s)@.push(c),
{
    s.push(c);
}

/// The string made of the characters of `cs`.
pub fn string_of(cs: &Vec<char>) -> (res: String)
    ensures
        res@ == cs@,
{
    let mut res = String::new();
    let mut i: usize = 0;
    while i < cs.len()
        invariant
            i <= cs.len(),
            res@ == cs@.take(i as int),
        decreases cs.len() - i,
    {
        push_char(&mut res, cs[i]);
        assert(cs@.take(i + 1) == cs@.take(i as int).push(cs@[i as int]));
        i = i + 1;
    }
    assert(cs@.take(cs.len() as int) == cs@);
    res
}

/// Appends every character of `src` to `dst`.
fn extend_chars(dst: &mut Vec<char>, src: &Vec<char>)
    ensures
        final(dst)@ == old(dst)@ + src@,
{
    let mut i: usize = 0;
    while i < src.len()
        invariant
            i <= src.len(),
            dst@ == old(dst)@ + src@.take(i as int),
        decreases src.len() - i,
    {
        dst.push(src[i]);
        assert(src@.take(i + 1) == src@.take(i as int).push(src@[i as int]));
        i = i + 1;
    }
    assert(src@.take(src.len() as int) == src@);
}

/// Whether `pat` occurs in `s` at position `i`.
fn occurs_at_exec(s: &Vec<char>, pat: &Vec<char>, i: usize) -> (res: bool)
    requires
        i + pat.len() <= s.len(),
    ensures
        res == (s@.subrange(i as int, i + pat.len()) == pat@),
{
    let mut j: usize = 0;
    while j < pat.len()
        invariant
            j <= pat.len(),
            i + pat.len() <= s.len(),
            forall|k: int| 0 <= k < j ==> s@[i + k] == pat@[k],
        decreases pat.len() - j,
    {
        if s[i + j] != pat[j] {
            assert(s@.subrange(i as int, i + pat.len())[j as int] != pat@[j as int]);
            return false;
        }
        j = j + 1;
    }
    assert(s@.subrange(i as int, i + pat.len()) =~= pat@);
    true
}

/// One step of the scan: how `replace_all` unfolds on the suffix of `s`
/// that starts at `i`.
proof fn lemma_replace_step(s: Seq<char>, pat: Seq<char>, rep: Seq<char>, i: int)
    requires
        0 <= i < s.len(),
    ensures
        pat.len() == 0 ==> replace_all(s.skip(i), pat, rep)
            == rep + seq![s[i]] + replace_all(s.skip(i + 1), pat, rep),
        pat.len() > 0 && i + pat.len() <= s.len() && s.subrange(i, i + pat.len()) == pat
            ==> replace_all(s.skip(i), pat, rep)
            == rep + replace_all(s.skip(i + pat.len()), pat, rep),
        pat.len() > 0 && !(i + pat.len() <= s.len() && s.subrange(i, i + pat.len()) == pat)
            ==> replace_all(s.skip(i), pat, rep)
            == seq![s[i]] + replace_all(s.skip(i + 1), pat, rep),
{
    let t = s.skip(i);
    assert(t.skip(1) =~= s.skip(i + 1));
    assert(t[0] == s[i]);
    if pat.len() > 0 {
        if i + pat.len() <= s.len() {
            assert(t.take(pat.len() as int) =~= s.subrange(i, i + pat.len()));
            assert(t.skip(pat.len() as int) =~= s.skip(i + pat.len()));
        } else {
            assert(s.skip(i + 1).len() < pat.len());
            assert(replace_all(s.skip(i + 1), pat, rep) == s.skip(i + 1));
            assert(t =~= seq![s[i]] + s.skip(i + 1));
        }
    }
}

/// Replaces, from left to right, every non-overlapping occurrence of `pat`
/// in `s` by `rep` (std `str::replace`).
pub fn replace(s: &str, pat: &str, rep: &str) -> (res: String)
    ensures
        res@ == replace_all(s@, pat@, rep@),
{
    let sv = chars_of(s);
    let pv = chars_of(pat);
    let rv = chars_of(rep);
    let n = sv.len();
    let mut out: Vec<char> = Vec::new();
    let mut i: usize = 0;
    assert(sv@.skip(0) =~= sv@);
    while i < n
        invariant
            n == sv@.len(),
            sv@ == s@,
            pv@ == pat@,
            rv@ == rep@,
            i <= n,
            out@ + replace_all(sv@.skip(i as int), pv@, rv@) == replace_all(s@, pat@, rep@),
        decreases n - i,
    {
        proof {
            lemma_replace_step(sv@, pv@, rv@, i as int);
        }
        if pv.len() == 0 {
            extend_chars(&mut out, &rv);
            out.push(sv[i]);
            i = i + 1;
        } else if pv.len() <= n - i && occurs_at_exec(&sv, &pv, i) {
            extend_chars(&mut out, &rv);
            i = i + pv.len();
        } else {
            out.push(sv[i]);
            i = i + 1;
        }
    }
    assert(sv@.skip(n as int) =~= Seq::<char>::empty());
    if pv.len() == 0 {
        extend_chars(&mut out, &rv);
    }
    string_of(&out)
}

} // verus!

verus! {

/// `a` followed by `b`.
pub fn concat2(a: &str, b: &str) -> (res: String)
    ensures
        res@ == a@ + b@,
{
    let mut res = a.to_owned();
    res.append(b);
    res
}

/// `a`, then `b`, then `c`.
pub fn concat3(a: &str, b: &str, c: &str) -> (res: String)
    ensures
        res@ == a@ + b@ + c@,
{
    let mut res = a.to_owned();
    res.append(b);
    res.append(c);
    res
}

/// The slug of a title (`title.replace(' ', "_")`): every space becomes an
/// underscore and every other character stays.
pub fn slugify(title: &str) -> (slug: String)
    ensures
        slug@ == slug_of(title@),
        slug@ == replace_all(title@, seq![' '], seq!['_']),
{
    proof {
        reveal_strlit(" ");
        reveal_strlit("_");
        assert(" "@ =~= seq![' ']);
        assert("_"@ =~= seq!['_']);
        lemma_slug_is_replacement(title@);
    }
    replace(title, " ", "_")
}

/// Replacing every space by an underscore is the slug.
pub proof fn lemma_slug_is_replacement(s: Seq<char>)
    ensures
        replace_all(s, seq![' '], seq!['_']) == slug_of(s),
    decreases s.len(),
{
    if s.len() > 0 {
        lemma_slug_is_replacement(s.skip(1));
        assert(s.take(1) =~= seq![s[0]]);
        assert(slug_of(s) =~= seq![if s[0] == ' ' { '_' } else { s[0] }] + slug_of(s.skip(1)));
    } else {
        assert(slug_of(s) =~= s);
    }
}

/// A slug has the length of its title, holds no space, and keeps every
/// other character of the title in place.
pub proof fn lemma_slug_shape(title: Seq<char>)
    ensures
        slug_of(title).len() == title.len(),
        !slug_of(title).contains(' '),
        forall|i: int| 0 <= i < title.len() && title[i] != ' ' ==> slug_of(title)[i] == title[i],
        forall|i: int| 0 <= i < title.len() && title[i] == ' ' ==> slug_of(title)[i] == '_',
{
}

/// The slug of a slug is the slug itself.
pub proof fn lemma_slug_idempotent(title: Seq<char>)
    ensures
        slug_of(slug_of(title)) == slug_of(title),
{
    assert(slug_of(slug_of(title)) =~= slug_of(title));
}

/// Where a non-empty pattern does not occur, nothing is replaced.
pub proof fn lemma_replace_absent(s: Seq<char>, pat: Seq<char>, rep: Seq<char>)
    requires
        pat.len() > 0,
        forall|i: int| !occurs_at(s, pat, i),
    ensures
        replace_all(s, pat, rep) == s,
    decreases s.len(),
{
    if s.len() >= pat.len() {
        assert(!occurs_at(s, pat, 0));
        assert(s.subrange(0, pat.len() as int) == s.take(pat.len() as int));
        assert forall|i: int| !occurs_at(s.skip(1), pat, i) by {
            if occurs_at(s.skip(1), pat, i) {
                assert(s.skip(1).subrange(i, i + pat.len()) =~= s.subrange(i + 1, i + 1 + pat.len()));
                assert(occurs_at(s, pat, i + 1));
            }
        }
        lemma_replace_absent(s.skip(1), pat, rep);
        assert(s =~= seq![s[0]] + s.skip(1));
    }
}

/// Replacing a pattern by itself leaves the text unchanged.
pub proof fn lemma_replace_by_itself(s: Seq<char>, pat: Seq<char>)
    requires
        pat.len() > 0,
    ensures
        replace_all(s, pat, pat) == s,
    decreases s.len(),
{
    if s.len() >= pat.len() {
        if s.take(pat.len() as int) == pat {
            lemma_replace_by_itself(s.skip(pat.len() as int), pat);
            assert(s =~= s.take(pat.len() as int) + s.skip(pat.len() as int));
        } else {
            lemma_replace_by_itself(s.skip(1), pat);
            assert(s =~= seq![s[0]] + s.skip(1));
        }
    }
}

/// Each replacement changes the length by the difference of the lengths of
/// the replacement and of the pattern.
pub proof fn lemma_replace_length(s: Seq<char>, pat: Seq<char>, rep: Seq<char>)
    requires
        pat.len() > 0,
    ensures
        replace_all(s, pat, rep).len() == s.len() + replaced_count(s, pat) * (rep.len()
            - pat.len()),
    decreases s.len(),
{
    if s.len() >= pat.len() {
        if s.take(pat.len() as int) == pat {
            lemma_replace_length(s.skip(pat.len() as int), pat, rep);
            let k = replaced_count(s.skip(pat.len() as int), pat) as int;
            let d = rep.len() - pat.len();
            assert((1 + k) * d == d + k * d) by (nonlinear_arith);
            assert(replaced_count(s, pat) == 1 + k);
            assert(replace_all(s, pat, rep) == rep + replace_all(s.skip(pat.len() as int), pat, rep));
        } else {
            lemma_replace_length(s.skip(1), pat, rep);
            assert(replaced_count(s, pat) == replaced_count(s.skip(1), pat));
            assert(replace_all(s, pat, rep) == seq![s[0]] + replace_all(s.skip(1), pat, rep));
        }
    } else {
        assert(replaced_count(s, pat) == 0);
        assert(replace_all(s, pat, rep) == s);
    }
}

} // verus!

verus! {

/// `pat` starts with a character `c` that occurs nowhere else in `pat` or in
/// `rep`, `rep` starts with `c` too, and no text that starts with `rep`
/// starts with `pat`.
pub open spec fn leaves_no_new_occurrence(pat: Seq<char>, rep: Seq<char>) -> bool {
    &&& pat.len() > 0
    &&& rep.len() > 0
    &&& rep[0] == pat[0]
    &&& forall|k: int| 1 <= k < pat.len() ==> #[trigger] pat[k] != pat[0]
    &&& forall|k: int| 1 <= k < rep.len() ==> #[trigger] rep[k] != pat[0]
    &&& exists|j: int| 0 <= j < pat.len() && j < rep.len() && rep[j] != pat[j]
}

/// A prefix of the replaced text that holds no first character of `rep`
/// was in the text already.
proof fn lemma_prefix_kept(t: Seq<char>, pat: Seq<char>, rep: Seq<char>, q: Seq<char>)
    requires
        pat.len() > 0,
        rep.len() > 0,
        forall|k: int| 0 <= k < q.len() ==> q[k] != rep[0],
        q.len() <= replace_all(t, pat, rep).len(),
        replace_all(t, pat, rep).take(q.len() as int) == q,
    ensures
        q.len() <= t.len(),
        t.take(q.len() as int) == q,
    decreases q.len(),
{
    let res = replace_all(t, pat, rep);
    if q.len() > 0 && t.len() >= pat.len() {
        if t.take(pat.len() as int) == pat {
            assert(res == rep + replace_all(t.skip(pat.len() as int), pat, rep));
            assert(res.take(q.len() as int)[0] == res[0]);
            assert(false);
        } else {
            let y = replace_all(t.skip(1), pat, rep);
            assert(res == seq![t[0]] + y);
            let q1 = q.skip(1);
            assert(y.take(q1.len() as int) =~= q1) by {
                assert forall|k: int| 0 <= k < q1.len() implies y[k] == q1[k] by {
                    assert(res.take(q.len() as int)[k + 1] == res[k + 1]);
                }
            }
            lemma_prefix_kept(t.skip(1), pat, rep, q1);
            assert(res.take(q.len() as int)[0] == res[0]);
            assert(t.take(q.len() as int) =~= q) by {
                assert forall|k: int| 0 <= k < q.len() implies t[k] == q[k] by {
                    if k > 0 {
                        assert(t.skip(1).take(q1.len() as int)[k - 1] == t[k]);
                    }
                }
            }
        }
    } else if q.len() > 0 {
        assert(res == t);
    } else {
        assert(t.take(0) =~= q);
    }
}

/// When `pat` and `rep` leave no new occurrence, the replaced text holds no
/// occurrence of `pat` at all: every one was replaced, and none was made.
pub proof fn lemma_replace_leaves_none(s: Seq<char>, pat: Seq<char>, rep: Seq<char>)
    requires
        leaves_no_new_occurrence(pat, rep),
    ensures
        forall|i: int| !occurs_at(replace_all(s, pat, rep), pat, i),
    decreases s.len(),
{
    let res = replace_all(s, pat, rep);
    let p = pat.len() as int;
    if s.len() < pat.len() {
        assert(res == s);
    } else if s.take(p) == pat {
        let x = replace_all(s.skip(p), pat, rep);
        lemma_replace_leaves_none(s.skip(p), pat, rep);
        assert(res == rep + x);
        assert forall|i: int| !occurs_at(res, pat, i) by {
            if occurs_at(res, pat, i) {
                if i >= rep.len() {
                    assert(x.subrange(i - rep.len(), i - rep.len() + p) =~= res.subrange(i, i + p));
                    assert(occurs_at(x, pat, i - rep.len()));
                } else if i > 0 {
                    assert(res.subrange(i, i + p)[0] == res[i]);
                    assert(res[i] == rep[i]);
                } else {
                    let j = choose|j: int| 0 <= j < pat.len() && j < rep.len() && rep[j] != pat[j];
                    assert(res.subrange(0, p)[j] == res[j]);
                    assert(res[j] == rep[j]);
                }
            }
        }
    } else {
        let y = replace_all(s.skip(1), pat, rep);
        lemma_replace_leaves_none(s.skip(1), pat, rep);
        assert(res == seq![s[0]] + y);
        assert forall|i: int| !occurs_at(res, pat, i) by {
            if occurs_at(res, pat, i) {
                if i >= 1 {
                    assert(y.subrange(i - 1, i - 1 + p) =~= res.subrange(i, i + p));
                    assert(occurs_at(y, pat, i - 1));
                } else {
                    let q = pat.skip(1);
                    assert(y.take(q.len() as int) =~= q) by {
                        assert forall|k: int| 0 <= k < q.len() implies y[k] == q[k] by {
                            assert(res.subrange(0, p)[k + 1] == res[k + 1]);
                        }
                    }
                    lemma_prefix_kept(s.skip(1), pat, rep, q);
                    assert(s.take(p) =~= pat) by {
                        assert forall|k: int| 0 <= k < p implies s[k] == pat[k] by {
                            if k == 0 {
                                assert(res.subrange(0, p)[0] == res[0]);
                            } else {
                                assert(s.skip(1).take(q.len() as int)[k - 1] == s[k]);
                            }
                        }
                    }
                }
            }
        }
    }
}

} // verus!
