//! The names the glossary offers for completion: every term's name and every
//! alias, ordered by their lower case.
use vstd::prelude::*;
use crate::glossary::{term_names, texts, Term};
use crate::parse::chars_of;
use crate::text::str_to_string;

verus! {

broadcast use vstd::seq_lib::group_to_multiset_ensures;

/// The lower case of a text as `str::to_lowercase` gives it, by Unicode's
/// mapping in the standard library's tables.
pub uninterp spec fn unicode_lower(s: Seq<char>) -> Seq<char>;

/// A text in lower case, through `str::to_lowercase`. The mapping is only
/// named: that a text maps to a fixed lower case is all that is stated.
#[verifier::external_body]
fn to_lowercase(s: &str) -> (r: String)
    ensures
        r@ == unicode_lower(s@),
{
    s.to_lowercase()
}

/// Whether `a` comes before `b`, or equals it, in the order of strings:
/// character by character by code point, a prefix first (the byte order of
/// UTF-8, which `String` compares).
pub open spec fn text_le(a: Seq<char>, b: Seq<char>) -> bool
    decreases a.len(),
{
    if a.len() == 0 {
        true
    } else if b.len() == 0 {
        false
    } else if a[0] != b[0] {
        (a[0] as int) < (b[0] as int)
    } else {
        text_le(a.drop_first(), b.drop_first())
    }
}

/// Of two texts, one comes first.
pub proof fn lemma_text_le_total(a: Seq<char>, b: Seq<char>)
    ensures
        text_le(a, b) || text_le(b, a),
    decreases a.len(),
{
    if a.len() > 0 && b.len() > 0 && a[0] == b[0] {
        lemma_text_le_total(a.drop_first(), b.drop_first());
    }
}

/// The order of texts is transitive.
pub proof fn lemma_text_le_transitive(a: Seq<char>, b: Seq<char>, c: Seq<char>)
    requires
        text_le(a, b),
        text_le(b, c),
    ensures
        text_le(a, c),
    decreases a.len(),
{
    if a.len() > 0 && b.len() > 0 && c.len() > 0 && a[0] == b[0] && b[0] == c[0] {
        lemma_text_le_transitive(a.drop_first(), b.drop_first(), c.drop_first());
    }
}

/// Whether `a` comes no later than `b` when compared in lower case.
pub open spec fn lower_le(a: Seq<char>, b: Seq<char>) -> bool {
    text_le(unicode_lower(a), unicode_lower(b))
}

/// `x` placed into `s` after every element whose lower case does not come
/// after its own, scanning from the end: where a stable sort puts it.
pub open spec fn insert_sorted(s: Seq<Seq<char>>, x: Seq<char>) -> Seq<Seq<char>>
    decreases s.len(),
{
    if s.len() == 0 {
        seq![x]
    } else if lower_le(s.last(), x) {
        s.push(x)
    } else {
        insert_sorted(s.drop_last(), x).push(s.last())
    }
}

/// The texts in the order of a stable sort by lower case (each inserted in
/// turn, as `sort_by_key` orders them).
pub open spec fn sorted_by_lower(s: Seq<Seq<char>>) -> Seq<Seq<char>>
    decreases s.len(),
{
    if s.len() == 0 {
        s
    } else {
        insert_sorted(sorted_by_lower(s.drop_last()), s.last())
    }
}

/// Texts in order of their lower case.
pub open spec fn ordered_by_lower(s: Seq<Seq<char>>) -> bool {
    forall|i: int, j: int| 0 <= i < j < s.len() ==> lower_le(#[trigger] s[i], #[trigger] s[j])
}

proof fn lemma_insert_sorted_multiset(s: Seq<Seq<char>>, x: Seq<char>)
    ensures
        insert_sorted(s, x).to_multiset() =~= s.to_multiset().insert(x),
    decreases s.len(),
{
    if s.len() > 0 && !lower_le(s.last(), x) {
        lemma_insert_sorted_multiset(s.drop_last(), x);
        assert(s.drop_last().push(s.last()) =~= s);
    } else if s.len() == 0 {
        assert(seq![x] =~= Seq::<Seq<char>>::empty().push(x));
    }
}

proof fn lemma_insert_sorted_ordered(s: Seq<Seq<char>>, x: Seq<char>)
    requires
        ordered_by_lower(s),
    ensures
        ordered_by_lower(insert_sorted(s, x)),
    decreases s.len(),
{
    let r = insert_sorted(s, x);
    if s.len() == 0 {
    } else if lower_le(s.last(), x) {
        assert forall|i: int, j: int| 0 <= i < j < r.len() implies lower_le(#[trigger] r[i], #[trigger] r[j]) by {
            if j == s.len() {
                if i < s.len() - 1 {
                    lemma_text_le_transitive(unicode_lower(s[i]), unicode_lower(s.last()), unicode_lower(x));
                }
            }
        }
    } else {
        let p = s.drop_last();
        let q = insert_sorted(p, x);
        lemma_insert_sorted_ordered(p, x);
        lemma_insert_sorted_multiset(p, x);
        lemma_text_le_total(unicode_lower(s.last()), unicode_lower(x));
        assert forall|i: int, j: int| 0 <= i < j < r.len() implies lower_le(#[trigger] r[i], #[trigger] r[j]) by {
            if j == q.len() {
                let y = q[i];
                assert(q.to_multiset().count(y) > 0);
                if y != x {
                    assert(p.to_multiset().count(y) > 0);
                    assert(p.contains(y));
                    let k = choose|k: int| 0 <= k < p.len() && p[k] == y;
                    assert(s[k] == y);
                }
            } else {
                assert(r[i] == q[i] && r[j] == q[j]);
            }
        }
    }
}

/// A stable sort by lower case orders the texts by their lower case and keeps
/// every one of them, as often as it occurs.
pub proof fn lemma_sorted_by_lower(s: Seq<Seq<char>>)
    ensures
        ordered_by_lower(sorted_by_lower(s)),
        sorted_by_lower(s).to_multiset() =~= s.to_multiset(),
    decreases s.len(),
{
    if s.len() > 0 {
        lemma_sorted_by_lower(s.drop_last());
        lemma_insert_sorted_ordered(sorted_by_lower(s.drop_last()), s.last());
        lemma_insert_sorted_multiset(sorted_by_lower(s.drop_last()), s.last());
        assert(s.drop_last().push(s.last()) =~= s);
    }
}

/// Inserting where the scan from the end stops: after the last element that
/// does not come after `x`.
proof fn lemma_insert_at(s: Seq<Seq<char>>, x: Seq<char>, j: int)
    requires
        0 <= j <= s.len(),
        forall|t: int| j <= t < s.len() ==> !lower_le(#[trigger] s[t], x),
        j > 0 ==> lower_le(s[j - 1], x),
    ensures
        insert_sorted(s, x) == s.insert(j, x),
    decreases s.len(),
{
    if s.len() == 0 {
        assert(s.insert(j, x) =~= seq![x]);
    } else if j == s.len() {
        assert(s.insert(j, x) =~= s.push(x));
    } else {
        let p = s.drop_last();
        assert(!lower_le(s[s.len() - 1], x));
        assert forall|t: int| j <= t < p.len() implies !lower_le(#[trigger] p[t], x) by {
            assert(p[t] == s[t]);
        }
        lemma_insert_at(p, x, j);
        assert(p.insert(j, x).push(s.last()) =~= s.insert(j, x));
    }
}

fn text_le_of(a: &Vec<char>, b: &Vec<char>) -> (r: bool)
    ensures
        r == text_le(a@, b@),
{
    let mut i: usize = 0;
    assert(a@.skip(0) =~= a@ && b@.skip(0) =~= b@);
    while i < a.len() && i < b.len() && a[i] == b[i]
        invariant
            i <= a@.len(),
            i <= b@.len(),
            text_le(a@, b@) == text_le(a@.skip(i as int), b@.skip(i as int)),
        decreases a.len() - i,
    {
        assert(a@.skip(i as int).drop_first() =~= a@.skip(i as int + 1));
        assert(b@.skip(i as int).drop_first() =~= b@.skip(i as int + 1));
        i += 1;
    }
    if i == a.len() {
        true
    } else if i == b.len() {
        false
    } else {
        assert(a@.skip(i as int)[0] == a@[i as int] && b@.skip(i as int)[0] == b@[i as int]);
        a[i] < b[i]
    }
}

/// The texts in the order of a stable sort by lower case (see
/// [`sorted_by_lower`]).
fn sort_by_lower(names: &Vec<String>) -> (r: Vec<String>)
    ensures
        texts(r@) == sorted_by_lower(texts(names@)),
{
    let ghost input = texts(names@);
    let mut out: Vec<String> = Vec::new();
    let mut keys: Vec<Vec<char>> = Vec::new();
    let mut i: usize = 0;
    assert(input.take(0) =~= Seq::<Seq<char>>::empty());
    while i < names.len()
        invariant
            i <= names@.len(),
            input == texts(names@),
            texts(out@) == sorted_by_lower(input.take(i as int)),
            keys@.len() == out@.len(),
            forall|t: int| 0 <= t < keys@.len() ==> (#[trigger] keys@[t])@ == unicode_lower(out@[t]@),
        decreases names.len() - i,
    {
        let x = str_to_string(names[i].as_str());
        let low = to_lowercase(x.as_str());
        let kx = chars_of(low.as_str());
        let mut j: usize = out.len();
        while j > 0 && !text_le_of(&keys[j - 1], &kx)
            invariant
                j <= out@.len(),
                keys@.len() == out@.len(),
                forall|t: int| 0 <= t < keys@.len() ==> (#[trigger] keys@[t])@ == unicode_lower(out@[t]@),
                kx@ == unicode_lower(x@),
                forall|t: int| j <= t < out@.len() ==> !lower_le(#[trigger] texts(out@)[t], x@),
            decreases j,
        {
            assert(keys@[j - 1]@ == unicode_lower(out@[j - 1]@));
            j -= 1;
        }
        proof {
            if j > 0 {
                assert(keys@[j - 1]@ == unicode_lower(out@[j - 1]@));
            }
            lemma_insert_at(texts(out@), x@, j as int);
            assert(input.take(i as int + 1).drop_last() =~= input.take(i as int));
            assert(input.take(i as int + 1).last() == x@);
        }
        let ghost before = out@;
        let ghost keys_before = keys@;
        out.insert(j, x);
        keys.insert(j, kx);
        proof {
            assert(texts(out@) =~= texts(before).insert(j as int, x@));
            assert forall|t: int| 0 <= t < keys@.len() implies (#[trigger] keys@[t])@ == unicode_lower(out@[t]@) by {
                if t < j {
                    assert(keys@[t] == keys_before[t] && out@[t] == before[t]);
                } else if t > j {
                    assert(keys@[t] == keys_before[t - 1] && out@[t] == before[t - 1]);
                }
            }
        }
        i += 1;
    }
    assert(input.take(names@.len() as int) =~= input);
    out
}

/// The aliases of the terms, term by term, in order.
pub open spec fn all_aliases(terms: Seq<Term>) -> Seq<Seq<char>>
    decreases terms.len(),
{
    if terms.len() == 0 {
        Seq::empty()
    } else {
        all_aliases(terms.drop_last()) + match terms.last().aliases {
            Some(a) => texts(a@),
            None => Seq::empty(),
        }
    }
}

/// The names offered for completion: none but an empty one when there is no
/// term (or the first has no name); otherwise the names of the terms, last
/// first, followed by all aliases, in a stable order by lower case.
pub open spec fn completion_names(terms: Seq<Term>) -> Seq<Seq<char>> {
    if terms.len() == 0 || terms[0].name@.len() == 0 {
        seq![Seq::empty()]
    } else {
        sorted_by_lower(term_names(terms).reverse() + all_aliases(terms))
    }
}

impl Term {
    /// The names and aliases of the terms, for completion (see
    /// [`completion_names`]).
    pub fn names_and_aliases(terms: Vec<Term>) -> (r: Vec<String>)
        ensures
            texts(r@) == completion_names(terms@),
    {
        if terms.len() == 0 || chars_of(terms[0].name.as_str()).len() == 0 {
            let mut r: Vec<String> = Vec::new();
            r.push(String::new());
            assert(texts(r@) =~= seq![Seq::<char>::empty()]);
            return r;
        }
        let ghost ts = terms@;
        let mut names = crate::glossary::update_names(&terms);
        let ghost reversed = texts(names@);
        let mut k: usize = 0;
        assert(all_aliases(ts.take(0)) =~= Seq::<Seq<char>>::empty());
        while k < terms.len()
            invariant
                k <= ts.len(),
                ts == terms@,
                texts(names@) == reversed + all_aliases(ts.take(k as int)),
            decreases terms.len() - k,
        {
            let ghost before = texts(names@);
            match &terms[k].aliases {
                Some(a) => {
                    let mut m: usize = 0;
                    while m < a.len()
                        invariant
                            m <= a@.len(),
                            texts(names@) == before + texts(a@).take(m as int),
                        decreases a.len() - m,
                    {
                        let ghost prev = names@;
                        names.push(str_to_string(a[m].as_str()));
                        assert(texts(names@) =~= texts(prev).push(a@[m as int]@));
                        assert(texts(a@).take(m as int + 1) =~= texts(a@).take(m as int).push(a@[m as int]@));
                        assert(texts(names@) =~= before + texts(a@).take(m as int + 1));
                        m += 1;
                    }
                    assert(texts(a@).take(a@.len() as int) =~= texts(a@));
                },
                None => {
                    assert(texts(names@) =~= before + Seq::<Seq<char>>::empty());
                },
            }
            proof {
                assert(ts.take(k as int + 1).drop_last() =~= ts.take(k as int));
                assert(ts.take(k as int + 1).last() == ts[k as int]);
                assert(texts(names@) =~= reversed + all_aliases(ts.take(k as int + 1)));
            }
            k += 1;
        }
        assert(ts.take(ts.len() as int) =~= ts);
        sort_by_lower(&names)
    }
}

} // verus!
