use vstd::prelude::*;
use crate::query::{is_search_plan, pattern, Combinator, QuerySpec, SearchField};

verus! {

/// Two characters that agree up to ASCII case.
pub open spec fn same_letter(a: char, b: char) -> bool {
    ||| a == b
    ||| ('A' <= a <= 'Z' && (a as u32) + 32 == (b as u32))
    ||| ('A' <= b <= 'Z' && (b as u32) + 32 == (a as u32))
}

/// The case-insensitive `LIKE` of the datastore: `%` stands for any run of
/// characters, `_` for any one character, every other character for itself
/// up to case.
pub open spec fn ilike(v: Seq<char>, p: Seq<char>) -> bool
    decreases v.len() + p.len(),
{
    if p.len() == 0 {
        v.len() == 0
    } else if p[0] == '%' {
        ilike(v, p.drop_first()) || (v.len() > 0 && ilike(v.drop_first(), p))
    } else if p[0] == '_' {
        v.len() > 0 && ilike(v.drop_first(), p.drop_first())
    } else {
        v.len() > 0 && same_letter(v[0], p[0]) && ilike(v.drop_first(), p.drop_first())
    }
}

/// A term with no character that a pattern treats specially.
pub open spec fn is_plain_term(t: Seq<char>) -> bool {
    forall|i: int| 0 <= i < t.len() ==> #[trigger] t[i] != '%' && t[i] != '_' && t[i] != '\\'
}

/// `v` begins with `t`, up to case.
pub open spec fn starts_with_ci(v: Seq<char>, t: Seq<char>) -> bool {
    &&& t.len() <= v.len()
    &&& forall|i: int| 0 <= i < t.len() ==> same_letter(#[trigger] v[i], t[i])
}

/// `v` holds `t` as a substring, up to case.
pub open spec fn contains_ci(v: Seq<char>, t: Seq<char>) -> bool {
    exists|i: int| 0 <= i <= v.len() && #[trigger] starts_with_ci(v.subrange(i, v.len() as int), t)
}

proof fn lemma_ilike_any(v: Seq<char>)
    ensures
        ilike(v, "%"@),
    decreases v.len(),
{
    reveal_strlit("%");
    assert("%"@.len() == 1 && "%"@[0] == '%');
    assert("%"@.drop_first() =~= Seq::<char>::empty());
    assert(ilike(v, "%"@) == (ilike(v, Seq::<char>::empty()) || (v.len() > 0 && ilike(
        v.drop_first(),
        "%"@,
    ))));
    if v.len() > 0 {
        lemma_ilike_any(v.drop_first());
    } else {
        assert(ilike(v, Seq::<char>::empty()));
    }
}

proof fn lemma_ilike_prefix(v: Seq<char>, t: Seq<char>)
    requires
        is_plain_term(t),
    ensures
        ilike(v, t + "%"@) <==> starts_with_ci(v, t),
    decreases t.len(),
{
    reveal_strlit("%");
    if t.len() == 0 {
        assert(t + "%"@ =~= "%"@);
        lemma_ilike_any(v);
    } else {
        let p = t + "%"@;
        assert(p[0] == t[0]);
        assert(t[0] != '%' && t[0] != '_');
        assert(p.drop_first() =~= t.drop_first() + "%"@);
        assert(is_plain_term(t.drop_first())) by {
            assert forall|i: int| 0 <= i < t.drop_first().len() implies #[trigger] t.drop_first()[i]
                != '%' && t.drop_first()[i] != '_' && t.drop_first()[i] != '\\' by {
                assert(t.drop_first()[i] == t[i + 1]);
            }
        }
        if v.len() > 0 {
            lemma_ilike_prefix(v.drop_first(), t.drop_first());
            if starts_with_ci(v, t) {
                assert forall|i: int| 0 <= i < t.drop_first().len() implies same_letter(
                    #[trigger] v.drop_first()[i],
                    t.drop_first()[i],
                ) by {
                    assert(same_letter(v[i + 1], t[i + 1]));
                }
            }
            if same_letter(v[0], t[0]) && starts_with_ci(v.drop_first(), t.drop_first()) {
                assert forall|i: int| 0 <= i < t.len() implies same_letter(#[trigger] v[i], t[i]) by {
                    if i > 0 {
                        assert(v[i] == v.drop_first()[i - 1]);
                        assert(t[i] == t.drop_first()[i - 1]);
                    }
                }
            }
        }
    }
}

proof fn lemma_contains_step(v: Seq<char>, t: Seq<char>)
    ensures
        contains_ci(v, t) <==> (starts_with_ci(v, t) || (v.len() > 0 && contains_ci(
            v.drop_first(),
            t,
        ))),
{
    assert(v.subrange(0, v.len() as int) =~= v);
    if v.len() > 0 {
        let w = v.drop_first();
        if contains_ci(w, t) {
            let i = choose|i: int|
                0 <= i <= w.len() && #[trigger] starts_with_ci(w.subrange(i, w.len() as int), t);
            assert(w.subrange(i, w.len() as int) =~= v.subrange(i + 1, v.len() as int));
            assert(starts_with_ci(v.subrange(i + 1, v.len() as int), t));
        }
        if contains_ci(v, t) && !starts_with_ci(v, t) {
            let i = choose|i: int|
                0 <= i <= v.len() && #[trigger] starts_with_ci(v.subrange(i, v.len() as int), t);
            assert(i != 0);
            assert(w.subrange(i - 1, w.len() as int) =~= v.subrange(i, v.len() as int));
            assert(starts_with_ci(w.subrange(i - 1, w.len() as int), t));
        }
    } else if contains_ci(v, t) {
        let i = choose|i: int|
            0 <= i <= v.len() && #[trigger] starts_with_ci(v.subrange(i, v.len() as int), t);
        assert(i == 0);
    }
}

proof fn lemma_ilike_substring(v: Seq<char>, t: Seq<char>)
    requires
        is_plain_term(t),
    ensures
        ilike(v, pattern(t)) <==> contains_ci(v, t),
    decreases v.len(),
{
    reveal_strlit("%");
    let p = pattern(t);
    assert(p[0] == '%');
    assert(p.drop_first() =~= t + "%"@);
    assert(ilike(v, p) == (ilike(v, t + "%"@) || (v.len() > 0 && ilike(v.drop_first(), p))));
    lemma_ilike_prefix(v, t);
    lemma_contains_step(v, t);
    if v.len() > 0 {
        lemma_ilike_substring(v.drop_first(), t);
    }
}

/// Of an all-terms plan: a value meets the pattern of every parameter
/// exactly when it holds every term as a substring, up to case. Terms that
/// hold a pattern character are left out: there they act as wildcards.
pub proof fn lemma_all_plan_needs_every_term(
    qs: Seq<QuerySpec>,
    terms: Seq<String>,
    f: SearchField,
    v: Seq<char>,
)
    requires
        is_search_plan(qs, terms, f, Combinator::All),
        forall|i: int| 0 <= i < terms.len() ==> is_plain_term(#[trigger] terms[i]@),
    ensures
        (forall|i: int| 0 <= i < qs[0].params@.len() ==> ilike(v, #[trigger] qs[0].params@[i]@))
            <==> (forall|i: int| 0 <= i < terms.len() ==> contains_ci(v, #[trigger] terms[i]@)),
{
    assert forall|i: int| 0 <= i < terms.len() implies ilike(v, #[trigger] qs[0].params@[i]@)
        == contains_ci(v, terms[i]@) by {
        assert(is_plain_term(terms[i]@));
        lemma_ilike_substring(v, terms[i]@);
    }
    assert(qs[0].params@.len() == terms.len());
    if forall|i: int| 0 <= i < terms.len() ==> contains_ci(v, #[trigger] terms[i]@) {
        assert forall|i: int| 0 <= i < qs[0].params@.len() implies ilike(v, #[trigger] qs[0].params@[i]@) by {
            assert(contains_ci(v, terms[i]@));
        }
    }
    if forall|i: int| 0 <= i < qs[0].params@.len() ==> ilike(v, #[trigger] qs[0].params@[i]@) {
        assert forall|i: int| 0 <= i < terms.len() implies contains_ci(v, #[trigger] terms[i]@) by {
            assert(ilike(v, qs[0].params@[i]@));
        }
    }
}

/// Of an any-term plan: a value meets the pattern of some statement exactly
/// when it holds some term as a substring, up to case. Terms that hold a
/// pattern character are left out: there they act as wildcards.
pub proof fn lemma_any_plan_needs_some_term(
    qs: Seq<QuerySpec>,
    terms: Seq<String>,
    f: SearchField,
    v: Seq<char>,
)
    requires
        is_search_plan(qs, terms, f, Combinator::Any),
        forall|i: int| 0 <= i < terms.len() ==> is_plain_term(#[trigger] terms[i]@),
    ensures
        (exists|i: int| 0 <= i < qs.len() && ilike(v, #[trigger] qs[i].params@[0]@))
            <==> (exists|i: int| 0 <= i < terms.len() && contains_ci(v, #[trigger] terms[i]@)),
{
    assert forall|i: int| 0 <= i < terms.len() implies ilike(v, #[trigger] qs[i].params@[0]@)
        == contains_ci(v, terms[i]@) by {
        assert(is_plain_term(terms[i]@));
        assert(qs[i].params@[0]@ == pattern(seq![terms[i]][0]@));
        lemma_ilike_substring(v, terms[i]@);
    }
    if exists|i: int| 0 <= i < terms.len() && contains_ci(v, #[trigger] terms[i]@) {
        let i = choose|i: int| 0 <= i < terms.len() && contains_ci(v, #[trigger] terms[i]@);
        assert(ilike(v, qs[i].params@[0]@));
    }
}

} // verus!
