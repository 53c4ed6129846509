use vstd::prelude::*;
use vstd::string::*;
use crate::text::{decimal, push_decimal};

verus! {

/// The catalogue column that a search looks in.
#[derive(Clone, Copy, Debug, PartialEq, Eq, Structural)]
pub enum SearchField {
    Filename,
    Directory,
}

/// How the terms of a search are combined.
#[derive(Clone, Copy, Debug, PartialEq, Eq, Structural)]
pub enum Combinator {
    /// A record must match every term.
    All,
    /// A record may match any one term.
    Any,
}

/// One statement for the datastore together with its positional parameters
/// (`$1` is `params[0]`, and so on). Values are never written into the text.
#[derive(Clone, Debug)]
pub struct QuerySpec {
    pub statement: String,
    pub params: Vec<String>,
}

/// Why a request could not be served.
#[derive(Clone, Debug)]
pub enum AccessError {
    /// The datastore could not be reached or refused the credentials.
    Connection(String),
    /// The datastore failed to run a statement.
    Query(String),
    /// The request itself was malformed.
    Validation(String),
}

pub open spec fn field_name(f: SearchField) -> Seq<char> {
    match f {
        SearchField::Filename => "filename"@,
        SearchField::Directory => "directory"@,
    }
}

pub open spec fn select_prefix() -> Seq<char> {
    "SELECT id, filename, directory, last_modified FROM files WHERE "@
}

pub open spec fn limit_suffix() -> Seq<char> {
    " LIMIT 100"@
}

/// The case-insensitive match of the field against parameter number `i + 1`.
pub open spec fn condition(f: SearchField, i: nat) -> Seq<char> {
    field_name(f) + " ILIKE $"@ + decimal(i + 1)
}

/// The conjunction of the first `n` conditions, numbered from 1.
pub open spec fn conditions(f: SearchField, n: nat) -> Seq<char>
    decreases n,
{
    if n == 0 {
        Seq::empty()
    } else if n == 1 {
        condition(f, 0)
    } else {
        conditions(f, (n - 1) as nat) + " AND "@ + condition(f, (n - 1) as nat)
    }
}

/// The single statement of an all-terms search over `n` terms.
pub open spec fn all_statement(f: SearchField, n: nat) -> Seq<char> {
    select_prefix() + conditions(f, n) + limit_suffix()
}

/// The statement run once per term in an any-term search.
pub open spec fn any_statement(f: SearchField) -> Seq<char> {
    select_prefix() + condition(f, 0) + limit_suffix()
}

/// The substring pattern bound for a term: the term between two wildcards.
pub open spec fn pattern(term: Seq<char>) -> Seq<char> {
    "%"@ + term + "%"@
}

/// Each parameter is the pattern of the term at the same position.
pub open spec fn binds_patterns(params: Seq<String>, terms: Seq<String>) -> bool {
    &&& params.len() == terms.len()
    &&& forall|i: int| 0 <= i < terms.len() ==> #[trigger] params[i]@ == pattern(terms[i]@)
}

/// `qs` is the plan of a search: one statement with every pattern for
/// [`Combinator::All`], one statement per term for [`Combinator::Any`].
pub open spec fn is_search_plan(
    qs: Seq<QuerySpec>,
    terms: Seq<String>,
    f: SearchField,
    c: Combinator,
) -> bool {
    match c {
        Combinator::All => {
            &&& qs.len() == 1
            &&& qs[0].statement@ == all_statement(f, terms.len())
            &&& binds_patterns(qs[0].params@, terms)
        },
        Combinator::Any => {
            &&& qs.len() == terms.len()
            &&& forall|i: int|
                0 <= i < terms.len() ==> {
                    &&& (#[trigger] qs[i]).statement@ == any_statement(f)
                    &&& binds_patterns(qs[i].params@, seq![terms[i]])
                }
        },
    }
}

/// What a plan says: each statement's text and the text of its parameters.
pub open spec fn plan_view(qs: Seq<QuerySpec>) -> Seq<(Seq<char>, Seq<Seq<char>>)> {
    qs.map_values(|q: QuerySpec| (q.statement@, q.params@.map_values(|p: String| p@)))
}

proof fn lemma_same_bindings(a: Seq<String>, b: Seq<String>, terms: Seq<String>)
    requires
        binds_patterns(a, terms),
        binds_patterns(b, terms),
    ensures
        a.map_values(|p: String| p@) == b.map_values(|p: String| p@),
{
    assert(a.map_values(|p: String| p@) =~= b.map_values(|p: String| p@)) by {
        assert forall|i: int| 0 <= i < a.len() implies a[i]@ == b[i]@ by {
            assert(a[i]@ == pattern(terms[i]@));
            assert(b[i]@ == pattern(terms[i]@));
        }
    }
}

/// The same search always gives the same plan: two plans of one list of
/// terms, field and combinator say the same.
pub proof fn lemma_plan_is_unique(
    a: Seq<QuerySpec>,
    b: Seq<QuerySpec>,
    terms: Seq<String>,
    f: SearchField,
    c: Combinator,
)
    requires
        is_search_plan(a, terms, f, c),
        is_search_plan(b, terms, f, c),
    ensures
        plan_view(a) == plan_view(b),
{
    assert forall|i: int| 0 <= i < a.len() implies plan_view(a)[i] == plan_view(b)[i] by {
        match c {
            Combinator::All => {
                lemma_same_bindings(a[i].params@, b[i].params@, terms);
            },
            Combinator::Any => {
                lemma_same_bindings(a[i].params@, b[i].params@, seq![terms[i]]);
            },
        }
    }
    assert(plan_view(a) =~= plan_view(b));
}

fn field_str(f: SearchField) -> (r: &'static str)
    ensures
        r@ == field_name(f),
{
    match f {
        SearchField::Filename => "filename",
        SearchField::Directory => "directory",
    }
}

fn push_condition(out: &mut String, f: SearchField, i: usize)
    requires
        i < usize::MAX,
    ensures
        final(out)@ == old(out)@ + condition(f, i as nat),
{
    out.append(field_str(f));
    out.append(" ILIKE $");
    push_decimal(out, (i + 1) as u64);
    assert(out@ =~= old(out)@ + condition(f, i as nat));
}

fn make_pattern(term: &String) -> (r: String)
    ensures
        r@ == pattern(term@),
{
    let mut p = String::from_str("%");
    p.append(term.as_str());
    p.append("%");
    assert(p@ =~= pattern(term@));
    p
}

/// The statement of an all-terms search with one condition per term.
pub fn all_terms_query(terms: &Vec<String>, f: SearchField) -> (r: QuerySpec)
    requires
        terms.len() > 0,
    ensures
        r.statement@ == all_statement(f, terms.len() as nat),
        binds_patterns(r.params@, terms@),
{
    let mut statement = String::from_str(
        "SELECT id, filename, directory, last_modified FROM files WHERE ",
    );
    let mut params: Vec<String> = Vec::new();
    let mut i: usize = 0;
    while i < terms.len()
        invariant
            0 <= i <= terms.len(),
            statement@ == select_prefix() + conditions(f, i as nat),
            params@.len() == i,
            forall|k: int| 0 <= k < i ==> #[trigger] params@[k]@ == pattern(terms@[k]@),
        decreases terms.len() - i,
    {
        if i > 0 {
            statement.append(" AND ");
        }
        push_condition(&mut statement, f, i);
        assert(statement@ =~= select_prefix() + conditions(f, (i + 1) as nat));
        params.push(make_pattern(&terms[i]));
        i = i + 1;
    }
    statement.append(" LIMIT 100");
    assert(statement@ =~= all_statement(f, terms.len() as nat));
    QuerySpec { statement, params }
}

/// The statement of an any-term search for a single term.
pub fn one_term_query(term: &String, f: SearchField) -> (r: QuerySpec)
    ensures
        r.statement@ == any_statement(f),
        binds_patterns(r.params@, seq![*term]),
{
    let mut statement = String::from_str(
        "SELECT id, filename, directory, last_modified FROM files WHERE ",
    );
    push_condition(&mut statement, f, 0);
    statement.append(" LIMIT 100");
    assert(statement@ =~= any_statement(f));
    let mut params: Vec<String> = Vec::new();
    params.push(make_pattern(term));
    QuerySpec { statement, params }
}

/// Turns a list of terms into the statements to run. An empty list is
/// rejected; otherwise the plan is the one [`is_search_plan`] describes.
pub fn build_queries(terms: &Vec<String>, f: SearchField, c: Combinator) -> (r: Result<
    Vec<QuerySpec>,
    AccessError,
>)
    ensures
        r is Err <==> terms@.len() == 0,
        r matches Err(e) ==> e is Validation,
        r matches Ok(qs) ==> is_search_plan(qs@, terms@, f, c),
{
    if terms.len() == 0 {
        return Err(AccessError::Validation(String::from_str("no search terms were given")));
    }
    let mut qs: Vec<QuerySpec> = Vec::new();
    match c {
        Combinator::All => {
            qs.push(all_terms_query(terms, f));
        },
        Combinator::Any => {
            let mut i: usize = 0;
            while i < terms.len()
                invariant
                    0 <= i <= terms.len(),
                    qs@.len() == i,
                    forall|k: int|
                        0 <= k < i ==> {
                            &&& (#[trigger] qs@[k]).statement@ == any_statement(f)
                            &&& binds_patterns(qs@[k].params@, seq![terms@[k]])
                        },
                decreases terms.len() - i,
            {
                qs.push(one_term_query(&terms[i], f));
                i = i + 1;
            }
        },
    }
    Ok(qs)
}

} // verus!
