use vstd::prelude::*;
use vstd::string::*;
use crate::query::{AccessError, QuerySpec};

verus! {

pub open spec fn list_statement_text() -> Seq<char> {
    "SELECT id, key, value, description, updated_at FROM configurations ORDER BY key"@
}

pub open spec fn update_statement_text() -> Seq<char> {
    "UPDATE configurations SET value = $1, updated_at = CURRENT_TIMESTAMP WHERE key = $2"@
}

/// A configuration table as `(key, value, time of update)` triples.
pub type TableModel = Seq<(Seq<char>, Seq<char>, int)>;

/// What the update statement does to a table when run at time `now` with
/// `params`: the entry whose key is `$2` gets `$1` as its value and `now` as
/// its time of update; every other entry stays as it was.
pub open spec fn update_effect(table: TableModel, params: Seq<String>, now: int) -> TableModel {
    table.map_values(
        |e: (Seq<char>, Seq<char>, int)|
            if e.0 == params[1]@ {
                (e.0, params[0]@, now)
            } else {
                e
            },
    )
}

/// `q` is the update request for `key` and `value`.
pub open spec fn is_update_request(q: QuerySpec, key: Seq<char>, value: Seq<char>) -> bool {
    &&& q.statement@ == update_statement_text()
    &&& q.params@.len() == 2
    &&& q.params@[0]@ == value
    &&& q.params@[1]@ == key
}

/// Running the same update twice leaves the table as running it once at the
/// later time: the values are those of the first run, and only the time of
/// update of the entry with that key moves on.
pub proof fn lemma_update_is_idempotent(
    q: QuerySpec,
    key: Seq<char>,
    value: Seq<char>,
    table: TableModel,
    first: int,
    second: int,
)
    requires
        is_update_request(q, key, value),
    ensures
        update_effect(update_effect(table, q.params@, first), q.params@, second) == update_effect(
            table,
            q.params@,
            second,
        ),
        forall|i: int|
            0 <= i < table.len() ==> {
                &&& (#[trigger] update_effect(update_effect(table, q.params@, first), q.params@, second)[i]).1
                    == update_effect(table, q.params@, first)[i].1
                &&& update_effect(update_effect(table, q.params@, first), q.params@, second)[i].0
                    == table[i].0
                &&& table[i].0 != key ==> update_effect(update_effect(table, q.params@, first), q.params@, second)[i]
                    == table[i]
            },
{
    let once = update_effect(table, q.params@, first);
    let twice = update_effect(once, q.params@, second);
    assert(twice =~= update_effect(table, q.params@, second));
}

/// An update for a key that no entry has leaves the table as it is.
pub proof fn lemma_update_of_missing_key(q: QuerySpec, key: Seq<char>, value: Seq<char>, table: TableModel, now: int)
    requires
        is_update_request(q, key, value),
        forall|i: int| 0 <= i < table.len() ==> (#[trigger] table[i]).0 != key,
    ensures
        update_effect(table, q.params@, now) == table,
{
    assert(update_effect(table, q.params@, now) =~= table);
}

/// The statement that lists every entry, ordered by key.
pub fn list_configurations_query() -> (r: QuerySpec)
    ensures
        r.statement@ == list_statement_text(),
        r.params@.len() == 0,
{
    QuerySpec {
        statement: String::from_str(
            "SELECT id, key, value, description, updated_at FROM configurations ORDER BY key",
        ),
        params: Vec::new(),
    }
}

/// The statement that sets the value of the entry with `key` and lets the
/// datastore refresh its time of update; `$1` is the value, `$2` the key.
pub fn update_configuration_query(key: &String, value: &String) -> (r: QuerySpec)
    ensures
        is_update_request(r, key@, value@),
{
    let mut params: Vec<String> = Vec::new();
    params.push(value.clone());
    params.push(key.clone());
    QuerySpec {
        statement: String::from_str(
            "UPDATE configurations SET value = $1, updated_at = CURRENT_TIMESTAMP WHERE key = $2",
        ),
        params,
    }
}

/// The outcome of an update from what the datastore answered: any number of
/// affected rows, none included, is a success; a failure is a query error.
pub fn update_outcome(answer: Result<u64, String>) -> (r: Result<(), AccessError>)
    ensures
        answer is Ok <==> r is Ok,
        answer matches Err(m) ==> r matches Err(AccessError::Query(n)) && n == m,
{
    match answer {
        Ok(_) => Ok(()),
        Err(m) => Err(AccessError::Query(m)),
    }
}

} // verus!
