use vstd::prelude::*;
use vstd::string::*;
use crate::text::{decimal, push_decimal};
use crate::timestamp::{render_timestamp, timestamp_text, Timestamp};

verus! {

/// A catalogued file as a search reports it.
#[derive(Clone, Debug)]
pub struct FileResult {
    pub id: i32,
    pub filename: String,
    pub directory: String,
    /// `YYYY-MM-DD HH:MM:SS`, when the catalogue knows it.
    pub last_modified: Option<String>,
}

/// One entry of the configuration table.
#[derive(Clone, Debug)]
pub struct Configuration {
    pub id: i32,
    pub key: String,
    pub value: String,
    pub description: Option<String>,
    /// `YYYY-MM-DD HH:MM:SS`, set by the datastore on each update.
    pub updated_at: String,
}

/// Where and as whom to reach the datastore.
#[derive(Clone, Debug)]
pub struct DatabaseConfig {
    pub host: String,
    pub port: u16,
    pub user: String,
    pub password: String,
    pub database: String,
}

/// A row of the `files` table as the datastore hands it over.
#[derive(Clone, Debug)]
pub struct FileRow {
    pub id: i32,
    pub filename: String,
    pub directory: String,
    pub last_modified: Option<Timestamp>,
}

/// A row of the `configurations` table as the datastore hands it over.
#[derive(Clone, Debug)]
pub struct ConfigurationRow {
    pub id: i32,
    pub key: String,
    pub value: String,
    pub description: Option<String>,
    pub updated_at: Timestamp,
}

/// The key-value connection string for a profile.
pub open spec fn connection_text(c: DatabaseConfig) -> Seq<char> {
    "host="@ + c.host@ + " port="@ + decimal(c.port as nat) + " user="@ + c.user@ + " password="@
        + c.password@ + " dbname="@ + c.database@
}

/// `s` is the rendering of `t`, wherever `t` is a valid timestamp.
pub open spec fn renders(s: String, t: Timestamp) -> bool {
    t.is_valid() ==> s@ == timestamp_text(t)
}

/// `r` is the record of row `w`: the same fields, the time rendered as text.
pub open spec fn is_file_result_of(r: FileResult, w: FileRow) -> bool {
    &&& r.id == w.id
    &&& r.filename == w.filename
    &&& r.directory == w.directory
    &&& match w.last_modified {
        None => r.last_modified is None,
        Some(t) => r.last_modified matches Some(s) && renders(s, t),
    }
}

/// `r` is the entry of row `w`: the same fields, the time rendered as text.
pub open spec fn is_configuration_of(r: Configuration, w: ConfigurationRow) -> bool {
    &&& r.id == w.id
    &&& r.key == w.key
    &&& r.value == w.value
    &&& r.description == w.description
    &&& renders(r.updated_at, w.updated_at)
}

impl DatabaseConfig {
    /// The connection string `host=.. port=.. user=.. password=.. dbname=..`.
    pub fn connection_string(&self) -> (r: String)
        ensures
            r@ == connection_text(*self),
    {
        let mut s = String::from_str("host=");
        s.append(self.host.as_str());
        s.append(" port=");
        push_decimal(&mut s, self.port as u64);
        s.append(" user=");
        s.append(self.user.as_str());
        s.append(" password=");
        s.append(self.password.as_str());
        s.append(" dbname=");
        s.append(self.database.as_str());
        assert(s@ =~= connection_text(*self));
        s
    }
}

impl FileResult {
    /// The record of one catalogue row.
    pub fn from_row(w: FileRow) -> (r: FileResult)
        ensures
            is_file_result_of(r, w),
    {
        let last_modified = match &w.last_modified {
            None => None,
            Some(t) => Some(render_timestamp(t)),
        };
        FileResult { id: w.id, filename: w.filename, directory: w.directory, last_modified }
    }
}

impl Configuration {
    /// The entry of one configuration row.
    pub fn from_row(w: ConfigurationRow) -> (r: Configuration)
        ensures
            is_configuration_of(r, w),
    {
        let updated_at = render_timestamp(&w.updated_at);
        Configuration {
            id: w.id,
            key: w.key,
            value: w.value,
            description: w.description,
            updated_at,
        }
    }
}

/// The records of a sequence of catalogue rows, in the same order.
pub fn file_results_from_rows(rows: Vec<FileRow>) -> (r: Vec<FileResult>)
    ensures
        r@.len() == rows@.len(),
        forall|i: int| 0 <= i < rows@.len() ==> is_file_result_of(#[trigger] r@[i], rows@[i]),
{
    let mut rest = rows;
    let mut out: Vec<FileResult> = Vec::new();
    while rest.len() > 0
        invariant
            out@.len() + rest@.len() == rows@.len(),
            rest@ == rows@.subrange(out@.len() as int, rows@.len() as int),
            forall|i: int| 0 <= i < out@.len() ==> is_file_result_of(#[trigger] out@[i], rows@[i]),
        decreases rest@.len(),
    {
        let w = rest.remove(0);
        out.push(FileResult::from_row(w));
    }
    out
}

/// The entries of a sequence of configuration rows, in the same order; no
/// rows give no entries.
pub fn configurations_from_rows(rows: Vec<ConfigurationRow>) -> (r: Vec<Configuration>)
    ensures
        r@.len() == rows@.len(),
        forall|i: int| 0 <= i < rows@.len() ==> is_configuration_of(#[trigger] r@[i], rows@[i]),
{
    let mut rest = rows;
    let mut out: Vec<Configuration> = Vec::new();
    while rest.len() > 0
        invariant
            out@.len() + rest@.len() == rows@.len(),
            rest@ == rows@.subrange(out@.len() as int, rows@.len() as int),
            forall|i: int| 0 <= i < out@.len() ==> is_configuration_of(#[trigger] out@[i], rows@[i]),
        decreases rest@.len(),
    {
        let w = rest.remove(0);
        out.push(Configuration::from_row(w));
    }
    out
}

} // verus!
