//! The statements that the store runs, and what each does to its table.
//!
//! The table maps each key to at most one entry. An upsert inserts or replaces
//! the whole entry, timestamp included, in one statement; a delete removes, in
//! one statement, every entry whose timestamp text sorts strictly before the
//! cutoff text, which is how the database compares `TEXT` values.
use vstd::prelude::*;
use crate::entity::{CacheEntry, EntryView};

verus! {

/// Creates the table.
pub const SCHEMA_SQL: &'static str = "CREATE TABLE cache (key TEXT PRIMARY KEY, value TEXT NOT NULL, created_at TEXT NOT NULL DEFAULT CURRENT_TIMESTAMP)";

/// Reads the entry of one key.
pub const SELECT_SQL: &'static str = "SELECT key, value, created_at FROM cache WHERE key = ?";

/// Inserts an entry, or replaces the value and the timestamp of the key's entry.
pub const UPSERT_SQL: &'static str = "INSERT INTO cache (key, value, created_at) VALUES (?, ?, ?) ON CONFLICT(key) DO UPDATE SET value = excluded.value, created_at = excluded.created_at";

/// Removes every entry written strictly before the cutoff.
pub const DELETE_OLDER_THAN_SQL: &'static str = "DELETE FROM cache WHERE created_at < ?";

/// A statement on the table, with the values bound to it.
pub enum Statement {
    Select { key: String },
    Upsert { key: String, value: String, created_at: String },
    DeleteOlderThan { cutoff: String },
}

pub enum StatementView {
    Select { key: Seq<char> },
    Upsert { key: Seq<char>, value: Seq<char>, created_at: Seq<char> },
    DeleteOlderThan { cutoff: Seq<char> },
}

impl View for Statement {
    type V = StatementView;

    open spec fn view(&self) -> StatementView {
        match self {
            Statement::Select { key } => StatementView::Select { key: key@ },
            Statement::Upsert { key, value, created_at } => StatementView::Upsert {
                key: key@,
                value: value@,
                created_at: created_at@,
            },
            Statement::DeleteOlderThan { cutoff } => StatementView::DeleteOlderThan {
                cutoff: cutoff@,
            },
        }
    }
}

/// The SQL text of a statement.
pub open spec fn statement_sql(s: StatementView) -> Seq<char> {
    match s {
        StatementView::Select { .. } => SELECT_SQL@,
        StatementView::Upsert { .. } => UPSERT_SQL@,
        StatementView::DeleteOlderThan { .. } => DELETE_OLDER_THAN_SQL@,
    }
}

/// The values bound to a statement's placeholders, in order.
pub open spec fn statement_params(s: StatementView) -> Seq<Seq<char>> {
    match s {
        StatementView::Select { key } => seq![key],
        StatementView::Upsert { key, value, created_at } => seq![key, value, created_at],
        StatementView::DeleteOlderThan { cutoff } => seq![cutoff],
    }
}

pub open spec fn texts(v: Seq<String>) -> Seq<Seq<char>> {
    v.map_values(|s: String| s@)
}

impl Statement {
    /// The statement's SQL text.
    pub fn sql(&self) -> (r: &'static str)
        ensures
            r@ == statement_sql(self@),
    {
        match self {
            Statement::Select { .. } => SELECT_SQL,
            Statement::Upsert { .. } => UPSERT_SQL,
            Statement::DeleteOlderThan { .. } => DELETE_OLDER_THAN_SQL,
        }
    }

    /// The values to bind to the statement's placeholders, in order.
    pub fn params(&self) -> (r: Vec<String>)
        ensures
            texts(r@) == statement_params(self@),
    {
        let r = match self {
            Statement::Select { key } => vec![key.clone()],
            Statement::Upsert { key, value, created_at } => vec![
                key.clone(),
                value.clone(),
                created_at.clone(),
            ],
            Statement::DeleteOlderThan { cutoff } => vec![cutoff.clone()],
        };
        assert(texts(r@) =~= statement_params(self@));
        r
    }
}

/// The table's contents: the entry of each key that has one.
pub type Table = Map<Seq<char>, EntryView>;

/// Whether text `a` sorts strictly before text `b`, character by character.
pub open spec fn text_less(a: Seq<char>, b: Seq<char>) -> bool
    decreases a.len(),
{
    if b.len() == 0 {
        false
    } else if a.len() == 0 {
        true
    } else if a[0] != b[0] {
        (a[0] as u32) < (b[0] as u32)
    } else {
        text_less(a.drop_first(), b.drop_first())
    }
}

/// Whether the entry survives a delete with `cutoff`.
pub open spec fn kept_by(e: EntryView, cutoff: Seq<char>) -> bool {
    !text_less(e.created_at, cutoff)
}

/// The table after one statement.
pub open spec fn apply(t: Table, s: StatementView) -> Table {
    match s {
        StatementView::Select { .. } => t,
        StatementView::Upsert { key, value, created_at } => t.insert(
            key,
            EntryView { key, value, created_at },
        ),
        StatementView::DeleteOlderThan { cutoff } => Map::new(
            |k: Seq<char>| t.contains_key(k) && kept_by(t[k], cutoff),
            |k: Seq<char>| t[k],
        ),
    }
}

/// The table after a sequence of statements, run one after another.
pub open spec fn run(t: Table, stmts: Seq<StatementView>) -> Table
    decreases stmts.len(),
{
    if stmts.len() == 0 {
        t
    } else {
        apply(run(t, stmts.drop_last()), stmts.last())
    }
}

/// What a select of `key` reads from the table.
pub open spec fn lookup(t: Table, key: Seq<char>) -> Option<EntryView> {
    if t.contains_key(key) {
        Some(t[key])
    } else {
        None
    }
}

/// The row that a select hands back, as an entry.
pub fn entry_from_row(row: (String, String, String)) -> (r: CacheEntry)
    ensures
        r.key@ == row.0@,
        r.value@ == row.1@,
        r.created_at@ == row.2@,
{
    let (key, value, created_at) = row;
    CacheEntry { key, value, created_at }
}

/// No text sorts strictly before itself.
pub proof fn lemma_text_less_irreflexive(a: Seq<char>)
    ensures
        !text_less(a, a),
    decreases a.len(),
{
    if a.len() > 0 {
        lemma_text_less_irreflexive(a.drop_first());
    }
}

/// Of two texts, at most one sorts strictly before the other.
pub proof fn lemma_text_less_asymmetric(a: Seq<char>, b: Seq<char>)
    ensures
        text_less(a, b) ==> !text_less(b, a),
    decreases a.len(),
{
    if a.len() > 0 && b.len() > 0 && a[0] == b[0] {
        lemma_text_less_asymmetric(a.drop_first(), b.drop_first());
    }
}

} // verus!
