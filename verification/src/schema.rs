//! The persisted schema, as an ordered list of migrations. Applying and
//! rolling back run outside the library; here the list itself is the
//! contract, with its versions proved distinct rather than checked at run
//! time.

use vstd::prelude::*;

verus! {

/// One schema migration: a version stamp, the statement that applies it
/// and the statement that undoes it.
pub struct Migration {
    pub version: i64,
    pub up: String,
    pub down: String,
}

/// The statement that creates `table` with `columns`.
pub open spec fn create_table_chars(table: Seq<char>, columns: Seq<char>) -> Seq<char> {
    "CREATE TABLE "@ + table + " ("@ + columns + ")"@
}

/// The statement that drops `table`.
pub open spec fn drop_table_chars(table: Seq<char>) -> Seq<char> {
    "DROP TABLE "@ + table
}

fn add_table(version: i64, table: &str, columns: &str) -> (m: Migration)
    ensures
        m.version == version,
        m.up@ =~= create_table_chars(table@, columns@),
        m.down@ =~= drop_table_chars(table@),
{
    let mut up = String::from_str("CREATE TABLE ");
    up.append(table);
    up.append(" (");
    up.append(columns);
    up.append(")");
    let mut down = String::from_str("DROP TABLE ");
    down.append(table);
    Migration { version, up, down }
}

/// The columns of the project table.
pub open spec fn projects_columns() -> Seq<char> {
    "
            id                      SERIAL PRIMARY KEY,
            repo_user               VARCHAR NOT NULL,
            repo_name               VARCHAR NOT NULL,
            github_repo_id          INTEGER NOT NULL,
            github_webhook_secret   VARCHAR NOT NULL,
            github_access_token     VARCHAR NOT NULL,
            travis_access_token     VARCHAR,
            appveyor_token          VARCHAR,
            UNIQUE (repo_user, repo_name)
        "@
}

/// The columns of the event table.
pub open spec fn events_columns() -> Seq<char> {
    "
            id                      SERIAL PRIMARY KEY,
            provider_id             INTEGER NOT NULL,
            provider_event_id       VARCHAR NOT NULL,
            provider_event          VARCHAR NOT NULL,
            event                   VARCHAR NOT NULL,
            created_at              TIMESTAMP NOT NULL default now(),
            state                   INTEGER NOT NULL,
            processed_at            TIMESTAMP NOT NULL default now()
        "@
}

/// Every migration, in the order they apply. Versions are distinct, so no
/// migration can shadow another.
pub fn migrations() -> (r: Vec<Migration>)
    ensures
        r@.len() == 2,
        r@[0].version == 20161030140653,
        r@[0].up@ =~= create_table_chars("projects"@, projects_columns()),
        r@[0].down@ =~= drop_table_chars("projects"@),
        r@[1].version == 20161030140654,
        r@[1].up@ =~= create_table_chars("events"@, events_columns()),
        r@[1].down@ =~= drop_table_chars("events"@),
        forall|i: int, j: int| 0 <= i < j < r@.len() ==> r@[i].version != r@[j].version,
{
    let mut out: Vec<Migration> = Vec::new();
    out.push(
        add_table(
            20161030140653,
            "projects",
            "
            id                      SERIAL PRIMARY KEY,
            repo_user               VARCHAR NOT NULL,
            repo_name               VARCHAR NOT NULL,
            github_repo_id          INTEGER NOT NULL,
            github_webhook_secret   VARCHAR NOT NULL,
            github_access_token     VARCHAR NOT NULL,
            travis_access_token     VARCHAR,
            appveyor_token          VARCHAR,
            UNIQUE (repo_user, repo_name)
        ",
        ),
    );
    out.push(
        add_table(
            20161030140654,
            "events",
            "
            id                      SERIAL PRIMARY KEY,
            provider_id             INTEGER NOT NULL,
            provider_event_id       VARCHAR NOT NULL,
            provider_event          VARCHAR NOT NULL,
            event                   VARCHAR NOT NULL,
            created_at              TIMESTAMP NOT NULL default now(),
            state                   INTEGER NOT NULL,
            processed_at            TIMESTAMP NOT NULL default now()
        ",
        ),
    );
    out
}

} // verus!
