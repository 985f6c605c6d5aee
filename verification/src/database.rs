//! How the Postgres connection is set up.
use vstd::prelude::*;
use crate::text::same_text;

verus! {

/// The settings of the connection pool and what to run on the database before migrating.
#[derive(Debug)]
pub struct ConnectionPlan {
    /// The Postgres connection string.
    pub url: String,
    pub max_connections: u32,
    pub min_connections: u32,
    pub connect_timeout_secs: u64,
    pub acquire_timeout_secs: u64,
    pub idle_timeout_secs: u64,
    pub max_lifetime_secs: u64,
    /// Whether the driver logs its statements.
    pub sqlx_logging: bool,
    /// The schema the bot works in.
    pub schema: String,
    /// The search path to set, if any.
    pub search_path: Option<String>,
    /// The statement that creates the schema, if one has to be run.
    pub create_schema: Option<String>,
}

/// The schema used when none is configured.
pub open spec fn default_schema() -> Seq<char> {
    "public"@
}

/// Plans the database connection. The pool holds at most `pool_size` connections (3 when
/// not given) and at least the smaller of 2 and `pool_size` (2 when not given); the timeouts
/// are 10 seconds to connect and to acquire, 15 seconds of idleness and 15 seconds of
/// lifetime; statement logging is off. The schema is the given one, `public` by default; any
/// other schema than `public` is created if missing and searched first, with `public` as
/// fallback.
pub fn connection_plan(url: String, schema: Option<String>, pool_size: Option<u32>) -> (p: ConnectionPlan)
    ensures
        p.url@ == url@,
        p.max_connections == match pool_size {
            Some(n) => n,
            None => 3,
        },
        p.min_connections == match pool_size {
            Some(n) => if n < 2 { n } else { 2 },
            None => 2,
        },
        p.connect_timeout_secs == 10,
        p.acquire_timeout_secs == 10,
        p.idle_timeout_secs == 15,
        p.max_lifetime_secs == 15,
        !p.sqlx_logging,
        p.schema@ == match schema {
            Some(s) => s@,
            None => default_schema(),
        },
        p.schema@ == default_schema() ==> p.search_path is None && p.create_schema is None,
        p.schema@ != default_schema() ==> (p.search_path matches Some(sp) && sp@ == p.schema@
            + ",public"@),
        p.schema@ != default_schema() ==> (p.create_schema matches Some(sql) && sql@
            == "CREATE SCHEMA IF NOT EXISTS "@ + p.schema@),
{
    let max_connections = match pool_size {
        Some(n) => n,
        None => 3,
    };
    let min_connections = match pool_size {
        Some(n) => if n < 2 { n } else { 2 },
        None => 2,
    };
    let schema = match schema {
        Some(s) => s,
        None => String::from_str("public"),
    };
    let (search_path, create_schema) = if same_text(schema.as_str(), "public") {
        (None, None)
    } else {
        (
            Some(schema.clone().concat(",public")),
            Some(String::from_str("CREATE SCHEMA IF NOT EXISTS ").concat(schema.as_str())),
        )
    };
    ConnectionPlan {
        url,
        max_connections,
        min_connections,
        connect_timeout_secs: 10,
        acquire_timeout_secs: 10,
        idle_timeout_secs: 15,
        max_lifetime_secs: 15,
        sqlx_logging: false,
        schema,
        search_path,
        create_schema,
    }
}

} // verus!
