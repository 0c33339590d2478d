//! What the start of the server decides: how the database is reached, and
//! which origins may call the API from a browser.

use vstd::prelude::*;

verus! {

pub const POOL_SIZE: usize = 16;

pub const HOST_UNSET: &'static str = "PG_HOST not set";

pub const USER_UNSET: &'static str = "PG_USER not set";

pub const DB_UNSET: &'static str = "PG_DB not set";

/// How the pool of database connections is set up.
#[derive(Debug, Clone, PartialEq, Eq)]
pub enum PgSettings {
    /// From one connection string, with a pool of at most `max_size`
    /// connections.
    Url { url: String, max_size: usize },
    /// From the single settings; the password may be left out.
    Parts { host: String, user: String, password: Option<String>, dbname: String },
}

/// The settings for the pool. A connection string wins over the single
/// settings; without one, host, user and database name are needed, and the
/// first of them that is missing is named in the error.
pub fn pg_settings(
    database_url: Option<String>,
    host: Option<String>,
    user: Option<String>,
    password: Option<String>,
    dbname: Option<String>,
) -> (r: Result<PgSettings, String>)
    ensures
        match database_url {
            Some(url) => r == Ok::<PgSettings, String>(PgSettings::Url { url, max_size: POOL_SIZE }),
            None => if host is None {
                r matches Err(message) && message@ == HOST_UNSET@
            } else if user is None {
                r matches Err(message) && message@ == USER_UNSET@
            } else if dbname is None {
                r matches Err(message) && message@ == DB_UNSET@
            } else {
                r == Ok::<PgSettings, String>(
                    PgSettings::Parts { host: host->0, user: user->0, password, dbname: dbname->0 },
                )
            },
        },
{
    match database_url {
        Some(url) => Ok(PgSettings::Url { url, max_size: POOL_SIZE }),
        None => {
            let host = match host {
                Some(host) => host,
                None => {
                    return Err(HOST_UNSET.to_string());
                },
            };
            let user = match user {
                Some(user) => user,
                None => {
                    return Err(USER_UNSET.to_string());
                },
            };
            let dbname = match dbname {
                Some(dbname) => dbname,
                None => {
                    return Err(DB_UNSET.to_string());
                },
            };
            Ok(PgSettings::Parts { host, user, password, dbname })
        },
    }
}

/// The bytes of `vercel.app` in ASCII.
pub open spec fn hosted_suffix() -> Seq<u8> {
    seq![118u8, 101u8, 114u8, 99u8, 101u8, 108u8, 46u8, 97u8, 112u8, 112u8]
}

/// Whether `bytes` ends with `suffix`.
pub fn ends_with(bytes: &[u8], suffix: &[u8]) -> (r: bool)
    ensures
        r == suffix@.is_suffix_of(bytes@),
{
    if suffix.len() > bytes.len() {
        return false;
    }
    let start: usize = bytes.len() - suffix.len();
    let mut i: usize = 0;
    while i < suffix.len()
        invariant
            i <= suffix.len(),
            start + suffix.len() == bytes.len(),
            forall|j: int| 0 <= j < i ==> suffix@[j] == bytes@[start + j],
        decreases suffix.len() - i,
    {
        if suffix[i] != bytes[start + i] {
            assert(bytes@.subrange(start as int, bytes@.len() as int)[i as int] != suffix@[i as int]);
            return false;
        }
        i = i + 1;
    }
    assert(suffix@ =~= bytes@.subrange(start as int, bytes@.len() as int));
    true
}

/// Whether a browser page of this origin may call the API besides the local
/// ones: every origin that ends in `vercel.app` may.
pub fn is_hosted_origin(origin: &[u8]) -> (r: bool)
    ensures
        r == hosted_suffix().is_suffix_of(origin@),
{
    let suffix: [u8; 10] = [118u8, 101u8, 114u8, 99u8, 101u8, 108u8, 46u8, 97u8, 112u8, 112u8];
    assert(suffix@ =~= hosted_suffix());
    ends_with(origin, suffix.as_slice())
}

} // verus!
