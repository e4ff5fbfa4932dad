//! Resolution of the invoking user's identity: the name, home directory and
//! shell path the spawned shell runs under. Environment-supplied values are
//! preferred; the system user database supplies the fallback, and its entry
//! must exist for the resolution to succeed at all.

use vstd::prelude::*;
use crate::error::PtyError;
use crate::sys;

verus! {

/// The identity a shell is spawned under.
#[derive(Debug)]
pub struct ShellUser {
    pub user: String,
    pub home: String,
    pub shell: String,
}

/// What the user-database lookup produced: an entry's name, home directory
/// and shell path; no entry for the invoking user; a failed lookup call; or
/// an entry whose paths are not valid UTF-8.
pub enum UserLookup {
    Found(String, String, String),
    NoEntry,
    LookupFailed,
    NotUnicode,
}

/// The value a field of the identity resolves to: the preferred
/// (environment-supplied) value when present, the database fallback otherwise.
pub open spec fn chosen(preferred: Option<String>, fallback: Seq<char>) -> Seq<char> {
    match preferred {
        Some(p) => p@,
        None => fallback,
    }
}

/// Picks the preferred value when present, the fallback otherwise.
pub fn pick(preferred: Option<String>, fallback: String) -> (r: String)
    ensures
        r@ == chosen(preferred, fallback@),
{
    match preferred {
        Some(p) => p,
        None => fallback,
    }
}

/// Combines a database lookup outcome with the environment-supplied values
/// into a shell identity: every field prefers the environment value; the
/// lookup must have found an entry, and each way it can fail has its own
/// error message.
pub fn from_parts(
    lookup: UserLookup,
    env_user: Option<String>,
    env_home: Option<String>,
    env_shell: Option<String>,
) -> (r: Result<ShellUser, PtyError>)
    ensures
        match lookup {
            UserLookup::Found(n, d, sh) => r matches Ok(u) && u.user@ == chosen(env_user, n@)
                && u.home@ == chosen(env_home, d@) && u.shell@ == chosen(env_shell, sh@),
            UserLookup::NoEntry => r matches Err(e) && e.0@
                == "session password response error"@,
            UserLookup::LookupFailed => r matches Err(e) && e.0@
                == "session password UID status error"@,
            UserLookup::NotUnicode => r matches Err(e) && e.0@
                == "session password entry invalid utf-8"@,
        },
{
    match lookup {
        UserLookup::Found(n, d, sh) => Ok(
            ShellUser {
                user: pick(env_user, n),
                home: pick(env_home, d),
                shell: pick(env_shell, sh),
            },
        ),
        UserLookup::NoEntry => Err(PtyError::new("session password response error")),
        UserLookup::LookupFailed => Err(PtyError::new("session password UID status error")),
        UserLookup::NotUnicode => Err(PtyError::new("session password entry invalid utf-8")),
    }
}

/// Resolves the identity to spawn a shell under, from the given
/// environment-supplied values and the system user database. Fails exactly
/// when the database has no usable entry for the invoking user, whatever the
/// environment supplies.
pub fn resolve_user(
    env_user: Option<String>,
    env_home: Option<String>,
    env_shell: Option<String>,
) -> (r: Result<ShellUser, PtyError>)
    ensures
        r matches Ok(u) ==> {
            &&& (env_user matches Some(p) ==> u.user@ == p@)
            &&& (env_home matches Some(p) ==> u.home@ == p@)
            &&& (env_shell matches Some(p) ==> u.shell@ == p@)
        },
        r matches Err(e) ==> e.0@ == "session password UID status error"@ || e.0@
            == "session password response error"@ || e.0@
            == "session password entry invalid utf-8"@,
{
    let lookup = sys::user_db_entry();
    from_parts(lookup, env_user, env_home, env_shell)
}

} // verus!
