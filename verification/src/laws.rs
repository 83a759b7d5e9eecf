//! State-level guarantees of the autostart manager.
//!
//! The operating-system store is modelled as a map from artifact key to
//! artifact payload (see [`crate::request`]).  The lemmas here relate the
//! planned requests through that model: enabling makes the entry queryable,
//! disabling clears it whatever the prior state, the stored artifact
//! round-trips the executable path, and re-enabling overwrites the artifact
//! with the latest path.

use vstd::prelude::*;

use crate::platform::Platform;
use crate::plist::lemma_plist_round_trip;
use crate::plist::spec_plist_path;
use crate::plist::spec_plist_program_argument;
use crate::request::spec_apply;
use crate::request::spec_disable_plan;
use crate::request::spec_enable_plan;
use crate::request::spec_probe;
use crate::request::spec_query_plan;
use crate::request::OsRequest;

verus! {

/// The key under which the platform stores the registration artifact for
/// `app_name`: the value name itself on Windows, the launch-agent file path
/// on macOS, and nothing where no artifact location can be named.
pub open spec fn spec_artifact_key(
    platform: Platform,
    app_name: Seq<char>,
    home: Option<Seq<char>>,
) -> Option<Seq<char>> {
    match platform {
        Platform::Windows => Some(app_name),
        Platform::MacOs => match home {
            Some(h) => Some(spec_plist_path(h, app_name)),
            None => None,
        },
        Platform::Unsupported => None,
    }
}

/// The executable path recorded for `app_name` in the store, read back the
/// way the platform stores it: the registry value's data on Windows, the
/// `ProgramArguments` element of the launch-agent document on macOS.
pub open spec fn spec_stored_path(
    m: Map<Seq<char>, String>,
    platform: Platform,
    app_name: Seq<char>,
    home: Option<Seq<char>>,
) -> Option<Seq<char>> {
    match spec_artifact_key(platform, app_name, home) {
        Some(key) => if m.dom().contains(key) {
            match platform {
                Platform::Windows => Some(m[key]@),
                Platform::MacOs => spec_plist_program_argument(m[key]@, app_name),
                Platform::Unsupported => None,
            }
        } else {
            None
        },
        None => None,
    }
}

/// After a planned enable request is applied to the store, the planned query
/// request finds the entry: enabling makes `is_enabled` true.
pub proof fn lemma_enable_then_is_enabled(
    m: Map<Seq<char>, String>,
    platform: Platform,
    app_name: Seq<char>,
    app_path: Seq<char>,
    home: Option<Seq<char>>,
    enable_req: OsRequest,
    query_req: OsRequest,
)
    requires
        spec_enable_plan(platform, app_name, app_path, home, Ok(enable_req)),
        spec_query_plan(platform, app_name, home, query_req),
    ensures
        spec_probe(spec_apply(m, enable_req), query_req),
{
}

/// After a planned disable request is applied to the store, the planned query
/// request no longer finds the entry, whatever the prior state: disabling
/// makes `is_enabled` false and is idempotent.
pub proof fn lemma_disable_then_is_disabled(
    m: Map<Seq<char>, String>,
    platform: Platform,
    app_name: Seq<char>,
    home: Option<Seq<char>>,
    disable_req: OsRequest,
    query_req: OsRequest,
)
    requires
        spec_disable_plan(platform, app_name, home, disable_req),
        spec_query_plan(platform, app_name, home, query_req),
    ensures
        !spec_probe(spec_apply(m, disable_req), query_req),
        spec_apply(spec_apply(m, disable_req), disable_req) == spec_apply(m, disable_req),
{
    match disable_req {
        OsRequest::RegistryDelete { value_name } => {
            assert(m.remove(value_name@).remove(value_name@) =~= m.remove(value_name@));
        },
        OsRequest::RemoveFile { path } => {
            assert(m.remove(path@).remove(path@) =~= m.remove(path@));
        },
        _ => {},
    }
}

/// After a planned enable request is applied to the store, reading the
/// artifact back yields exactly the executable path that was enabled.
pub proof fn lemma_enable_round_trip(
    m: Map<Seq<char>, String>,
    platform: Platform,
    app_name: Seq<char>,
    app_path: Seq<char>,
    home: Option<Seq<char>>,
    enable_req: OsRequest,
)
    requires
        spec_enable_plan(platform, app_name, app_path, home, Ok(enable_req)),
    ensures
        spec_stored_path(spec_apply(m, enable_req), platform, app_name, home) == Some(app_path),
{
    if platform is MacOs {
        lemma_plist_round_trip(app_name, app_path);
    }
}

/// Enabling twice with different paths leaves the entry enabled with the
/// artifact reflecting only the latest path.
pub proof fn lemma_enable_twice_latest_wins(
    m: Map<Seq<char>, String>,
    platform: Platform,
    app_name: Seq<char>,
    first_path: Seq<char>,
    second_path: Seq<char>,
    home: Option<Seq<char>>,
    first_req: OsRequest,
    second_req: OsRequest,
    query_req: OsRequest,
)
    requires
        spec_enable_plan(platform, app_name, first_path, home, Ok(first_req)),
        spec_enable_plan(platform, app_name, second_path, home, Ok(second_req)),
        spec_query_plan(platform, app_name, home, query_req),
    ensures
        spec_probe(spec_apply(spec_apply(m, first_req), second_req), query_req),
        spec_stored_path(
            spec_apply(spec_apply(m, first_req), second_req),
            platform,
            app_name,
            home,
        ) == Some(second_path),
{
    lemma_enable_then_is_enabled(spec_apply(m, first_req), platform, app_name, second_path, home, second_req, query_req);
    lemma_enable_round_trip(spec_apply(m, first_req), platform, app_name, second_path, home, second_req);
}

/// Disabling an identifier that was never enabled leaves the store exactly as
/// it was (and, by the disable planner's contract, still reports success).
pub proof fn lemma_disable_when_absent(
    m: Map<Seq<char>, String>,
    platform: Platform,
    app_name: Seq<char>,
    home: Option<Seq<char>>,
    disable_req: OsRequest,
)
    requires
        spec_disable_plan(platform, app_name, home, disable_req),
        match spec_artifact_key(platform, app_name, home) {
            Some(key) => !m.dom().contains(key),
            None => true,
        },
    ensures
        spec_apply(m, disable_req) == m,
{
    match spec_artifact_key(platform, app_name, home) {
        Some(key) => {
            assert(m.remove(key) =~= m);
        },
        None => {},
    }
}

} // verus!
