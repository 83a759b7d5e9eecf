//! Planning and interpretation of autostart operations.
//!
//! Each operation is planned as one [`OsRequest`]: the single
//! operating-system interaction (a registry-tool invocation or a filesystem
//! write, delete or existence check) the operation performs.  An unverified
//! shell executes the request and reports back whether the interaction
//! succeeded, or whether the artifact exists; the interpreters here turn that
//! outcome into the operation's result.
//!
//! For reasoning and for tests, the operating-system store (the run key's
//! values, or the launch-agents directory) is modelled as a map from artifact
//! key (value name, or file path) to artifact payload (value data, or file
//! contents); [`spec_apply`] and [`spec_probe`] say what each request does to
//! that map, and [`apply_request`] and [`probe_request`] run the model.

use vstd::hash_map::StringHashMap;
use vstd::prelude::*;

use crate::error::AutostartError;
use crate::platform::Platform;
use crate::plist::plist_content;
use crate::plist::plist_path;
use crate::plist::spec_plist_content;
use crate::plist::spec_plist_path;

verus! {

/// One operating-system interaction: everything an operation does at its
/// edge, with the value names, paths and contents pinned down by the
/// planners' contracts.
#[derive(Debug)]
pub enum OsRequest {
    /// Add (force-overwriting) a string value under the run key.
    RegistryAdd { value_name: String, data: String },
    /// Force-delete a string value from the run key.
    RegistryDelete { value_name: String },
    /// Ask whether a string value exists under the run key.
    RegistryQuery { value_name: String },
    /// Create or overwrite a file with the given contents.
    WriteFile { path: String, content: String },
    /// Delete a file, tolerating its absence.
    RemoveFile { path: String },
    /// Ask whether a file exists.
    CheckFile { path: String },
    /// Touch nothing and observe nothing.
    NoOp,
}

/// The view of an optional home directory.
pub open spec fn home_view(home: Option<&str>) -> Option<Seq<char>> {
    match home {
        Some(h) => Some(h@),
        None => None,
    }
}

/// What the enable planner returns: on Windows a registry add of the
/// executable path under the application's value name; on macOS, with a home
/// directory, a write of the launch-agent document, and without one an
/// environment error.
pub open spec fn spec_enable_plan(
    platform: Platform,
    app_name: Seq<char>,
    app_path: Seq<char>,
    home: Option<Seq<char>>,
    r: Result<OsRequest, AutostartError>,
) -> bool {
    match platform {
        Platform::Windows => r matches Ok(OsRequest::RegistryAdd { value_name, data })
            && value_name@ == app_name && data@ == app_path,
        Platform::MacOs => match home {
            Some(h) => r matches Ok(OsRequest::WriteFile { path, content }) && path@
                == spec_plist_path(h, app_name) && content@ == spec_plist_content(
                app_name,
                app_path,
            ),
            None => r matches Err(e) && e is EnvironmentError,
        },
        Platform::Unsupported => false,
    }
}

/// What the disable planner returns: delete the artifact the enable planner
/// would create; where no artifact location can even be named (an unsupported
/// platform, or macOS without a home directory) touch nothing, so that the
/// best-effort cleanup still succeeds.
pub open spec fn spec_disable_plan(
    platform: Platform,
    app_name: Seq<char>,
    home: Option<Seq<char>>,
    r: OsRequest,
) -> bool {
    match platform {
        Platform::Windows => r matches OsRequest::RegistryDelete { value_name } && value_name@
            == app_name,
        Platform::MacOs => match home {
            Some(h) => r matches OsRequest::RemoveFile { path } && path@ == spec_plist_path(
                h,
                app_name,
            ),
            None => r is NoOp,
        },
        Platform::Unsupported => r is NoOp,
    }
}

/// What the query planner returns: probe for exactly the artifact the enable
/// planner would create; where none can be named, observe nothing (and the
/// probe of nothing reports the entry absent).
pub open spec fn spec_query_plan(
    platform: Platform,
    app_name: Seq<char>,
    home: Option<Seq<char>>,
    r: OsRequest,
) -> bool {
    match platform {
        Platform::Windows => r matches OsRequest::RegistryQuery { value_name } && value_name@
            == app_name,
        Platform::MacOs => match home {
            Some(h) => r matches OsRequest::CheckFile { path } && path@ == spec_plist_path(
                h,
                app_name,
            ),
            None => r is NoOp,
        },
        Platform::Unsupported => r is NoOp,
    }
}

/// Plans the registration of `app_path` to run at login under the identifier
/// `app_name`.
///
/// The caller must have checked platform capability: unsupported platforms
/// have no enable operation.  `home` is the user's home directory where the
/// caller could resolve one; only macOS consults it.
pub fn enable_autostart(
    platform: Platform,
    app_name: &str,
    app_path: &str,
    home: Option<&str>,
) -> (r: Result<OsRequest, AutostartError>)
    requires
        platform.spec_supported(),
    ensures
        spec_enable_plan(platform, app_name@, app_path@, home_view(home), r),
{
    match platform {
        Platform::Windows => Ok(
            OsRequest::RegistryAdd {
                value_name: app_name.to_owned(),
                data: app_path.to_owned(),
            },
        ),
        Platform::MacOs => match home {
            Some(h) => Ok(
                OsRequest::WriteFile {
                    path: plist_path(h, app_name),
                    content: plist_content(app_name, app_path),
                },
            ),
            None => Err(AutostartError::EnvironmentError),
        },
        Platform::Unsupported => Err(AutostartError::EnvironmentError),
    }
}

/// Plans the removal of the login registration of `app_name`.  Disabling is
/// best-effort cleanup and never fails to plan.
pub fn disable_autostart(platform: Platform, app_name: &str, home: Option<&str>) -> (r: OsRequest)
    ensures
        spec_disable_plan(platform, app_name@, home_view(home), r),
{
    match platform {
        Platform::Windows => OsRequest::RegistryDelete { value_name: app_name.to_owned() },
        Platform::MacOs => match home {
            Some(h) => OsRequest::RemoveFile { path: plist_path(h, app_name) },
            None => OsRequest::NoOp,
        },
        Platform::Unsupported => OsRequest::NoOp,
    }
}

/// Plans the query for the login registration of `app_name`.
pub fn is_enabled_request(platform: Platform, app_name: &str, home: Option<&str>) -> (r: OsRequest)
    ensures
        spec_query_plan(platform, app_name@, home_view(home), r),
{
    match platform {
        Platform::Windows => OsRequest::RegistryQuery { value_name: app_name.to_owned() },
        Platform::MacOs => match home {
            Some(h) => OsRequest::CheckFile { path: plist_path(h, app_name) },
            None => OsRequest::NoOp,
        },
        Platform::Unsupported => OsRequest::NoOp,
    }
}

/// Plans one settings-save action: registration when `enabled`, best-effort
/// removal otherwise.  Disabling always plans successfully, whatever the
/// platform and whether or not a home directory could be resolved.
pub fn set_autostart(
    platform: Platform,
    enabled: bool,
    app_name: &str,
    app_path: &str,
    home: Option<&str>,
) -> (r: Result<OsRequest, AutostartError>)
    requires
        enabled ==> platform.spec_supported(),
    ensures
        enabled ==> spec_enable_plan(platform, app_name@, app_path@, home_view(home), r),
        !enabled ==> (r matches Ok(req) && spec_disable_plan(
            platform,
            app_name@,
            home_view(home),
            req,
        )),
{
    if enabled {
        enable_autostart(platform, app_name, app_path, home)
    } else {
        Ok(disable_autostart(platform, app_name, home))
    }
}

/// Turns the outcome of an executed enable request into the operation's
/// result: success exactly when the interaction succeeded, and the platform's
/// error kind otherwise (a registry failure on Windows, a write failure on
/// macOS).
pub fn enable_outcome(platform: Platform, os_ok: bool) -> (r: Result<(), AutostartError>)
    requires
        platform.spec_supported(),
    ensures
        r is Ok <==> os_ok,
        platform is Windows && !os_ok ==> (r matches Err(e) && e is RegistrationError),
        platform is MacOs && !os_ok ==> (r matches Err(e) && e is IOError),
{
    if os_ok {
        Ok(())
    } else {
        match platform {
            Platform::Windows => Err(AutostartError::RegistrationError),
            _ => Err(AutostartError::IOError),
        }
    }
}

/// Turns the probe outcome of an executed query request into the operation's
/// result: the artifact's presence, except that unsupported platforms always
/// report the entry disabled; querying never errors.
pub fn is_autostart_enabled(platform: Platform, artifact_present: bool) -> (r: Result<
    bool,
    AutostartError,
>)
    ensures
        r matches Ok(b) && b == (platform.spec_supported() && artifact_present),
{
    match platform {
        Platform::Unsupported => Ok(false),
        _ => Ok(artifact_present),
    }
}

/// What executing a request does to the operating-system store: adds and
/// writes create or overwrite the artifact, deletes remove it whether or not
/// it exists, and observations change nothing.
pub open spec fn spec_apply(m: Map<Seq<char>, String>, req: OsRequest) -> Map<Seq<char>, String> {
    match req {
        OsRequest::RegistryAdd { value_name, data } => m.insert(value_name@, data),
        OsRequest::WriteFile { path, content } => m.insert(path@, content),
        OsRequest::RegistryDelete { value_name } => m.remove(value_name@),
        OsRequest::RemoveFile { path } => m.remove(path@),
        OsRequest::RegistryQuery { .. } => m,
        OsRequest::CheckFile { .. } => m,
        OsRequest::NoOp => m,
    }
}

/// What executing a request observes of the operating-system store: queries
/// and existence checks report whether their artifact is present; every other
/// request observes nothing.
pub open spec fn spec_probe(m: Map<Seq<char>, String>, req: OsRequest) -> bool {
    match req {
        OsRequest::RegistryQuery { value_name } => m.dom().contains(value_name@),
        OsRequest::CheckFile { path } => m.dom().contains(path@),
        _ => false,
    }
}

/// Runs a request against the in-memory model of the operating-system store.
pub fn apply_request(store: &mut StringHashMap<String>, req: OsRequest)
    ensures
        final (store)@ == spec_apply(old(store)@, req),
{
    match req {
        OsRequest::RegistryAdd { value_name, data } => store.insert(value_name, data),
        OsRequest::WriteFile { path, content } => store.insert(path, content),
        OsRequest::RegistryDelete { value_name } => store.remove(value_name.as_str()),
        OsRequest::RemoveFile { path } => store.remove(path.as_str()),
        OsRequest::RegistryQuery { .. } => (),
        OsRequest::CheckFile { .. } => (),
        OsRequest::NoOp => (),
    }
}

/// Probes the in-memory model of the operating-system store.
pub fn probe_request(store: &StringHashMap<String>, req: &OsRequest) -> (r: bool)
    ensures
        r == spec_probe(store@, *req),
{
    match req {
        OsRequest::RegistryQuery { value_name } => store.contains_key(value_name.as_str()),
        OsRequest::CheckFile { path } => store.contains_key(path.as_str()),
        _ => false,
    }
}

/// Reads an artifact's payload back out of the in-memory model.
pub fn stored_payload(store: &StringHashMap<String>, key: &str) -> (r: Option<String>)
    ensures
        match r {
            Some(p) => store@.dom().contains(key@) && p == store@[key@],
            None => !store@.dom().contains(key@),
        },
{
    match store.get(key) {
        Some(p) => Some(p.clone()),
        None => None,
    }
}

} // verus!
