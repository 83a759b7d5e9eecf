//! Composition of the Windows registry tool's command lines.
//!
//! Enabling autostart on Windows writes a string value named after the
//! application under the current user's run key; disabling deletes that
//! value; querying asks whether it exists.  Each interaction is one
//! invocation of the `reg` command-line tool, and the exact argument list of
//! each invocation is stated here.

use vstd::prelude::*;
use vstd::string::StringExecFns;

verus! {

/// The registry key enumerating the current user's startup programs.
pub open spec fn spec_run_key() -> Seq<char> {
    "HKCU\\Software\\Microsoft\\Windows\\CurrentVersion\\Run"@
}

/// Executable counterpart of [`spec_run_key`].
pub fn run_key() -> (r: &'static str)
    ensures
        r@ == spec_run_key(),
{
    "HKCU\\Software\\Microsoft\\Windows\\CurrentVersion\\Run"
}

/// Arguments adding (or force-overwriting) a string value `value_name` with
/// data `data` under the run key.
pub fn registry_add_args(value_name: &str, data: &str) -> (r: Vec<String>)
    ensures
        r@.len() == 9,
        r@[0]@ == "add"@,
        r@[1]@ == spec_run_key(),
        r@[2]@ == "/v"@,
        r@[3]@ == value_name@,
        r@[4]@ == "/t"@,
        r@[5]@ == "REG_SZ"@,
        r@[6]@ == "/d"@,
        r@[7]@ == data@,
        r@[8]@ == "/f"@,
{
    let mut r: Vec<String> = Vec::new();
    r.push(String::from_str("add"));
    r.push(String::from_str(run_key()));
    r.push(String::from_str("/v"));
    r.push(String::from_str(value_name));
    r.push(String::from_str("/t"));
    r.push(String::from_str("REG_SZ"));
    r.push(String::from_str("/d"));
    r.push(String::from_str(data));
    r.push(String::from_str("/f"));
    r
}

/// Arguments force-deleting the string value `value_name` from the run key.
pub fn registry_delete_args(value_name: &str) -> (r: Vec<String>)
    ensures
        r@.len() == 5,
        r@[0]@ == "delete"@,
        r@[1]@ == spec_run_key(),
        r@[2]@ == "/v"@,
        r@[3]@ == value_name@,
        r@[4]@ == "/f"@,
{
    let mut r: Vec<String> = Vec::new();
    r.push(String::from_str("delete"));
    r.push(String::from_str(run_key()));
    r.push(String::from_str("/v"));
    r.push(String::from_str(value_name));
    r.push(String::from_str("/f"));
    r
}

/// Arguments querying whether the string value `value_name` exists under the
/// run key.
pub fn registry_query_args(value_name: &str) -> (r: Vec<String>)
    ensures
        r@.len() == 4,
        r@[0]@ == "query"@,
        r@[1]@ == spec_run_key(),
        r@[2]@ == "/v"@,
        r@[3]@ == value_name@,
{
    let mut r: Vec<String> = Vec::new();
    r.push(String::from_str("query"));
    r.push(String::from_str(run_key()));
    r.push(String::from_str("/v"));
    r.push(String::from_str(value_name));
    r
}

} // verus!
