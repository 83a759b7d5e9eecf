//! Composition and read-back of the macOS launch-agent property list.
//!
//! Enabling autostart on macOS writes an XML property list to
//! `<home>/Library/LaunchAgents/com.<app_name>.plist` whose dictionary holds
//! `Label = com.<app_name>`, `ProgramArguments = [app_path]` and
//! `RunAtLoad = true`.  The document is the fixed text below with the
//! application name and executable path spliced in, so its exact contents are
//! stated as sequence concatenations, and the executable path can be read
//! back out of a well-formed document.

use vstd::prelude::*;
use vstd::string::StrSliceExecFns;
use vstd::string::StringExecFns;

verus! {

/// Everything of the document before the application name inside the `Label`
/// string element.
pub open spec fn plist_prefix() -> Seq<char> {
    "<?xml version=\"1.0\" encoding=\"UTF-8\"?>\n<!DOCTYPE plist PUBLIC \"-//Apple//DTD PLIST 1.0//EN\" \"http://www.apple.com/DTDs/PropertyList-1.0.dtd\">\n<plist version=\"1.0\">\n<dict>\n    <key>Label</key>\n    <string>com."@
}

/// Everything of the document between the application name and the executable
/// path inside the `ProgramArguments` array.
pub open spec fn plist_middle() -> Seq<char> {
    "</string>\n    <key>ProgramArguments</key>\n    <array>\n        <string>"@
}

/// Everything of the document after the executable path.
pub open spec fn plist_suffix() -> Seq<char> {
    "</string>\n    </array>\n    <key>RunAtLoad</key>\n    <true/>\n</dict>\n</plist>"@
}

/// The full launch-agent document for the given application name and
/// executable path.
pub open spec fn spec_plist_content(app_name: Seq<char>, app_path: Seq<char>) -> Seq<char> {
    plist_prefix() + app_name + plist_middle() + app_path + plist_suffix()
}

/// The location of the launch-agent file for the given home directory and
/// application name.
pub open spec fn spec_plist_path(home: Seq<char>, app_name: Seq<char>) -> Seq<char> {
    home + "/Library/LaunchAgents/com."@ + app_name + ".plist"@
}

/// The executable path stored in a launch-agent document for `app_name`, or
/// `None` if the document is not of the shape [`spec_plist_content`] writes.
pub open spec fn spec_plist_program_argument(content: Seq<char>, app_name: Seq<char>) -> Option<
    Seq<char>,
> {
    let head = plist_prefix() + app_name + plist_middle();
    let tail = plist_suffix();
    if content.len() >= head.len() + tail.len() && content.subrange(0, head.len() as int) == head
        && content.subrange(content.len() - tail.len(), content.len() as int) == tail {
        Some(content.subrange(head.len() as int, content.len() - tail.len()))
    } else {
        None
    }
}

/// Reading the executable path back out of a freshly composed document yields
/// exactly the path that was written, for every application name and path.
pub proof fn lemma_plist_round_trip(app_name: Seq<char>, app_path: Seq<char>)
    ensures
        spec_plist_program_argument(spec_plist_content(app_name, app_path), app_name) == Some(
            app_path,
        ),
{
    let head = plist_prefix() + app_name + plist_middle();
    let tail = plist_suffix();
    let content = spec_plist_content(app_name, app_path);
    assert(content =~= head + app_path + tail);
    assert(content.subrange(0, head.len() as int) =~= head);
    assert(content.subrange(content.len() - tail.len(), content.len() as int) =~= tail);
    assert(content.subrange(head.len() as int, content.len() - tail.len()) =~= app_path);
}

/// Composes the launch-agent document for the given application name and
/// executable path.
pub fn plist_content(app_name: &str, app_path: &str) -> (r: String)
    ensures
        r@ == spec_plist_content(app_name@, app_path@),
{
    let mut r = String::from_str(
        "<?xml version=\"1.0\" encoding=\"UTF-8\"?>\n<!DOCTYPE plist PUBLIC \"-//Apple//DTD PLIST 1.0//EN\" \"http://www.apple.com/DTDs/PropertyList-1.0.dtd\">\n<plist version=\"1.0\">\n<dict>\n    <key>Label</key>\n    <string>com.",
    );
    r.append(app_name);
    r.append("</string>\n    <key>ProgramArguments</key>\n    <array>\n        <string>");
    r.append(app_path);
    r.append(
        "</string>\n    </array>\n    <key>RunAtLoad</key>\n    <true/>\n</dict>\n</plist>",
    );
    r
}

/// Composes the location of the launch-agent file under the given home
/// directory.
pub fn plist_path(home: &str, app_name: &str) -> (r: String)
    ensures
        r@ == spec_plist_path(home@, app_name@),
{
    let mut r = String::from_str(home);
    r.append("/Library/LaunchAgents/com.");
    r.append(app_name);
    r.append(".plist");
    r
}

/// Reads the executable path back out of a launch-agent document, checking
/// that the document has exactly the shape [`plist_content`] writes for
/// `app_name`.
pub fn plist_program_argument(content: &str, app_name: &str) -> (r: Option<String>)
    ensures
        match r {
            Some(p) => spec_plist_program_argument(content@, app_name@) == Some(p@),
            None => spec_plist_program_argument(content@, app_name@) is None,
        },
{
    let mut head = String::from_str(
        "<?xml version=\"1.0\" encoding=\"UTF-8\"?>\n<!DOCTYPE plist PUBLIC \"-//Apple//DTD PLIST 1.0//EN\" \"http://www.apple.com/DTDs/PropertyList-1.0.dtd\">\n<plist version=\"1.0\">\n<dict>\n    <key>Label</key>\n    <string>com.",
    );
    head.append(app_name);
    head.append("</string>\n    <key>ProgramArguments</key>\n    <array>\n        <string>");
    let tail: &str =
        "</string>\n    </array>\n    <key>RunAtLoad</key>\n    <true/>\n</dict>\n</plist>";
    let head_len = head.as_str().unicode_len();
    let tail_len = tail.unicode_len();
    let content_len = content.unicode_len();
    if content_len < tail_len {
        return None;
    }
    if content_len - tail_len < head_len {
        return None;
    }
    let prefix = content.substring_char(0, head_len);
    if !(String::from_str(prefix) == head) {
        return None;
    }
    let suffix = content.substring_char(content_len - tail_len, content_len);
    if !(String::from_str(suffix) == String::from_str(tail)) {
        return None;
    }
    Some(String::from_str(content.substring_char(head_len, content_len - tail_len)))
}

} // verus!
