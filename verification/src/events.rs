use vstd::prelude::*;

use crate::config::Meta;

verus! {

/// One structured observability record: the output layer decides how to
/// serialize and where to send it.
#[derive(Debug)]
pub struct Event {
    pub id: String,
    pub version: String,
    pub event: String,
    pub data: String,
}

/// Builds a record for this package, under the given event name.
fn event(id: &str, version: &str, name: &str, data: &str) -> (r: Event)
    ensures
        r.id@ == id@,
        r.version@ == version@,
        r.event@ == name@,
        r.data@ == data@,
{
    Event {
        id: id.to_owned(),
        version: version.to_owned(),
        event: name.to_owned(),
        data: data.to_owned(),
    }
}

/// Whether the manifest's signature was checked; only when events are on.
pub fn info_verify(meta: &Meta, verified: bool) -> (r: Option<Event>)
    ensures
        meta.config.out ==> (r matches Some(e) && e.id@ == meta.id@ && e.version@ == meta.version@
            && e.event@ == "info_verified"@ && e.data@ == (if verified {
            "true"@
        } else {
            "false"@
        })),
        !meta.config.out ==> r is None,
{
    if meta.config.out {
        Some(
            event(
                meta.id.as_str(),
                meta.version.as_str(),
                "info_verified",
                if verified {
                    "true"
                } else {
                    "false"
                },
            ),
        )
    } else {
        None
    }
}

/// Whether the hash manifest's signature was checked; only when events are
/// on.
pub fn hashes_verify(meta: &Meta, verified: bool) -> (r: Option<Event>)
    ensures
        meta.config.out ==> (r matches Some(e) && e.id@ == meta.id@ && e.version@ == meta.version@
            && e.event@ == "hashes_verified"@ && e.data@ == (if verified {
            "true"@
        } else {
            "false"@
        })),
        !meta.config.out ==> r is None,
{
    if meta.config.out {
        Some(
            event(
                meta.id.as_str(),
                meta.version.as_str(),
                "hashes_verified",
                if verified {
                    "true"
                } else {
                    "false"
                },
            ),
        )
    } else {
        None
    }
}

/// The target being installed for; only when events are on.
pub fn target(meta: &Meta) -> (r: Option<Event>)
    ensures
        meta.config.out ==> (r matches Some(e) && e.id@ == meta.id@ && e.version@ == meta.version@
            && e.event@ == "target"@ && e.data@ == meta.config.target@),
        !meta.config.out ==> r is None,
{
    if meta.config.out {
        Some(
            event(meta.id.as_str(), meta.version.as_str(), "target", meta.config.target.as_str()),
        )
    } else {
        None
    }
}

/// One binary written, with the path it landed at; only when events are on.
pub fn binary_installed(meta: &Meta, path: &str) -> (r: Option<Event>)
    ensures
        meta.config.out ==> (r matches Some(e) && e.id@ == meta.id@ && e.version@ == meta.version@
            && e.event@ == "bin_installed"@ && e.data@ == path@),
        !meta.config.out ==> r is None,
{
    if meta.config.out {
        Some(event(meta.id.as_str(), meta.version.as_str(), "bin_installed", path))
    } else {
        None
    }
}

/// The whole package installed; only when events are on.
pub fn installed(meta: &Meta) -> (r: Option<Event>)
    ensures
        meta.config.out ==> (r matches Some(e) && e.id@ == meta.id@ && e.version@ == meta.version@
            && e.event@ == "installed"@ && e.data@ == meta.id@ + "@"@ + meta.version@),
        !meta.config.out ==> r is None,
{
    if meta.config.out {
        let spec = crate::strutil::concat_at(meta.id.as_str(), meta.version.as_str());
        Some(event(meta.id.as_str(), meta.version.as_str(), "installed", spec.as_str()))
    } else {
        None
    }
}

/// Update mode found every binary already current; only when events are
/// on.
pub fn no_update(meta: &Meta) -> (r: Option<Event>)
    ensures
        meta.config.out ==> (r matches Some(e) && e.id@ == meta.id@ && e.version@ == meta.version@
            && e.event@ == "no_update"@ && e.data@ == meta.id@ + "@"@ + meta.version@),
        !meta.config.out ==> r is None,
{
    if meta.config.out {
        let spec = crate::strutil::concat_at(meta.id.as_str(), meta.version.as_str());
        Some(event(meta.id.as_str(), meta.version.as_str(), "no_update", spec.as_str()))
    } else {
        None
    }
}

/// A report file written to the report directory; only when events are on.
pub fn wrote_report(meta: &Meta, report_type: &str) -> (r: Option<Event>)
    ensures
        meta.config.out ==> (r matches Some(e) && e.id@ == meta.id@ && e.version@ == meta.version@
            && e.event@ == "wrote_report"@ && e.data@ == report_type@),
        !meta.config.out ==> r is None,
{
    if meta.config.out {
        Some(event(meta.id.as_str(), meta.version.as_str(), "wrote_report", report_type))
    } else {
        None
    }
}

/// The package's license text, always emitted when asked for.
pub fn print_license(meta: &Meta, text: &str) -> (r: Event)
    ensures
        r.id@ == meta.id@ && r.version@ == meta.version@ && r.event@ == "print_license"@
            && r.data@ == text@,
{
    event(meta.id.as_str(), meta.version.as_str(), "print_license", text)
}

/// The package's manifest text, always emitted when asked for.
pub fn print_info_json(meta: &Meta, text: &str) -> (r: Event)
    ensures
        r.id@ == meta.id@ && r.version@ == meta.version@ && r.event@ == "print_info_json"@
            && r.data@ == text@,
{
    event(meta.id.as_str(), meta.version.as_str(), "print_info_json", text)
}

/// The package's dependency report, always emitted when asked for.
pub fn print_deps(meta: &Meta, text: &str) -> (r: Event)
    ensures
        r.id@ == meta.id@ && r.version@ == meta.version@ && r.event@ == "print_deps"@ && r.data@
            == text@,
{
    event(meta.id.as_str(), meta.version.as_str(), "print_deps", text)
}

/// The package's audit report, always emitted when asked for.
pub fn print_audit(meta: &Meta, text: &str) -> (r: Event)
    ensures
        r.id@ == meta.id@ && r.version@ == meta.version@ && r.event@ == "print_audit"@ && r.data@
            == text@,
{
    event(meta.id.as_str(), meta.version.as_str(), "print_audit", text)
}

/// The latest version an index offers for a package.
pub fn get_latest(id: &str, version: &str) -> (r: Event)
    ensures
        r.id@ == id@ && r.version@ == version@ && r.event@ == "latest_version"@ && r.data@
            == version@,
{
    event(id, version, "latest_version", version)
}

} // verus!
