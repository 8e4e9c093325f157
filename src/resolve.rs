use vstd::prelude::*;
use crate::doc::{Doc, Val, merge_into, merged};
use crate::report::{Violation, report, report_line};

verus! {

/// Why a configuration could not be resolved.
#[derive(Debug, PartialEq)]
pub enum ConfigError {
    /// A configuration file could not be opened.
    Io { path: String },
    /// A document did not parse; `source` names the file or the caller's
    /// override.
    Parse { source: String },
    /// The base configuration breaks the schema: one report line for each
    /// violation. This one is fatal for the process.
    Invalid { report: Vec<String> },
    /// The merged document does not decode into the typed configuration.
    Decode { reason: String },
}

/// The platform whose override file is consulted.
#[derive(Debug, Clone, Copy, PartialEq, Eq, Structural)]
pub enum Platform {
    MacOs,
    Windows,
    Linux,
}

/// The name of the base configuration file.
pub const CONFIG_FILENAME: &'static str = "tauri.conf.json";

/// The name of the override file of each platform.
pub open spec fn platform_filename(platform: Platform) -> Seq<char> {
    match platform {
        Platform::MacOs => "tauri.macos.conf.json"@,
        Platform::Windows => "tauri.windows.conf.json"@,
        Platform::Linux => "tauri.linux.conf.json"@,
    }
}

/// The name of the override file of `platform`.
pub fn platform_config_filename(platform: Platform) -> (r: &'static str)
    ensures
        r@ == platform_filename(platform),
{
    match platform {
        Platform::MacOs => "tauri.macos.conf.json",
        Platform::Windows => "tauri.windows.conf.json",
        Platform::Linux => "tauri.linux.conf.json",
    }
}

/// `doc` with `overlay` merged into it, where there is one.
pub open spec fn overlay_opt(doc: Val, overlay: Option<Val>) -> Val {
    match overlay {
        Some(o) => merged(doc, o),
        None => doc,
    }
}

/// The view of an optional document.
pub open spec fn opt_view(d: Option<&Doc>) -> Option<Val> {
    match d {
        Some(x) => Some(x@),
        None => None,
    }
}

/// The resolved document: the caller's override merged into the base, then
/// the platform's override merged into that.
pub open spec fn resolved(base: Val, caller_override: Option<Val>, platform_override: Option<Val>) -> Val {
    overlay_opt(overlay_opt(base, caller_override), platform_override)
}

/// Resolves the configuration document from the base document, the schema
/// violations found in it, and the overrides. Any violation makes the result
/// `Invalid`, reporting every one of them, and nothing is merged; otherwise
/// the caller's override and then the platform's override are merged in.
pub fn resolve_document(
    base: Doc,
    violations: &Vec<Violation>,
    caller_override: Option<&Doc>,
    platform_override: Option<&Doc>,
) -> (r: Result<Doc, ConfigError>)
    ensures
        r is Ok <==> violations@.len() == 0,
        r matches Ok(d) ==> d@ == resolved(base@, opt_view(caller_override), opt_view(platform_override)),
        r matches Err(e) ==> e matches ConfigError::Invalid { report } && report@.len()
            == violations@.len() && forall|i: int|
            0 <= i < report@.len() ==> (#[trigger] report@[i])@ == report_line(violations@[i]),
{
    if violations.len() > 0 {
        return Err(ConfigError::Invalid { report: report(violations) });
    }
    let mut doc = base;
    match caller_override {
        Some(o) => merge_into(&mut doc, o),
        None => {},
    }
    match platform_override {
        Some(o) => merge_into(&mut doc, o),
        None => {},
    }
    Ok(doc)
}

} // verus!
