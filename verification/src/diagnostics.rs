//! The diagnostics bundle, profile export, and the guards in front of the
//! commands that open or read files for the user.
use vstd::prelude::*;

use crate::cli_output::CommandOutput;
use crate::error::{fails_with, DesktopError};
use crate::json::Json;
use crate::profile::{export_file_stem, file_stem, openable, Backend, MountProfile, Platform, ProfileView};
use crate::scrub::{scrub_output, scrubbed, scrubbed_text};
use crate::text::{ascii_lower, ascii_lowercase, decimal, decimal_string, lossy_text, same_text, text, trim, trim_str, utf8_lossy};

verus! {

/// A command's run as the bundle records it, with secrets scrubbed from
/// both streams.
pub struct DiagnosticsCommandOutput {
    pub status: Option<i32>,
    pub stdout: Json,
    pub stderr: Json,
}

/// What the bundle records of a profile: no access key, no secret, and of
/// the extra arguments only how many there are.
pub struct DiagnosticsProfileSummary {
    pub id: String,
    pub name: String,
    pub kind: String,
    pub mount_path: String,
    pub discovery_url: String,
    pub backend: Backend,
    pub secret_ref: String,
    pub extra_args_count: usize,
    pub auto_remount: bool,
}

pub struct DiagnosticsContent {
    pub created_at_unix: u64,
    pub cli_path: Option<String>,
    pub cli_version: Option<String>,
    pub check: Option<DiagnosticsCommandOutput>,
    pub list: Option<DiagnosticsCommandOutput>,
    pub profiles: Vec<DiagnosticsProfileSummary>,
}

pub struct DiagnosticsBundle {
    pub path: String,
    pub content: DiagnosticsContent,
}

/// A run's record. `stdout_parsed` and `stderr_parsed` are the two streams
/// read as JSON, or why they could not be.
pub fn diagnostics_command_output(
    output: &CommandOutput,
    stdout_parsed: Result<Json, String>,
    stderr_parsed: Result<Json, String>,
) -> (r: DiagnosticsCommandOutput)
    ensures
        r.status == output.code,
        r.stdout@ == match stdout_parsed {
            Ok(v) => scrubbed(v@),
            Err(_) => crate::json::JsonView::Str(scrubbed_text(utf8_lossy(output.stdout@))),
        },
        r.stderr@ == match stderr_parsed {
            Ok(v) => scrubbed(v@),
            Err(_) => crate::json::JsonView::Str(scrubbed_text(utf8_lossy(output.stderr@))),
        },
{
    DiagnosticsCommandOutput {
        status: output.code,
        stdout: scrub_output(stdout_parsed, output.stdout.as_slice()),
        stderr: scrub_output(stderr_parsed, output.stderr.as_slice()),
    }
}

pub open spec fn summary_matches(s: DiagnosticsProfileSummary, p: ProfileView) -> bool {
    &&& s.id@ == p.id
    &&& s.name@ == p.name
    &&& s.kind@ == p.kind
    &&& s.mount_path@ == p.mount_path
    &&& s.discovery_url@ == p.discovery_url
    &&& s.backend == p.backend
    &&& s.secret_ref@ == p.secret_ref
    &&& s.extra_args_count == p.extra_args.len()
    &&& s.auto_remount == p.auto_remount
}

/// The bundle's summary of a profile.
pub fn profile_summary(p: &MountProfile) -> (r: DiagnosticsProfileSummary)
    ensures
        summary_matches(r, p@),
{
    DiagnosticsProfileSummary {
        id: p.id.clone(),
        name: p.name.clone(),
        kind: p.kind.clone(),
        mount_path: p.mount_path.clone(),
        discovery_url: p.discovery_url.clone(),
        backend: p.backend,
        secret_ref: p.secret_ref.clone(),
        extra_args_count: p.extra_args.len(),
        auto_remount: p.auto_remount,
    }
}

/// The summaries of every profile, in order.
pub fn profile_summaries(profiles: &[MountProfile]) -> (r: Vec<DiagnosticsProfileSummary>)
    ensures
        r@.len() == profiles@.len(),
        forall|i: int| 0 <= i < r@.len() ==> summary_matches(#[trigger] r@[i], profiles@[i]@),
{
    let mut out: Vec<DiagnosticsProfileSummary> = Vec::new();
    let mut i: usize = 0;
    while i < profiles.len()
        invariant
            i <= profiles@.len(),
            out@.len() == i,
            forall|k: int| 0 <= k < i ==> summary_matches(#[trigger] out@[k], profiles@[k]@),
        decreases profiles@.len() - i,
    {
        out.push(profile_summary(&profiles[i]));
        i += 1;
    }
    out
}

/// The bundle's file name for a creation time in Unix seconds.
pub fn diagnostics_file_name(created_at_unix: u64) -> (r: String)
    ensures
        r@ == "mountos-desktop-diagnostics-"@ + decimal(created_at_unix as nat) + ".json"@,
{
    let mut r = text("mountos-desktop-diagnostics-");
    r.append(decimal_string(created_at_unix).as_str());
    r.append(".json");
    r
}

/// `std::path::Path::starts_with`: `base` is a prefix of `path` made of
/// whole components.
pub uninterp spec fn path_prefix(path: Seq<char>, base: Seq<char>) -> bool;

/// `Path::new(path).starts_with(base)`, which compares whole components.
#[verifier::external_body]
fn path_starts_with(path: &str, base: &str) -> (r: bool)
    ensures
        r == path_prefix(path@, base@),
{
    std::path::Path::new(path).starts_with(base)
}

/// A diagnostics bundle is opened only from inside the diagnostics
/// directory; both paths are taken after filesystem resolution.
pub fn check_diagnostics_target(dir_resolved: &str, target_resolved: &str) -> (r: Result<(), DesktopError>)
    ensures
        path_prefix(target_resolved@, dir_resolved@) ==> r is Ok,
        !path_prefix(target_resolved@, dir_resolved@) ==> fails_with(
            r,
            "refusing to open a path outside the diagnostics directory"@,
        ),
{
    if path_starts_with(target_resolved, dir_resolved) {
        Ok(())
    } else {
        Err(DesktopError::Message(text("refusing to open a path outside the diagnostics directory")))
    }
}

/// What the client is about to do with a mount target.
pub enum TargetUse {
    Open,
    Dashboard,
    ReadConfig,
}

pub open spec fn inactive_message(u: TargetUse) -> Seq<char> {
    match u {
        TargetUse::Open => "refusing to open a path that is not an active mount target"@,
        TargetUse::Dashboard => "refusing to launch a dashboard for a path that is not an active mount target"@,
        TargetUse::ReadConfig => "refusing to read config for a path that is not an active mount target"@,
    }
}

/// A target the client opens, reads or runs a dashboard for must be an
/// absolute path.
pub fn require_openable_target(platform: Platform, target: &str) -> (r: Result<(), DesktopError>)
    ensures
        openable(platform, target@) ==> r is Ok,
        !openable(platform, target@) ==> fails_with(r, "mount target is not an absolute filesystem path"@),
{
    if crate::profile::is_openable_target(platform, target) {
        Ok(())
    } else {
        Err(DesktopError::Message(text("mount target is not an absolute filesystem path")))
    }
}

/// The refusal for a target that is not in the mount table.
pub fn inactive_target_refusal(purpose: TargetUse) -> (r: DesktopError)
    ensures
        r matches DesktopError::Message(m) && m@ == inactive_message(purpose),
{
    DesktopError::Message(
        text(
            match purpose {
                TargetUse::Open => "refusing to open a path that is not an active mount target",
                TargetUse::Dashboard => "refusing to launch a dashboard for a path that is not an active mount target",
                TargetUse::ReadConfig => "refusing to read config for a path that is not an active mount target",
            },
        ),
    )
}

/// The file of the third-party license list of a kind.
pub fn license_file_name(kind: &str) -> (r: Result<String, DesktopError>)
    ensures
        kind@ == "rust"@ ==> (r matches Ok(f) && f@ == "rust.json"@),
        kind@ == "js"@ ==> (r matches Ok(f) && f@ == "js.json"@),
        kind@ != "rust"@ && kind@ != "js"@ ==> fails_with(r, "unknown license kind: "@ + kind@),
{
    proof {
        reveal_strlit("rust");
        reveal_strlit("js");
        assert("js"@.len() != "rust"@.len());
        assert("js"@ != "rust"@);
    }
    if same_text(kind, "rust") {
        Ok(text("rust.json"))
    } else if same_text(kind, "js") {
        Ok(text("js.json"))
    } else {
        let mut m = text("unknown license kind: ");
        m.append(kind);
        Err(DesktopError::Message(m))
    }
}

/// The volume kind a mount's `.mountOS/.volume-type` names: its text,
/// trimmed and in ASCII lower case, when not blank.
pub fn detected_volume_kind(bytes: &[u8]) -> (r: Option<String>)
    ensures
        ({
            let k = ascii_lower(trim(utf8_lossy(bytes@)));
            if k.len() == 0 {
                r is None
            } else {
                r matches Some(s) && s@ == k
            }
        }),
{
    let t = trim_str(lossy_text(bytes).as_str());
    let k = ascii_lowercase(t.as_str());
    if k.as_str().is_empty() {
        None
    } else {
        Some(k)
    }
}

/// The profile with a detected volume kind recorded, unless one already is.
pub fn with_volume_kind(profile: &mut MountProfile, kind: String)
    ensures
        old(profile).volume_kind is Some ==> final(profile)@ == old(profile)@,
        old(profile).volume_kind is None ==> final(profile)@ == (ProfileView {
            volume_kind: Some(kind@),
            ..old(profile)@
        }),
{
    if profile.volume_kind.is_none() {
        profile.volume_kind = Some(kind);
    }
}

/// An exported profile never carries its secret: it asks for one on mount.
pub fn exported_profile(profile: &MountProfile) -> (r: MountProfile)
    ensures
        r@ == (ProfileView { secret_ref: "prompt"@, ..profile@ }),
{
    let mut r = profile.duplicate();
    r.secret_ref = text("prompt");
    r
}

/// The export's file name: the profile name made file-safe (its id when
/// nothing is left), then `.mosprofile`.
pub fn export_file_name(profile: &MountProfile) -> (r: String)
    ensures
        r@ == file_stem(profile.name@, profile.id@) + ".mosprofile"@,
{
    let mut r = export_file_stem(profile.name.as_str(), profile.id.as_str());
    r.append(".mosprofile");
    r
}

} // verus!
