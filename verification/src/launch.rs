//! Launching mounts, views and gateways: the checks a launch passes before
//! anything runs, and what the client decides as the launcher process
//! reports back.
use vstd::prelude::*;

use crate::cli_output::{
    daemon_failure_text, daemon_launch_failure, foreground_view_failure, gateway_launch_failure,
    indeterminate, launch_detail, launch_detail_text, ready_result, windows_ready_failure, MountResult,
};
use crate::error::{fails_with, DesktopError};
use crate::extra_args::{refused, reject_managed_extra_args};
use crate::json::{flag_at, str_at, Json, JsonView};
use crate::profile::{
    backend_allowed, mount_path_problem, platform_for_os, validate_backend_for_platform,
    validate_mount_path_for_backend, Backend, MountProfile, Platform, ProfileView,
};
use crate::text::{ascii_lower, ascii_lowercase, join, same_text, text, views};

verus! {

/// The items of `mountos check --json`: the array's elements, or the one
/// document when it is not an array.
pub open spec fn check_items(v: JsonView) -> Seq<JsonView> {
    match v {
        JsonView::Array(items) => items,
        _ => seq![v],
    }
}

/// An item reports `feature` (compared ignoring ASCII case) as supported or
/// capable.
pub open spec fn item_usable(item: JsonView, feature: Seq<char>) -> bool {
    &&& str_at(item, "feature"@) matches Some(name) && ascii_lower(name) == ascii_lower(feature)
    &&& flag_at(item, "supported"@) || flag_at(item, "capable"@)
}

pub open spec fn feature_usable(check: JsonView, feature: Seq<char>) -> bool {
    exists|i: int| 0 <= i < check_items(check).len() && item_usable(#[trigger] check_items(check)[i], feature)
}

fn item_usable_exec(item: &Json, feature: &str) -> (r: bool)
    ensures
        r == item_usable(item@, feature@),
{
    match item.str_at("feature") {
        Some(name) => {
            let a = ascii_lowercase(name);
            let b = ascii_lowercase(feature);
            same_text(a.as_str(), b.as_str()) && (item.flag_at("supported") || item.flag_at("capable"))
        },
        None => false,
    }
}

/// Whether `mountos check --json` reports `feature` as usable.
pub fn backend_usable(check: &Json, feature: &str) -> (r: bool)
    ensures
        r == feature_usable(check@, feature@),
{
    match check.as_array() {
        Some(items) => {
            let ghost all = check_items(check@);
            assert(all.len() == items@.len());
            let mut i: usize = 0;
            while i < items.len()
                invariant
                    all == check_items(check@),
                    all.len() == items@.len(),
                    forall|k: int| 0 <= k < items@.len() ==> all[k] == (#[trigger] items@[k])@,
                    i <= items@.len(),
                    forall|k: int| 0 <= k < i ==> !item_usable(#[trigger] all[k], feature@),
                decreases items@.len() - i,
            {
                if item_usable_exec(&items[i], feature) {
                    assert(item_usable(all[i as int], feature@));
                    return true;
                }
                i += 1;
            }
            false
        },
        None => {
            let r = item_usable_exec(check, feature);
            assert(check_items(check@) =~= seq![check@]);
            if r {
                assert(item_usable(check_items(check@)[0], feature@));
            }
            r
        },
    }
}

/// Only Windows probes for a backend, and only for `Auto`.
pub open spec fn needs_probe(p: Platform, b: Backend) -> bool {
    p == Platform::Windows && b == Backend::Auto
}

pub fn needs_backend_probe(platform: Platform, backend: &Backend) -> (r: bool)
    ensures
        r == needs_probe(platform, *backend),
{
    platform == Platform::Windows && *backend == Backend::Auto
}

pub open spec fn no_windows_backend_message() -> Seq<char> {
    "no usable Windows mount backend was reported by mountos check"@
}

/// On Windows an `Auto` profile launches with MountOS IO once `mountos
/// check --json` (its parsed output is `check`) reports it usable, and
/// fails otherwise. Any other profile, and every profile elsewhere, is
/// left as it is and `check` is not read.
pub fn resolve_auto_backend(platform: Platform, profile: &mut MountProfile, check: &Json) -> (r: Result<(), DesktopError>)
    ensures
        !needs_probe(platform, old(profile).backend) ==> r is Ok && final(profile)@ == old(profile)@,
        needs_probe(platform, old(profile).backend) && feature_usable(check@, "MountOsIo"@) ==> r is Ok
            && final(profile)@ == (ProfileView { backend: Backend::Mountosio, ..old(profile)@ }),
        needs_probe(platform, old(profile).backend) && !feature_usable(check@, "MountOsIo"@) ==> fails_with(
            r,
            no_windows_backend_message(),
        ) && final(profile)@ == old(profile)@,
{
    if !needs_backend_probe(platform, &profile.backend) {
        return Ok(());
    }
    if !backend_usable(check, "MountOsIo") {
        return Err(DesktopError::Message(text("no usable Windows mount backend was reported by mountos check")));
    }
    profile.backend = Backend::Mountosio;
    Ok(())
}

/// The backend a launch runs with.
pub open spec fn resolved_backend(p: Platform, b: Backend, check: JsonView) -> Backend {
    if needs_probe(p, b) && feature_usable(check, "MountOsIo"@) {
        Backend::Mountosio
    } else {
        b
    }
}

pub open spec fn managed_args_message(p: ProfileView) -> Seq<char> {
    "managed extra args rejected: "@ + join(refused(p.extra_args), ", "@)
}

/// Why a profile's mount is refused before the mount table is consulted,
/// if it is: a backend the platform lacks, no usable Windows backend, a
/// mount path the backend refuses, managed extra arguments, or no mount
/// path at all.
pub open spec fn mount_problem(os: Seq<char>, p: ProfileView, check: JsonView) -> Option<Seq<char>> {
    let platform = platform_for_os(os);
    let b = resolved_backend(platform, p.backend, check);
    if !backend_allowed(platform, p.backend) {
        Some("backend is unavailable on "@ + os)
    } else if needs_probe(platform, p.backend) && !feature_usable(check, "MountOsIo"@) {
        Some(no_windows_backend_message())
    } else if mount_path_problem(platform, b, p.mount_path) is Some {
        mount_path_problem(platform, b, p.mount_path)
    } else if refused(p.extra_args).len() > 0 {
        Some(managed_args_message(p))
    } else if p.mount_path.len() == 0 {
        Some("mount path is required"@)
    } else {
        None
    }
}

/// Checks a profile's mount before the mount table is consulted, and
/// resolves `Auto` on Windows. `os` is `std::env::consts::OS`; `check` is
/// the parsed `mountos check --json`, read only when Windows probes.
pub fn mount_precheck(os: &str, profile: &mut MountProfile, check: &Json) -> (r: Result<(), DesktopError>)
    ensures
        match mount_problem(os@, old(profile)@, check@) {
            Some(m) => fails_with(r, m),
            None => r is Ok,
        },
        r is Ok ==> final(profile)@ == (ProfileView {
            backend: resolved_backend(platform_for_os(os@), old(profile).backend, check@),
            ..old(profile)@
        }),
{
    let platform = Platform::from_os(os);
    match validate_backend_for_platform(os, &profile.backend) {
        Ok(()) => {},
        Err(e) => return Err(e),
    }
    match resolve_auto_backend(platform, profile, check) {
        Ok(()) => {},
        Err(e) => return Err(e),
    }
    match validate_mount_path_for_backend(platform, &profile.backend, profile.mount_path.as_str()) {
        Ok(()) => {},
        Err(e) => return Err(e),
    }
    match reject_managed_extra_args(profile) {
        Ok(()) => {},
        Err(e) => return Err(e),
    }
    if profile.mount_path.as_str().is_empty() {
        return Err(DesktopError::Message(text("mount path is required")));
    }
    Ok(())
}

/// The refusal to launch onto a target that is already mounted.
pub fn already_mounted(target: &str) -> (r: DesktopError)
    ensures
        r matches DesktopError::Message(m) && m@ == "target is already mounted: "@ + target@,
{
    let mut m = text("target is already mounted: ");
    m.append(target);
    DesktopError::Message(m)
}

/// Why a view mount (snapshot, deleted or version) is refused once its
/// destination passed, before the mount table is consulted, if it is.
pub open spec fn view_problem(os: Seq<char>, p: ProfileView, check: JsonView) -> Option<Seq<char>> {
    let platform = platform_for_os(os);
    if !backend_allowed(platform, p.backend) {
        Some("backend is unavailable on "@ + os)
    } else if needs_probe(platform, p.backend) && !feature_usable(check, "MountOsIo"@) {
        Some(no_windows_backend_message())
    } else {
        None
    }
}

/// Checks a view mount's backend and resolves `Auto` on Windows.
pub fn view_precheck(os: &str, profile: &mut MountProfile, check: &Json) -> (r: Result<(), DesktopError>)
    ensures
        match view_problem(os@, old(profile)@, check@) {
            Some(m) => fails_with(r, m),
            None => r is Ok,
        },
        r is Ok ==> final(profile)@ == (ProfileView {
            backend: resolved_backend(platform_for_os(os@), old(profile).backend, check@),
            ..old(profile)@
        }),
{
    let platform = Platform::from_os(os);
    match validate_backend_for_platform(os, &profile.backend) {
        Ok(()) => {},
        Err(e) => return Err(e),
    }
    resolve_auto_backend(platform, profile, check)
}

/// The digits of an unsigned number's text: `str::parse::<u64>` takes one
/// leading `+`.
pub open spec fn unsigned_digits(t: Seq<char>) -> Seq<char> {
    if t.len() > 0 && t[0] == '+' {
        t.drop_first()
    } else {
        t
    }
}

/// `t.parse::<u64>()` succeeds.
pub open spec fn parses_as_u64(t: Seq<char>) -> bool {
    let d = unsigned_digits(t);
    d.len() > 0 && crate::text::all_digits(d) && crate::text::digits_value(d) <= u64::MAX
}

proof fn lemma_all_digits_lead(s: Seq<char>)
    requires
        crate::text::all_digits(s),
    ensures
        crate::text::leading_digits(s) == s,
    decreases s.len(),
{
    if s.len() > 0 {
        assert(crate::text::is_digit(s[0]));
        assert forall|i: int| 0 <= i < s.drop_first().len() implies crate::text::is_digit(
            #[trigger] s.drop_first()[i],
        ) by {
            assert(s.drop_first()[i] == s[i + 1]);
        }
        lemma_all_digits_lead(s.drop_first());
        assert(seq![s[0]] + s.drop_first() =~= s);
    } else {
        assert(crate::text::leading_digits(s) =~= s);
    }
}

/// A version view's inode: the trimmed text read as a `u64`.
pub fn parse_inode(inode: &str) -> (r: Result<u64, DesktopError>)
    ensures
        ({
            let t = crate::text::trim(inode@);
            if parses_as_u64(t) {
                r matches Ok(n) && n == crate::text::digits_value(unsigned_digits(t))
            } else {
                fails_with(r, "invalid inode number: "@ + crate::text::debug_str(inode@))
            }
        }),
{
    let t = crate::text::trim_str(inode);
    let v = crate::text::chars_of(t.as_str());
    let from: usize = if v.len() > 0 && v[0] == '+' {
        1
    } else {
        0
    };
    let (end, value) = crate::text::parse_leading_u64(v.as_slice(), from);
    let ghost d = v@.subrange(from as int, v@.len() as int);
    proof {
        assert(d =~= unsigned_digits(t@));
        if crate::text::all_digits(d) {
            lemma_all_digits_lead(d);
            assert(d.len() == crate::text::leading_digits(d).len());
        }
        if end == v.len() {
            assert(v@.subrange(from as int, end as int) =~= d);
        }
    }
    if end == v.len() && end > from {
        match value {
            Some(n) => return Ok(n),
            None => {},
        }
    }
    let mut m = text("invalid inode number: ");
    m.append(crate::text::debug_quoted(inode).as_str());
    Err(DesktopError::Message(m))
}

/// A snapshot view needs a timestamp.
pub fn require_timestamp(timestamp: &str) -> (r: Result<(), DesktopError>)
    ensures
        crate::text::trim(timestamp@).len() == 0 ==> fails_with(r, "timestamp is required"@),
        crate::text::trim(timestamp@).len() > 0 ==> r is Ok,
{
    if crate::text::trim_str(timestamp).as_str().is_empty() {
        Err(DesktopError::Message(text("timestamp is required")))
    } else {
        Ok(())
    }
}

/// Where a daemonizing launch (a mount, a snapshot view, a mount plus
/// gateway) stands.
pub enum DaemonState {
    /// Waiting, up to 65 s, for the launcher to exit.
    Launching,
    /// It exited 0 on Windows; waiting, up to 60 s, for the target to be listed.
    ConfirmingReady,
    /// The target never appeared; reading the launcher's output.
    ReadingReadyFailure,
    /// The launcher failed with this status; reading its output.
    ReadingFailure { status_text: String },
    /// The launcher gave up waiting for readiness; checking the mount
    /// table, up to 120 s, before reporting `detail`.
    Reconciling { status_text: String, detail: String },
}

/// What the app reports back to a launch.
pub enum LaunchEvent {
    /// The launcher did not exit in time and was killed.
    TimedOut,
    /// The launcher exited.
    Exited { success: bool, status_text: String },
    /// The polled target was (or was not) listed in time.
    Polled { listed: bool },
    /// The launcher's logs.
    Output { stderr: String, stdout: String },
}

/// What the app does next for a launch.
pub enum LaunchAction {
    /// Wait for the launcher to exit.
    WaitForExit,
    /// Poll the mount list for the target, up to this many seconds.
    PollTarget { seconds: u64 },
    /// Read the launcher's stderr and stdout logs.
    ReadOutput,
    /// The launch is over.
    Finish(Result<MountResult, DesktopError>),
}

/// The launch is over with the target ready.
pub open spec fn finishes_ready(a: LaunchAction, target: Seq<char>) -> bool {
    a matches LaunchAction::Finish(Ok(m)) && m.state@ == "ready"@ && m.target@ == target
}

/// The launch is over with an error saying `msg`.
pub open spec fn finishes_failing(a: LaunchAction, msg: Seq<char>) -> bool {
    a matches LaunchAction::Finish(Err(DesktopError::Message(m))) && m@ == msg
}

/// The action a state waits on.
pub open spec fn pending(s: DaemonState, a: LaunchAction) -> bool {
    match s {
        DaemonState::Launching => a is WaitForExit,
        DaemonState::ConfirmingReady => a matches LaunchAction::PollTarget { seconds } && seconds == 60,
        DaemonState::ReadingReadyFailure => a is ReadOutput,
        DaemonState::ReadingFailure { .. } => a is ReadOutput,
        DaemonState::Reconciling { .. } => a matches LaunchAction::PollTarget { seconds } && seconds == 120,
    }
}

pub open spec fn same_state(a: DaemonState, b: DaemonState) -> bool {
    match (a, b) {
        (DaemonState::Launching, DaemonState::Launching) => true,
        (DaemonState::ConfirmingReady, DaemonState::ConfirmingReady) => true,
        (DaemonState::ReadingReadyFailure, DaemonState::ReadingReadyFailure) => true,
        (DaemonState::ReadingFailure { status_text: x }, DaemonState::ReadingFailure { status_text: y }) => x@ == y@,
        (
            DaemonState::Reconciling { status_text: x, detail: d },
            DaemonState::Reconciling { status_text: y, detail: e },
        ) => x@ == y@ && d@ == e@,
        _ => false,
    }
}

/// One step of a daemonizing launch onto `target`. A launcher that exits 0
/// is ready at once, except on Windows, where the target must also be
/// listed within 60 s. One that fails is reported with its output, unless
/// that output says the CLI only gave up waiting for readiness: then the
/// target still counts as ready if it is listed within 120 s. An event a
/// state does not wait for leaves it waiting as before.
pub open spec fn daemon_step_ok(
    p: Platform,
    target: Seq<char>,
    s: DaemonState,
    e: LaunchEvent,
    r: (DaemonState, LaunchAction),
) -> bool {
    match (s, e) {
        (DaemonState::Launching, LaunchEvent::TimedOut) => finishes_failing(
            r.1,
            "launch timed out and the child process was terminated"@,
        ),
        (DaemonState::Launching, LaunchEvent::Exited { success, status_text }) => if success {
            if p == Platform::Windows {
                r.0 is ConfirmingReady && pending(r.0, r.1)
            } else {
                finishes_ready(r.1, target)
            }
        } else {
            (r.0 matches DaemonState::ReadingFailure { status_text: t } && t@ == status_text@) && pending(r.0, r.1)
        },
        (DaemonState::ConfirmingReady, LaunchEvent::Polled { listed }) => if listed {
            finishes_ready(r.1, target)
        } else {
            r.0 is ReadingReadyFailure && pending(r.0, r.1)
        },
        (DaemonState::ReadingReadyFailure, LaunchEvent::Output { stderr, stdout }) => {
            let detail = launch_detail(stderr@, stdout@);
            finishes_failing(
                r.1,
                if detail.len() == 0 {
                    "process exited, but the target did not become ready within 60 seconds"@
                } else {
                    detail
                },
            )
        },
        (DaemonState::ReadingFailure { status_text }, LaunchEvent::Output { stderr, stdout }) => {
            let detail = launch_detail(stderr@, stdout@);
            if indeterminate(detail) {
                (r.0 matches DaemonState::Reconciling { status_text: t, detail: d } && t@ == status_text@
                    && d@ == detail) && pending(r.0, r.1)
            } else {
                finishes_failing(r.1, daemon_failure_text(detail, status_text@))
            }
        },
        (DaemonState::Reconciling { status_text, detail }, LaunchEvent::Polled { listed }) => if listed {
            finishes_ready(r.1, target)
        } else {
            finishes_failing(r.1, daemon_failure_text(detail@, status_text@))
        },
        _ => same_state(r.0, s) && pending(r.0, r.1),
    }
}

fn copy_state(s: &DaemonState) -> (r: DaemonState)
    ensures
        same_state(r, *s),
{
    match s {
        DaemonState::Launching => DaemonState::Launching,
        DaemonState::ConfirmingReady => DaemonState::ConfirmingReady,
        DaemonState::ReadingReadyFailure => DaemonState::ReadingReadyFailure,
        DaemonState::ReadingFailure { status_text } => DaemonState::ReadingFailure { status_text: status_text.clone() },
        DaemonState::Reconciling { status_text, detail } => DaemonState::Reconciling {
            status_text: status_text.clone(),
            detail: detail.clone(),
        },
    }
}

/// What a state waits on.
pub fn pending_action(s: &DaemonState) -> (r: LaunchAction)
    ensures
        pending(*s, r),
{
    match s {
        DaemonState::Launching => LaunchAction::WaitForExit,
        DaemonState::ConfirmingReady => LaunchAction::PollTarget { seconds: 60 },
        DaemonState::ReadingReadyFailure => LaunchAction::ReadOutput,
        DaemonState::ReadingFailure { .. } => LaunchAction::ReadOutput,
        DaemonState::Reconciling { .. } => LaunchAction::PollTarget { seconds: 120 },
    }
}

fn finish_ready(target: &str) -> (r: LaunchAction)
    ensures
        finishes_ready(r, target@),
{
    LaunchAction::Finish(Ok(ready_result(target)))
}

fn finish_failing(e: DesktopError) -> (r: LaunchAction)
    ensures
        e matches DesktopError::Message(m) ==> finishes_failing(r, m@),
{
    LaunchAction::Finish(Err(e))
}

/// Advances a daemonizing launch onto `target` by one event.
pub fn daemon_launch_step(platform: Platform, target: &str, state: DaemonState, event: LaunchEvent) -> (r: (DaemonState, LaunchAction))
    ensures
        daemon_step_ok(platform, target@, state, event, r),
{
    match (&state, &event) {
        (DaemonState::Launching, LaunchEvent::TimedOut) => (
            DaemonState::Launching,
            finish_failing(DesktopError::Message(text("launch timed out and the child process was terminated"))),
        ),
        (DaemonState::Launching, LaunchEvent::Exited { success, status_text }) => {
            if *success {
                if platform == Platform::Windows {
                    (DaemonState::ConfirmingReady, LaunchAction::PollTarget { seconds: 60 })
                } else {
                    (DaemonState::Launching, finish_ready(target))
                }
            } else {
                (DaemonState::ReadingFailure { status_text: status_text.clone() }, LaunchAction::ReadOutput)
            }
        },
        (DaemonState::ConfirmingReady, LaunchEvent::Polled { listed }) => {
            if *listed {
                (DaemonState::ConfirmingReady, finish_ready(target))
            } else {
                (DaemonState::ReadingReadyFailure, LaunchAction::ReadOutput)
            }
        },
        (DaemonState::ReadingReadyFailure, LaunchEvent::Output { stderr, stdout }) => {
            let detail = launch_detail_text(stderr.as_str(), stdout.as_str());
            (DaemonState::ReadingReadyFailure, finish_failing(windows_ready_failure(detail.as_str())))
        },
        (DaemonState::ReadingFailure { status_text }, LaunchEvent::Output { stderr, stdout }) => {
            let detail = launch_detail_text(stderr.as_str(), stdout.as_str());
            if crate::cli_output::is_indeterminate(detail.as_str()) {
                (
                    DaemonState::Reconciling { status_text: status_text.clone(), detail },
                    LaunchAction::PollTarget { seconds: 120 },
                )
            } else {
                let e = daemon_launch_failure(detail.as_str(), status_text.as_str());
                (DaemonState::Launching, finish_failing(e))
            }
        },
        (DaemonState::Reconciling { status_text, detail }, LaunchEvent::Polled { listed }) => {
            if *listed {
                (DaemonState::Launching, finish_ready(target))
            } else {
                let e = daemon_launch_failure(detail.as_str(), status_text.as_str());
                (DaemonState::Launching, finish_failing(e))
            }
        },
        _ => {
            let a = pending_action(&state);
            (copy_state(&state), a)
        },
    }
}

/// What a foreground view (deleted, version) reports while it is polled.
pub enum ViewEvent {
    /// The view's process exited, with this status and these logs.
    Exited { status_text: String, stderr: String, stdout: String },
    /// The destination is listed.
    Listed,
    /// The time allowed ran out.
    TimedOut,
    /// Nothing yet.
    Pending,
}

/// What the app does next for a foreground view.
pub enum ViewAction {
    /// Wait half a second and poll again.
    KeepPolling,
    /// The view is mounted; its process keeps serving it.
    Ready(MountResult),
    /// Kill the view's process, then report the error.
    KillAndFail(DesktopError),
    /// Report the error.
    Fail(DesktopError),
}

/// One poll of a foreground view onto `target`.
pub fn view_poll_step(target: &str, event: ViewEvent) -> (r: ViewAction)
    ensures
        match event {
            ViewEvent::Exited { status_text, stderr, stdout } => {
                let detail = launch_detail(stderr@, stdout@);
                r matches ViewAction::Fail(DesktopError::Message(m)) && m@ == (if detail.len() == 0 {
                    "mountos exited with "@ + status_text@ + " before the view became ready"@
                } else {
                    detail
                })
            },
            ViewEvent::Listed => r matches ViewAction::Ready(m) && m.state@ == "ready"@ && m.target@
                == target@,
            ViewEvent::TimedOut => r matches ViewAction::KillAndFail(DesktopError::Message(m)) && m@
                == "view mount timed out before becoming ready and was terminated"@,
            ViewEvent::Pending => r is KeepPolling,
        },
{
    match event {
        ViewEvent::Exited { status_text, stderr, stdout } => {
            let detail = launch_detail_text(stderr.as_str(), stdout.as_str());
            ViewAction::Fail(foreground_view_failure(detail.as_str(), status_text.as_str()))
        },
        ViewEvent::Listed => ViewAction::Ready(ready_result(target)),
        ViewEvent::TimedOut => ViewAction::KillAndFail(
            DesktopError::Message(text("view mount timed out before becoming ready and was terminated")),
        ),
        ViewEvent::Pending => ViewAction::KeepPolling,
    }
}

/// How a gateway-only launch ended: `exited` is the launcher's success, or
/// `None` when it timed out and was killed; `detail` (its logs, trimmed) is
/// read only when it failed.
pub fn gateway_only_outcome(exited: Option<bool>, status_text: &str, detail: &str) -> (r: Result<MountResult, DesktopError>)
    ensures
        match exited {
            None => fails_with(r, "gateway launch timed out and the child process was terminated"@),
            Some(true) => r matches Ok(m) && m.state@ == "ready"@ && m.target@ == "gateway"@,
            Some(false) => fails_with(
                r,
                if detail@.len() == 0 {
                    "mountos gateway exited with "@ + status_text@
                } else {
                    detail@
                },
            ),
        },
{
    match exited {
        None => Err(DesktopError::Message(text("gateway launch timed out and the child process was terminated"))),
        Some(true) => Ok(ready_result("gateway")),
        Some(false) => Err(gateway_launch_failure(detail, status_text)),
    }
}

/// Why a gateway launch is refused before the mount table is consulted,
/// if it is: a mount plus gateway is checked like a mount, and needs a
/// mount path; a gateway alone is not checked here.
pub open spec fn gateway_problem(os: Seq<char>, p: ProfileView, gateway_only: bool, check: JsonView) -> Option<Seq<char>> {
    let platform = platform_for_os(os);
    let b = resolved_backend(platform, p.backend, check);
    if gateway_only {
        None
    } else if !backend_allowed(platform, p.backend) {
        Some("backend is unavailable on "@ + os)
    } else if needs_probe(platform, p.backend) && !feature_usable(check, "MountOsIo"@) {
        Some(no_windows_backend_message())
    } else if mount_path_problem(platform, b, p.mount_path) is Some {
        mount_path_problem(platform, b, p.mount_path)
    } else if p.mount_path.len() == 0 {
        Some(
            "mount path is required for a mount+gateway combo; enable gateway-only if this profile doesn't need a FUSE mount"@,
        )
    } else {
        None
    }
}

/// Checks a gateway launch's profile, and resolves `Auto` on Windows for
/// a mount plus gateway.
pub fn gateway_precheck(os: &str, profile: &mut MountProfile, gateway_only: bool, check: &Json) -> (r: Result<(), DesktopError>)
    ensures
        match gateway_problem(os@, old(profile)@, gateway_only, check@) {
            Some(m) => fails_with(r, m),
            None => r is Ok,
        },
        gateway_only ==> final(profile)@ == old(profile)@,
        r is Ok && !gateway_only ==> final(profile)@ == (ProfileView {
            backend: resolved_backend(platform_for_os(os@), old(profile).backend, check@),
            ..old(profile)@
        }),
{
    if gateway_only {
        return Ok(());
    }
    let platform = Platform::from_os(os);
    match validate_backend_for_platform(os, &profile.backend) {
        Ok(()) => {},
        Err(e) => return Err(e),
    }
    match resolve_auto_backend(platform, profile, check) {
        Ok(()) => {},
        Err(e) => return Err(e),
    }
    match validate_mount_path_for_backend(platform, &profile.backend, profile.mount_path.as_str()) {
        Ok(()) => {},
        Err(e) => return Err(e),
    }
    crate::gateway::require_combo_mount_path(profile.mount_path.as_str())
}

/// Whether the mount list holds the target: some listed mount path names
/// the same mount point (every path taken after filesystem resolution).
pub fn contains_target(platform: Platform, listed_resolved: &[String], target_resolved: &str) -> (r: bool)
    ensures
        r == exists|i: int|
            0 <= i < listed_resolved@.len() && crate::profile::normalized(platform, #[trigger] listed_resolved@[i]@)
                == crate::profile::normalized(platform, target_resolved@),
{
    let mut i: usize = 0;
    while i < listed_resolved.len()
        invariant
            i <= listed_resolved@.len(),
            forall|k: int|
                0 <= k < i ==> crate::profile::normalized(platform, #[trigger] listed_resolved@[k]@)
                    != crate::profile::normalized(platform, target_resolved@),
        decreases listed_resolved@.len() - i,
    {
        if crate::profile::targets_equal(platform, listed_resolved[i].as_str(), target_resolved) {
            return true;
        }
        i += 1;
    }
    false
}

/// The log files a launch writes its output to: `<kind>-<profile id>` and,
/// for views and gateways, a suffix keeping concurrent launches apart;
/// then `-stderr.log` and `-stdout.log`.
pub fn launch_log_names(kind: &str, profile_id: &str, suffix: Option<&str>) -> (r: (String, String))
    ensures
        ({
            let stem = kind@ + "-"@ + profile_id@ + match suffix {
                Some(x) => "-"@ + x@,
                None => Seq::empty(),
            };
            r.0@ == stem + "-stderr.log"@ && r.1@ == stem + "-stdout.log"@
        }),
{
    let mut stem = text(kind);
    stem.append("-");
    stem.append(profile_id);
    match suffix {
        Some(x) => {
            stem.append("-");
            stem.append(x);
        },
        None => {},
    }
    let mut err = stem.clone();
    err.append("-stderr.log");
    let mut out = stem;
    out.append("-stdout.log");
    (err, out)
}

/// The error when a fork command did not finish in 30 seconds.
pub fn cli_timeout_error(argv: &[String]) -> (r: DesktopError)
    ensures
        r matches DesktopError::Message(m) && m@ == "mountos "@ + join(views(argv@), " "@) + " timed out after 30s"@,
{
    let mut m = text("mountos ");
    m.append(crate::text::join_strings(argv, " ").as_str());
    m.append(" timed out after 30s");
    DesktopError::Message(m)
}

} // verus!
