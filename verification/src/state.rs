//! The system state the window shows: readiness issues, the running mounts
//! matched to saved profiles, and the tray menu made from them.
use vstd::prelude::*;

use crate::check::{issue_views, CheckIssue, IssueView};
use crate::error::{error_text, DesktopError};
use crate::instances::{InstanceConfigExtras, InstanceView, MountInstance};
use crate::listing::profile_views;
use crate::profile::{normalized, opt_view, targets_equal, MountProfile, Platform, ProfileView};
use crate::terminal::TerminalOption;
use crate::text::{decimal, decimal_string, text};

verus! {

/// Everything the main window shows about this machine.
pub struct SystemState {
    pub platform: String,
    pub cli_path: Option<String>,
    pub cli_version: Option<String>,
    pub check_ok: bool,
    pub issues: Vec<CheckIssue>,
    pub instances: Vec<MountInstance>,
    pub cli_path_alternates: Vec<String>,
    pub terminals: Vec<TerminalOption>,
}

pub open spec fn cli_missing_issue() -> IssueView {
    IssueView {
        id: "cli-missing"@,
        severity: "error"@,
        title: "mountos binary not found"@,
        detail: Some(
            "No mountos binary was found on PATH. Install the mountos CLI, or if it's already installed somewhere non-standard, pin its exact path under Settings \u{2192} About."@,
        ),
        fix_command: None,
    }
}

pub open spec fn error_issue(id: Seq<char>, title: Seq<char>, e: DesktopError) -> IssueView {
    IssueView { id, severity: "error"@, title, detail: Some(error_text(e)), fix_command: None }
}

/// The readiness report when `mountos check --json` could not run: a
/// missing binary, or the error that stopped it.
pub fn check_failure_report(err: &DesktopError) -> (r: (bool, Vec<CheckIssue>))
    ensures
        !r.0,
        r.1@.len() == 1,
        err is CliNotFound ==> r.1@[0]@ == cli_missing_issue(),
        !(err is CliNotFound) ==> r.1@[0]@ == error_issue("cli-unavailable"@, "mountos CLI unavailable"@, *err),
{
    let issue = match err {
        DesktopError::CliNotFound => CheckIssue {
            id: text("cli-missing"),
            severity: text("error"),
            title: text("mountos binary not found"),
            detail: Some(
                text(
                    "No mountos binary was found on PATH. Install the mountos CLI, or if it's already installed somewhere non-standard, pin its exact path under Settings \u{2192} About.",
                ),
            ),
            fix_command: None,
        },
        _ => CheckIssue {
            id: text("cli-unavailable"),
            severity: text("error"),
            title: text("mountos CLI unavailable"),
            detail: Some(err.message()),
            fix_command: None,
        },
    };
    (false, vec![issue])
}

/// Listing the mounts failed: the machine is not ready, and the error is
/// shown as an issue after the others.
pub fn note_list_failure(check_ok: &mut bool, issues: &mut Vec<CheckIssue>, err: &DesktopError)
    ensures
        !*final(check_ok),
        issue_views(final(issues)@) == issue_views(old(issues)@).push(
            error_issue("list-failed"@, "Unable to enumerate mounts"@, *err),
        ),
{
    *check_ok = false;
    let issue = CheckIssue {
        id: text("list-failed"),
        severity: text("error"),
        title: text("Unable to enumerate mounts"),
        detail: Some(err.message()),
        fix_command: None,
    };
    issues.push(issue);
    assert(issue_views(issues@) =~= issue_views(old(issues)@).push(
        error_issue("list-failed"@, "Unable to enumerate mounts"@, *err),
    ));
}

pub open spec fn target_pairs(v: Seq<(String, String)>) -> Seq<(Seq<char>, Seq<char>)> {
    v.map_values(|t: (String, String)| (t.0@, t.1@))
}

/// The saved profiles that have a mount path, as (id, mount path).
pub open spec fn profile_targets_of(ps: Seq<ProfileView>) -> Seq<(Seq<char>, Seq<char>)> {
    ps.filter(|p: ProfileView| p.mount_path.len() > 0).map_values(
        |p: ProfileView| (p.id, p.mount_path),
    )
}

/// The (id, mount path) of every profile with a mount path, in order.
pub fn profile_targets(profiles: &[MountProfile]) -> (r: Vec<(String, String)>)
    ensures
        target_pairs(r@) == profile_targets_of(profile_views(profiles@)),
{
    let ghost keep = |p: ProfileView| p.mount_path.len() > 0;
    let ghost f = |p: ProfileView| (p.id, p.mount_path);
    let mut out: Vec<(String, String)> = Vec::new();
    let mut i: usize = 0;
    while i < profiles.len()
        invariant
            i <= profiles@.len(),
            keep == (|p: ProfileView| p.mount_path.len() > 0),
            f == (|p: ProfileView| (p.id, p.mount_path)),
            target_pairs(out@) == profile_views(profiles@).take(i as int).filter(keep).map_values(f),
        decreases profiles@.len() - i,
    {
        let p = &profiles[i];
        proof {
            let vs = profile_views(profiles@);
            assert(vs.take(i + 1) =~= vs.take(i as int).push(vs[i as int]));
            vs.take(i as int).lemma_filter_push(vs[i as int], keep);
            assert(vs.take(i as int).filter(keep).push(vs[i as int]).map_values(f) =~= vs.take(
                i as int,
            ).filter(keep).map_values(f).push(f(vs[i as int])));
        }
        if !p.mount_path.as_str().is_empty() {
            let pair = (p.id.clone(), p.mount_path.clone());
            let ghost before = out@;
            out.push(pair);
            assert(target_pairs(out@) =~= target_pairs(before).push((pair.0@, pair.1@)));
        }
        i += 1;
    }
    assert(profile_views(profiles@).take(profiles@.len() as int) =~= profile_views(profiles@));
    out
}

/// The id of the first target, from `k` on, naming the same mount point
/// as `resolved` (every path taken after filesystem resolution).
pub open spec fn first_match(p: Platform, resolved: Seq<char>, targets: Seq<(Seq<char>, Seq<char>)>, k: int) -> Option<Seq<char>>
    decreases targets.len() - k,
{
    if k < 0 || k >= targets.len() {
        None
    } else if normalized(p, targets[k].1) == normalized(p, resolved) {
        Some(targets[k].0)
    } else {
        first_match(p, resolved, targets, k + 1)
    }
}

/// The saved profile a running mount belongs to: the first target naming
/// the same mount point. `resolved` and the targets' paths are taken after
/// filesystem resolution.
pub fn match_profile(platform: Platform, resolved: &str, targets: &[(String, String)]) -> (r: Option<String>)
    ensures
        opt_view(r) == first_match(platform, resolved@, target_pairs(targets@), 0),
{
    let ghost ts = target_pairs(targets@);
    let mut i: usize = 0;
    while i < targets.len()
        invariant
            ts == target_pairs(targets@),
            i <= targets@.len(),
            first_match(platform, resolved@, ts, 0) == first_match(platform, resolved@, ts, i as int),
        decreases targets@.len() - i,
    {
        assert(ts[i as int] == (targets@[i as int].0@, targets@[i as int].1@));
        if targets_equal(platform, targets[i].1.as_str(), resolved) {
            return Some(targets[i].0.clone());
        }
        i += 1;
    }
    None
}

/// A running mount with what the client adds to it: the profile it
/// belongs to (none makes it external) and its config file's extras.
pub open spec fn annotated(old_view: InstanceView, profile_id: Option<Seq<char>>, mount_time: Option<Seq<char>>, volume_kind: Option<Seq<char>>, temporary_fork: Option<bool>) -> InstanceView {
    InstanceView {
        profile_id,
        external: profile_id is None,
        mount_time,
        volume_kind,
        temporary_fork,
        ..old_view
    }
}

pub fn annotate_instance(instance: &mut MountInstance, profile_id: Option<String>, extras: InstanceConfigExtras)
    ensures
        final(instance)@ == annotated(
            old(instance)@,
            opt_view(profile_id),
            opt_view(extras.mount_time),
            opt_view(extras.volume_kind),
            extras.temporary_fork,
        ),
{
    instance.external = profile_id.is_none();
    instance.profile_id = profile_id;
    instance.mount_time = extras.mount_time;
    instance.volume_kind = extras.volume_kind;
    instance.temporary_fork = extras.temporary_fork;
}

/// One entry of the tray menu.
pub enum TrayItem {
    /// A clickable line.
    Entry { id: String, label: String, enabled: bool },
    Separator,
}

pub enum TrayView {
    Entry(Seq<char>, Seq<char>, bool),
    Separator,
}

impl View for TrayItem {
    type V = TrayView;

    open spec fn view(&self) -> TrayView {
        match self {
            TrayItem::Entry { id, label, enabled } => TrayView::Entry(id@, label@, *enabled),
            TrayItem::Separator => TrayView::Separator,
        }
    }
}

pub open spec fn tray_views(v: Seq<TrayItem>) -> Seq<TrayView> {
    v.map_values(|t: TrayItem| t@)
}

/// How many mounts the tray lists before folding the rest into "+N more".
pub const MAX_MOUNT_ITEMS: usize = 15;

/// A mount's tray line: its name (its path when unnamed), a dash, its
/// health; openable mounts can be clicked.
pub open spec fn mount_line(p: Platform, m: InstanceView) -> TrayView {
    TrayView::Entry(
        "open-mount:"@ + m.mount_path,
        (if m.name.len() == 0 {
            m.mount_path
        } else {
            m.name
        }) + " \u{2014} "@ + m.health,
        crate::profile::openable(p, m.mount_path),
    )
}

/// The tray menu: "No active mounts", or the first 15 mounts and "+N more"
/// for the rest; then a separator, "Open mountOS" and "Quit mountOS".
pub open spec fn tray_menu(p: Platform, ms: Seq<InstanceView>) -> Seq<TrayView> {
    let head = if ms.len() == 0 {
        seq![TrayView::Entry("no-mounts"@, "No active mounts"@, false)]
    } else {
        let shown = if ms.len() > 15 {
            15
        } else {
            ms.len() as int
        };
        Seq::new(shown as nat, |i: int| mount_line(p, ms[i])) + if ms.len() > 15 {
            seq![TrayView::Entry("show"@, "+"@ + decimal((ms.len() - 15) as nat) + " more"@, true)]
        } else {
            Seq::empty()
        }
    };
    head + seq![
        TrayView::Separator,
        TrayView::Entry("show"@, "Open mountOS"@, true),
        TrayView::Entry("quit"@, "Quit mountOS"@, true),
    ]
}

fn entry(id: String, label: String, enabled: bool) -> (r: TrayItem)
    ensures
        r@ == TrayView::Entry(id@, label@, enabled),
{
    TrayItem::Entry { id, label, enabled }
}

fn push_item(items: &mut Vec<TrayItem>, item: TrayItem)
    ensures
        tray_views(final(items)@) == tray_views(old(items)@).push(item@),
{
    items.push(item);
    assert(tray_views(items@) =~= tray_views(old(items)@).push(item@));
}

/// The tray menu for the running mounts.
pub fn tray_menu_items(platform: Platform, instances: &[MountInstance]) -> (r: Vec<TrayItem>)
    ensures
        tray_views(r@) == tray_menu(platform, crate::instances::instance_views(instances@)),
{
    let ghost ms = crate::instances::instance_views(instances@);
    let mut items: Vec<TrayItem> = Vec::new();
    if instances.len() == 0 {
        push_item(&mut items, entry(text("no-mounts"), text("No active mounts"), false));
    } else {
        let total = instances.len();
        let shown: usize = if total > MAX_MOUNT_ITEMS {
            MAX_MOUNT_ITEMS
        } else {
            total
        };
        let mut i: usize = 0;
        while i < shown
            invariant
                ms == crate::instances::instance_views(instances@),
                shown <= instances@.len(),
                i <= shown,
                tray_views(items@) == Seq::new(i as nat, |k: int| mount_line(platform, ms[k])),
            decreases shown - i,
        {
            let m = &instances[i];
            let mut label = if m.name.as_str().is_empty() {
                m.mount_path.clone()
            } else {
                m.name.clone()
            };
            label.append(" \u{2014} ");
            label.append(m.health.as_str());
            let mut id = text("open-mount:");
            id.append(m.mount_path.as_str());
            let enabled = crate::profile::is_openable_target(platform, m.mount_path.as_str());
            let item = entry(id, label, enabled);
            assert(ms[i as int] == m@);
            assert(item@ == mount_line(platform, ms[i as int]));
            push_item(&mut items, item);
            i += 1;
            assert(tray_views(items@) =~= Seq::new(i as nat, |k: int| mount_line(platform, ms[k])));
        }
        if total > MAX_MOUNT_ITEMS {
            let remaining = total - MAX_MOUNT_ITEMS;
            let mut label = text("+");
            label.append(decimal_string(remaining as u64).as_str());
            label.append(" more");
            push_item(&mut items, entry(text("show"), label, true));
        }
    }
    push_item(&mut items, TrayItem::Separator);
    push_item(&mut items, entry(text("show"), text("Open mountOS"), true));
    push_item(&mut items, entry(text("quit"), text("Quit mountOS"), true));
    assert(tray_views(items@) =~= tray_menu(platform, ms));
    items
}

} // verus!
