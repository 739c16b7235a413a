//! Unmounting: the argument lists, what `mountos unmount --json` answers,
//! and what the client reports of it.
use vstd::prelude::*;

use crate::argv::lemma_views_push;
use crate::error::{fails_with, DesktopError};
use crate::settings::{require_force_unmount_allowed, DesktopSettings};
use crate::text::{lossy_text, same_text, text, trim, trim_str, utf8_lossy, views};

verus! {

/// One entry of `mountos unmount --json`. `state` is one of unmounted,
/// busy, refused, cancelled, failed.
pub struct UnmountOutcome {
    pub mount_path: String,
    pub state: String,
    pub error: String,
    pub busy: bool,
}

pub struct OutcomeView {
    pub mount_path: Seq<char>,
    pub state: Seq<char>,
    pub error: Seq<char>,
    pub busy: bool,
}

impl View for UnmountOutcome {
    type V = OutcomeView;

    open spec fn view(&self) -> OutcomeView {
        OutcomeView { mount_path: self.mount_path@, state: self.state@, error: self.error@, busy: self.busy }
    }
}

pub open spec fn outcome_views(v: Seq<UnmountOutcome>) -> Seq<OutcomeView> {
    v.map_values(|o: UnmountOutcome| o@)
}

pub open spec fn is_unmounted(o: OutcomeView) -> bool {
    o.state == "unmounted"@
}

/// The CLI's own message when it gave one, else the state it reported.
pub open spec fn outcome_detail(o: OutcomeView) -> Seq<char> {
    if o.error.len() == 0 {
        "unmount reported "@ + o.state
    } else {
        o.error
    }
}

impl UnmountOutcome {
    /// The mount is gone.
    pub fn unmounted(&self) -> (r: bool)
        ensures
            r == is_unmounted(self@),
    {
        same_text(self.state.as_str(), "unmounted")
    }

    /// Why the mount is still there, preferring the CLI's own message.
    pub fn detail(&self) -> (r: String)
        ensures
            r@ == outcome_detail(self@),
    {
        if self.error.as_str().is_empty() {
            let mut m = text("unmount reported ");
            m.append(self.state.as_str());
            m
        } else {
            self.error.clone()
        }
    }
}

/// The error when the unmount answer could not be read: the CLI's stderr,
/// trimmed, or the reading error when stderr is blank.
pub open spec fn unreadable_result_message(error: Seq<char>, stderr: Seq<u8>) -> Seq<char> {
    let detail = trim(utf8_lossy(stderr));
    if detail.len() == 0 {
        "could not read unmount result: "@ + error
    } else {
        detail
    }
}

/// The outcomes `mountos unmount --json` printed. `parsed` is its stdout
/// read as a list of outcomes, or why it could not be.
pub fn parse_unmount_outcomes(parsed: Result<Vec<UnmountOutcome>, String>, stderr: &[u8]) -> (r: Result<Vec<UnmountOutcome>, DesktopError>)
    ensures
        match parsed {
            Ok(v) => r matches Ok(w) && w == v,
            Err(e) => fails_with(r, unreadable_result_message(e@, stderr@)),
        },
{
    match parsed {
        Ok(v) => Ok(v),
        Err(error) => {
            let detail = trim_str(lossy_text(stderr).as_str());
            if detail.as_str().is_empty() {
                let mut m = text("could not read unmount result: ");
                m.append(error.as_str());
                Err(DesktopError::Message(m))
            } else {
                Err(DesktopError::Message(detail))
            }
        },
    }
}

/// What the client says of a single unmount: fine when the first outcome is
/// unmounted, else why not.
pub open spec fn verdict_ok(outcomes: Seq<OutcomeView>, r: Result<(), DesktopError>) -> bool {
    if outcomes.len() == 0 {
        fails_with(r, "mountos unmount returned no result"@)
    } else if is_unmounted(outcomes[0]) {
        r is Ok
    } else {
        fails_with(r, outcome_detail(outcomes[0]))
    }
}

pub fn unmount_verdict(outcomes: &[UnmountOutcome]) -> (r: Result<(), DesktopError>)
    ensures
        verdict_ok(outcome_views(outcomes@), r),
{
    if outcomes.len() == 0 {
        return Err(DesktopError::Message(text("mountos unmount returned no result")));
    }
    let first = &outcomes[0];
    if !first.unmounted() {
        return Err(DesktopError::Message(first.detail()));
    }
    Ok(())
}

/// Checks a single unmount before the mount table is consulted: the target
/// may not be blank, and force needs the setting.
pub fn unmount_precheck(target: &str, force: bool, settings: &DesktopSettings) -> (r: Result<(), DesktopError>)
    ensures
        trim(target@).len() == 0 ==> fails_with(r, "unmount target is required"@),
        trim(target@).len() > 0 && force && !settings.allow_unmount_force ==> fails_with(
            r,
            "Force unmount is disabled. Enable it in Settings first."@,
        ),
        trim(target@).len() > 0 && (!force || settings.allow_unmount_force) ==> r is Ok,
{
    if trim_str(target).as_str().is_empty() {
        return Err(DesktopError::Message(text("unmount target is required")));
    }
    if force {
        return require_force_unmount_allowed(settings);
    }
    Ok(())
}

/// The refusal for a target that is not in the mount table.
pub fn not_an_active_target(target: &str) -> (r: DesktopError)
    ensures
        r matches DesktopError::Message(m) && m@
            == "refusing to unmount a path that is not an active mount target: "@ + target@,
{
    let mut m = text("refusing to unmount a path that is not an active mount target: ");
    m.append(target);
    DesktopError::Message(m)
}

pub open spec fn single_unmount_argv(target: Seq<char>, force: bool) -> Seq<Seq<char>> {
    seq!["unmount"@, "-y"@, "--json"@] + (if force {
        seq!["--force"@]
    } else {
        Seq::empty()
    }) + seq![target]
}

/// `mountos unmount -y --json [--force] <target>`.
pub fn unmount_argv(target: &str, force: bool) -> (r: Vec<String>)
    ensures
        views(r@) == single_unmount_argv(target@, force),
{
    let mut r: Vec<String> = vec![text("unmount"), text("-y"), text("--json")];
    if force {
        r.push(text("--force"));
    }
    r.push(text(target));
    assert(views(r@) =~= single_unmount_argv(target@, force));
    r
}

pub open spec fn all_unmount_argv(force: bool) -> Seq<Seq<char>> {
    seq!["unmount"@, "--all"@, "-y"@, "--json"@] + if force {
        seq!["--force"@]
    } else {
        Seq::empty()
    }
}

/// `mountos unmount --all -y --json [--force]`.
pub fn unmount_all_argv(force: bool) -> (r: Vec<String>)
    ensures
        views(r@) == all_unmount_argv(force),
{
    let mut r: Vec<String> = vec![text("unmount"), text("--all"), text("-y"), text("--json")];
    if force {
        r.push(text("--force"));
    }
    assert(views(r@) =~= all_unmount_argv(force));
    r
}

/// How a single unmount ended.
pub struct UnmountResult {
    pub state: String,
    pub target: String,
}

/// Idle once the target left the list, else still flushing to the server.
pub fn unmount_result(target: String, removed: bool) -> (r: UnmountResult)
    ensures
        r.target@ == target@,
        r.state@ == (if removed {
            "idle"@
        } else {
            "flushing"@
        }),
{
    UnmountResult { state: text(if removed { "idle" } else { "flushing" }), target }
}

/// How an unmount of every target ended.
pub struct UnmountAllResult {
    pub attempted: usize,
    /// Targets still mounted.
    pub failed: Vec<String>,
    /// Of those, the ones the CLI reported busy.
    pub busy: Vec<String>,
}

pub open spec fn failed_paths(os: Seq<OutcomeView>) -> Seq<Seq<char>> {
    os.filter(|o: OutcomeView| !is_unmounted(o)).map_values(|o: OutcomeView| o.mount_path)
}

pub open spec fn busy_paths(os: Seq<OutcomeView>) -> Seq<Seq<char>> {
    os.filter(|o: OutcomeView| o.busy).map_values(|o: OutcomeView| o.mount_path)
}

/// The targets of `before` that did unmount, which the client waits on
/// while their flush settles.
pub open spec fn settling_paths(before: Seq<Seq<char>>, failed: Seq<Seq<char>>) -> Seq<Seq<char>> {
    before.filter(|t: Seq<char>| !failed.contains(t))
}

proof fn lemma_filter_map_push(
    s: Seq<OutcomeView>,
    x: OutcomeView,
    p: spec_fn(OutcomeView) -> bool,
    f: spec_fn(OutcomeView) -> Seq<char>,
)
    ensures
        s.push(x).filter(p).map_values(f) == if p(x) {
            s.filter(p).map_values(f).push(f(x))
        } else {
            s.filter(p).map_values(f)
        },
{
    s.lemma_filter_push(x, p);
    if p(x) {
        assert(s.filter(p).push(x).map_values(f) =~= s.filter(p).map_values(f).push(f(x)));
    }
}

fn outcome_paths(outcomes: &[UnmountOutcome], want_busy: bool) -> (r: Vec<String>)
    ensures
        views(r@) == (if want_busy {
            busy_paths(outcome_views(outcomes@))
        } else {
            failed_paths(outcome_views(outcomes@))
        }),
{
    let ghost p = if want_busy {
        |o: OutcomeView| o.busy
    } else {
        |o: OutcomeView| !is_unmounted(o)
    };
    let ghost f = |o: OutcomeView| o.mount_path;
    let mut out: Vec<String> = Vec::new();
    let mut i: usize = 0;
    while i < outcomes.len()
        invariant
            i <= outcomes@.len(),
            p == (if want_busy {
                |o: OutcomeView| o.busy
            } else {
                |o: OutcomeView| !is_unmounted(o)
            }),
            f == (|o: OutcomeView| o.mount_path),
            views(out@) == outcome_views(outcomes@).take(i as int).filter(p).map_values(f),
        decreases outcomes@.len() - i,
    {
        let o = &outcomes[i];
        let keep = if want_busy {
            o.busy
        } else {
            !o.unmounted()
        };
        proof {
            let vs = outcome_views(outcomes@);
            assert(vs.take(i + 1) =~= vs.take(i as int).push(vs[i as int]));
            lemma_filter_map_push(vs.take(i as int), vs[i as int], p, f);
        }
        if keep {
            let c = o.mount_path.clone();
            proof {
                lemma_views_push(out@, c);
            }
            out.push(c);
        }
        i += 1;
    }
    assert(outcome_views(outcomes@).take(outcomes@.len() as int) =~= outcome_views(outcomes@));
    out
}

/// The targets of `before` not in `failed`.
pub fn settling_targets(before: &[String], failed: &[String]) -> (r: Vec<String>)
    ensures
        views(r@) == settling_paths(views(before@), views(failed@)),
{
    let ghost keep = |t: Seq<char>| !views(failed@).contains(t);
    let mut out: Vec<String> = Vec::new();
    let mut i: usize = 0;
    while i < before.len()
        invariant
            i <= before@.len(),
            keep == (|t: Seq<char>| !views(failed@).contains(t)),
            views(out@) == views(before@).take(i as int).filter(keep),
        decreases before@.len() - i,
    {
        let t = &before[i];
        let found = crate::terminal::strings_contain(failed, t.as_str());
        proof {
            let vs = views(before@);
            assert(vs.take(i + 1) =~= vs.take(i as int).push(vs[i as int]));
            vs.take(i as int).lemma_filter_push(vs[i as int], keep);
        }
        if !found {
            let c = t.clone();
            proof {
                lemma_views_push(out@, c);
            }
            out.push(c);
        }
        i += 1;
    }
    assert(views(before@).take(before@.len() as int) =~= views(before@));
    out
}

/// What unmounting everything reports: how many targets were mounted
/// before, which are still mounted, and which of those are busy; with the
/// targets whose flush is still to be waited on. Nothing mounted means
/// nothing attempted.
pub fn summarize_unmount_all(before: &[String], outcomes: &[UnmountOutcome]) -> (r: (UnmountAllResult, Vec<String>))
    ensures
        r.0.attempted == before@.len(),
        before@.len() == 0 ==> r.0.failed@.len() == 0 && r.0.busy@.len() == 0 && r.1@.len() == 0,
        before@.len() > 0 ==> views(r.0.failed@) == failed_paths(outcome_views(outcomes@)),
        before@.len() > 0 ==> views(r.0.busy@) == busy_paths(outcome_views(outcomes@)),
        before@.len() > 0 ==> views(r.1@) == settling_paths(views(before@), views(r.0.failed@)),
{
    if before.len() == 0 {
        return (UnmountAllResult { attempted: 0, failed: Vec::new(), busy: Vec::new() }, Vec::new());
    }
    let failed = outcome_paths(outcomes, false);
    let busy = outcome_paths(outcomes, true);
    let settling = settling_targets(before, failed.as_slice());
    (UnmountAllResult { attempted: before.len(), failed, busy }, settling)
}

/// The targets of `before` still in the mount list `after`.
pub fn remaining_targets(before: &[String], after: &[String]) -> (r: Vec<String>)
    ensures
        views(r@) == views(before@).filter(|t: Seq<char>| views(after@).contains(t)),
{
    let ghost keep = |t: Seq<char>| views(after@).contains(t);
    let mut out: Vec<String> = Vec::new();
    let mut i: usize = 0;
    while i < before.len()
        invariant
            i <= before@.len(),
            keep == (|t: Seq<char>| views(after@).contains(t)),
            views(out@) == views(before@).take(i as int).filter(keep),
        decreases before@.len() - i,
    {
        let t = &before[i];
        let found = crate::terminal::strings_contain(after, t.as_str());
        proof {
            let vs = views(before@);
            assert(vs.take(i + 1) =~= vs.take(i as int).push(vs[i as int]));
            vs.take(i as int).lemma_filter_push(vs[i as int], keep);
        }
        if found {
            let c = t.clone();
            proof {
                lemma_views_push(out@, c);
            }
            out.push(c);
        }
        i += 1;
    }
    assert(views(before@).take(before@.len() as int) =~= views(before@));
    out
}

} // verus!
