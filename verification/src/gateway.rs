//! Gateway launches: the pid a launch reports, the pids this client may
//! stop, and the checks a launch request passes.
use vstd::prelude::*;

use std::collections::HashSet;
use std::hash::BuildHasher;

use crate::error::{fail, fail3, fails_with, DesktopError};
use crate::instances::{endpoint_views, EndpointView, GatewayEndpointInfo};
use crate::text::{
    ascii_lower, ascii_lowercase, chars_of, contains, contains_str, decimal, decimal_string,
    digits_value, find, find_chars, hex_fixed, hex_string, join, join_strings, leading_digits,
    parse_leading_u64, text, trim, trim_str, views,
};

verus! {

pub open spec fn pid_marker() -> Seq<char> {
    "started with PID: "@
}

/// The pid in the first "started with PID: <digits>" line of a daemon's
/// stdout, when the digits are there and fit a `u32`.
pub open spec fn started_pid(s: Seq<char>) -> Option<u32> {
    match find(s, pid_marker()) {
        None => None,
        Some(i) => {
            let digits = leading_digits(s.subrange(i + pid_marker().len(), s.len() as int));
            if digits.len() == 0 || digits_value(digits) > u32::MAX {
                None
            } else {
                Some(digits_value(digits) as u32)
            }
        },
    }
}

pub fn parse_started_pid(text: &str) -> (r: Option<u32>)
    ensures
        r == started_pid(text@),
{
    let s = chars_of(text);
    let marker = chars_of("started with PID: ");
    let idx = match find_chars(&s, &marker, 0) {
        Some(i) => i,
        None => return None,
    };
    proof {
        crate::text::lemma_find_bounds(s@, marker@, 0, idx as int);
    }
    assert(idx + marker@.len() <= s@.len());
    assert(s@.len() == s.len() && marker@.len() == marker.len());
    let start = idx + marker.len();
    let (end, value) = parse_leading_u64(&s, start);
    if end == start {
        assert(s@.subrange(start as int, end as int).len() == 0);
        return None;
    }
    match value {
        Some(v) => if v <= 4294967295 {
            Some(v as u32)
        } else {
            None
        },
        None => None,
    }
}

/// The gateway pids this client discovered from its own launches; the
/// only ones it will stop.
pub struct KnownGatewayPids {
    pids: HashSet<u32>,
}

impl View for KnownGatewayPids {
    type V = Set<u32>;

    closed spec fn view(&self) -> Set<u32> {
        self.pids@
    }
}

/// An empty set of known gateway pids.
pub fn known_gateway_pids() -> (r: KnownGatewayPids)
    ensures
        r@ == Set::<u32>::empty(),
{
    KnownGatewayPids { pids: HashSet::new() }
}

impl KnownGatewayPids {
    pub fn contains(&self, pid: u32) -> (r: bool)
        ensures
            r == self@.contains(pid),
    {
        broadcast use vstd::std_specs::hash::group_hash_axioms;

        self.pids.contains(&pid)
    }

    /// Records a pid discovered from a launch.
    pub fn insert(&mut self, pid: u32)
        ensures
            final(self)@ == old(self)@.insert(pid),
    {
        broadcast use vstd::std_specs::hash::group_hash_axioms;

        self.pids.insert(pid);
    }

    /// Forgets a pid.
    pub fn remove(&mut self, pid: u32)
        ensures
            final(self)@ == old(self)@.remove(pid),
    {
        broadcast use vstd::std_specs::hash::group_hash_axioms;

        self.pids.remove(&pid);
    }

    /// The pids, for checking which are still running.
    pub fn pids(&self) -> (r: Vec<u32>)
        ensures
            r@.to_set() == self@,
    {
        broadcast use vstd::std_specs::hash::group_hash_axioms;

        let mut out: Vec<u32> = Vec::new();
        let iter = self.pids.iter();
        let ghost keys = vstd::std_specs::iter::IteratorSpec::remaining(&iter);
        for p in it: iter
            invariant
                it.seq() == keys,
                out@ == keys.take(it.index()).unref(),
        {
            proof {
                assert(keys.take(it.index() + 1) =~= keys.take(it.index()).push(p));
            }
            out.push(*p);
            assert(out@ =~= keys.take(it.index() + 1).unref());
        }
        assert(keys.take(keys.len() as int) =~= keys);
        assert(out@ =~= keys.unref());
        out
    }
}

/// Forgets every pid whose process has exited.
pub fn reconcile_known_gateway_pids(known: &mut KnownGatewayPids, exited: &[u32])
    ensures
        final(known)@ == old(known)@.difference(exited@.to_set()),
{
    let mut i: usize = 0;
    assert(exited@.take(0).to_set() =~= Set::<u32>::empty());
    assert(known@ =~= old(known)@.difference(exited@.take(0).to_set()));
    while i < exited.len()
        invariant
            i <= exited@.len(),
            known@ == old(known)@.difference(exited@.take(i as int).to_set()),
        decreases exited@.len() - i,
    {
        let e = exited[i];
        known.remove(e);
        proof {
            assert(exited@.take(i + 1) =~= exited@.take(i as int).push(e));
            assert forall|y: u32| #[trigger] exited@.take(i + 1).contains(y) <==> (exited@.take(
                i as int,
            ).contains(y) || y == e) by {
                lemma_push_contains(exited@.take(i as int), e, y);
            }
        }
        i += 1;
        assert(known@ =~= old(known)@.difference(exited@.take(i as int).to_set()));
    }
    assert(exited@.take(exited@.len() as int) =~= exited@);
}

proof fn lemma_push_contains(s: Seq<u32>, v: u32, x: u32)
    ensures
        s.push(v).contains(x) <==> (s.contains(x) || x == v),
{
    if s.push(v).contains(x) {
        let k = choose|k: int| 0 <= k < s.len() + 1 && #[trigger] s.push(v)[k] == x;
        if k < s.len() {
            assert(s[k] == x);
        }
    }
    if s.contains(x) {
        let k = choose|k: int| 0 <= k < s.len() && #[trigger] s[k] == x;
        assert(s.push(v)[k] == x);
    }
    if x == v {
        assert(s.push(v)[s.len() as int] == v);
    }
}

/// The known pids once a launch printed `stdout`: the pid it reports, if
/// any, joins them.
pub open spec fn after_launch(known: Set<u32>, stdout: Seq<char>) -> Set<u32> {
    match started_pid(stdout) {
        Some(p) => known.insert(p),
        None => known,
    }
}

/// Every pid the launches that printed `outputs` reported.
pub open spec fn reported_pids(outputs: Seq<Seq<char>>) -> Set<u32>
    decreases outputs.len(),
{
    if outputs.len() == 0 {
        Set::empty()
    } else {
        after_launch(reported_pids(outputs.drop_last()), outputs.last())
    }
}

proof fn lemma_reported_pid_has_launch(outputs: Seq<Seq<char>>, pid: u32)
    requires
        reported_pids(outputs).contains(pid),
    ensures
        exists|i: int| 0 <= i < outputs.len() && started_pid(#[trigger] outputs[i]) == Some(pid),
    decreases outputs.len(),
{
    if outputs.len() > 0 {
        let rest = outputs.drop_last();
        if started_pid(outputs.last()) == Some(pid) {
            assert(started_pid(outputs[outputs.len() - 1]) == Some(pid));
        } else {
            lemma_reported_pid_has_launch(rest, pid);
            let i = choose|i: int| 0 <= i < rest.len() && started_pid(#[trigger] rest[i]) == Some(pid);
            assert(outputs[i] == rest[i]);
        }
    }
}

/// The pids this client will stop only ever come from its own launches:
/// starting from none, recording a launch's stdout and forgetting pids
/// (reconciling with the exited ones, or after a stop) keep every known
/// pid one that some launch's stdout reported.
pub proof fn known_pids_come_from_launches(
    known: Set<u32>,
    outputs: Seq<Seq<char>>,
    stdout: Seq<char>,
    exited: Set<u32>,
    pid: u32,
)
    requires
        known.subset_of(reported_pids(outputs)),
    ensures
        Set::<u32>::empty().subset_of(reported_pids(Seq::empty())),
        after_launch(known, stdout).subset_of(reported_pids(outputs.push(stdout))),
        known.difference(exited).subset_of(reported_pids(outputs)),
        known.remove(pid).subset_of(reported_pids(outputs)),
        known.contains(pid) ==> exists|i: int|
            0 <= i < outputs.len() && started_pid(#[trigger] outputs[i]) == Some(pid),
{
    assert(outputs.push(stdout).drop_last() =~= outputs);
    if known.contains(pid) {
        lemma_reported_pid_has_launch(outputs, pid);
    }
}

/// Records the pid a gateway launch printed, making it stoppable.
pub fn record_gateway_launch(known: &mut KnownGatewayPids, stdout_text: &str) -> (r: Option<u32>)
    ensures
        r == started_pid(stdout_text@),
        final(known)@ == after_launch(old(known)@, stdout_text@),
{
    let pid = parse_started_pid(stdout_text);
    match pid {
        Some(p) => known.insert(p),
        None => {},
    }
    pid
}

/// What a gateway launch reports: how it ended, the pid it printed, and
/// the endpoints its descriptor lists.
pub struct GatewayLaunchResult {
    pub state: String,
    pub pid: Option<u32>,
    pub endpoints: Vec<GatewayEndpointInfo>,
}

/// The refusal `stop_gateway` gives a pid this client never launched.
pub fn stop_gateway_precheck(known: &KnownGatewayPids, pid: u32) -> (r: Result<(), DesktopError>)
    ensures
        r is Ok <==> known@.contains(pid),
        r is Err ==> fails_with(
            r,
            "PID "@ + decimal(pid as nat)
                + " was not discovered by this app's own gateway launch -- refusing to stop it"@,
        ),
{
    if known.contains(pid) {
        Ok(())
    } else {
        Err(
            fail3(
                "PID ",
                decimal_string(pid as u64).as_str(),
                " was not discovered by this app's own gateway launch -- refusing to stop it",
            ),
        )
    }
}

/// A known pid no longer runs a mountos process: it is forgotten.
pub fn stop_gateway_gone(known: &mut KnownGatewayPids, pid: u32) -> (r: DesktopError)
    ensures
        final(known)@ == old(known)@.remove(pid),
        r matches DesktopError::Message(m) && m@ == "no running mountos process at PID "@ + decimal(
            pid as nat,
        ) + " -- it may have already exited"@,
{
    known.remove(pid);
    fail3(
        "no running mountos process at PID ",
        decimal_string(pid as u64).as_str(),
        " -- it may have already exited",
    )
}

/// After the stop signal was sent: the pid is forgotten either way, and
/// the stop fails when the signal did.
pub fn stop_gateway_finish(known: &mut KnownGatewayPids, pid: u32, success: bool, status_text: &str) -> (r: Result<(), DesktopError>)
    ensures
        final(known)@ == old(known)@.remove(pid),
        success ==> r is Ok,
        !success ==> fails_with(
            r,
            "failed to stop gateway process "@ + decimal(pid as nat) + " (exit "@ + status_text@ + ")"@,
        ),
{
    known.remove(pid);
    if success {
        Ok(())
    } else {
        let mut m = text("failed to stop gateway process ");
        m.append(decimal_string(pid as u64).as_str());
        m.append(" (exit ");
        m.append(status_text);
        m.append(")");
        Err(DesktopError::Message(m))
    }
}

/// Whether a process listing names a mountos-family process.
pub open spec fn names_mountos(listing: Seq<char>) -> bool {
    contains(ascii_lower(listing), "mountos"@) || contains(ascii_lower(listing), "mfuse"@)
}

pub fn comm_is_mountos(listing: &str) -> (r: bool)
    ensures
        r == names_mountos(listing@),
{
    let l = ascii_lowercase(listing);
    contains_str(l.as_str(), "mountos") || contains_str(l.as_str(), "mfuse")
}

/// A descriptor file is trusted only when the pid it records is the pid it
/// was looked up under.
pub fn descriptor_matches_pid(recorded: i64, pid: u32) -> (r: bool)
    ensures
        r == (recorded == pid as int),
{
    recorded == pid as i64
}

/// One endpoint as a gateway descriptor records it.
pub struct DescriptorEndpoint {
    pub protocol: String,
    pub url: String,
    pub region: String,
}

pub open spec fn descriptor_endpoint_view(e: DescriptorEndpoint) -> EndpointView {
    EndpointView {
        protocol: e.protocol@,
        url: e.url@,
        region: if e.region@.len() == 0 {
            None
        } else {
            Some(e.region@)
        },
    }
}

/// The endpoints a launch reports from its descriptor; an empty region is none.
pub fn endpoints_from_descriptor(entries: Vec<DescriptorEndpoint>) -> (r: Vec<GatewayEndpointInfo>)
    ensures
        endpoint_views(r@) == entries@.map_values(|e: DescriptorEndpoint| descriptor_endpoint_view(e)),
{
    let mut out: Vec<GatewayEndpointInfo> = Vec::new();
    let mut i: usize = 0;
    while i < entries.len()
        invariant
            i <= entries@.len(),
            endpoint_views(out@) == entries@.take(i as int).map_values(
                |e: DescriptorEndpoint| descriptor_endpoint_view(e),
            ),
        decreases entries@.len() - i,
    {
        let e = &entries[i];
        let region = if e.region.as_str().is_empty() {
            None
        } else {
            Some(e.region.clone())
        };
        let info = GatewayEndpointInfo { protocol: e.protocol.clone(), url: e.url.clone(), region };
        let ghost before = endpoint_views(out@);
        out.push(info);
        assert(endpoint_views(out@) =~= before.push(descriptor_endpoint_view(entries@[i as int])));
        assert(entries@.take(i + 1) =~= entries@.take(i as int).push(entries@[i as int]));
        i += 1;
    }
    assert(entries@.take(entries@.len() as int) =~= entries@);
    out
}

pub open spec fn blank(o: Option<Seq<char>>) -> bool {
    match o {
        Some(s) => trim(s).len() == 0,
        None => true,
    }
}

/// Why a gateway launch request is refused before anything runs, if it is.
pub open spec fn gateway_request_problem(
    protocols: Seq<Seq<char>>,
    no_loopback: bool,
    cert: Option<Seq<char>>,
    key: Option<Seq<char>>,
) -> Option<Seq<char>> {
    if protocols.len() == 0 {
        Some("select at least one gateway protocol (S3 and/or HDFS)"@)
    } else if no_loopback && (blank(cert) || blank(key)) {
        Some(
            "binding on all interfaces (--gateway-no-loopback) requires a TLS certificate and key"@,
        )
    } else {
        None
    }
}

fn is_blank(o: Option<&str>) -> (r: bool)
    ensures
        r == blank(crate::argv::str_opt_view(o)),
{
    match o {
        Some(s) => trim_str(s).as_str().is_empty(),
        None => true,
    }
}

/// A gateway needs at least one protocol, and binding beyond loopback
/// needs both a TLS certificate and key.
pub fn validate_gateway_request(
    protocols: &[String],
    no_loopback: bool,
    cert_path: Option<&str>,
    key_path: Option<&str>,
) -> (r: Result<(), DesktopError>)
    ensures
        r is Ok <==> gateway_request_problem(
            views(protocols@),
            no_loopback,
            crate::argv::str_opt_view(cert_path),
            crate::argv::str_opt_view(key_path),
        ) is None,
        gateway_request_problem(
            views(protocols@),
            no_loopback,
            crate::argv::str_opt_view(cert_path),
            crate::argv::str_opt_view(key_path),
        ) matches Some(m) ==> fails_with(r, m),
{
    if protocols.len() == 0 {
        return Err(fail("select at least one gateway protocol (S3 and/or HDFS)"));
    }
    if no_loopback && (is_blank(cert_path) || is_blank(key_path)) {
        return Err(
            fail(
                "binding on all interfaces (--gateway-no-loopback) requires a TLS certificate and key",
            ),
        );
    }
    Ok(())
}

/// A mount plus gateway needs a mount path.
pub fn require_combo_mount_path(mount_path: &str) -> (r: Result<(), DesktopError>)
    ensures
        r is Ok <==> mount_path@.len() > 0,
        r is Err ==> fails_with(
            r,
            "mount path is required for a mount+gateway combo; enable gateway-only if this profile doesn't need a FUSE mount"@,
        ),
{
    if mount_path.is_empty() {
        Err(
            fail(
                "mount path is required for a mount+gateway combo; enable gateway-only if this profile doesn't need a FUSE mount",
            ),
        )
    } else {
        Ok(())
    }
}

/// What `DefaultHasher` computes for the string: `str`'s `Hash` fed to a
/// fresh `DefaultHasher`, then `finish`.
pub uninterp spec fn default_hash(s: Seq<char>) -> u64;

/// `BuildHasherDefault::<DefaultHasher>::default().hash_one(input)`, the
/// same value as hashing `input` into `DefaultHasher::new()` and finishing.
#[verifier::external_body]
fn default_hasher_hash(input: &str) -> (r: u64)
    ensures
        r == default_hash(input@),
{
    std::hash::BuildHasherDefault::<std::collections::hash_map::DefaultHasher>::default().hash_one(
        input,
    )
}

/// A short, stable, non-cryptographic name for a string: the 16 lower-case
/// hex digits of its default hash.
pub fn short_hash(input: &str) -> (r: String)
    ensures
        r@ == hex_fixed(default_hash(input@) as nat, 16),
{
    hex_string(default_hasher_hash(input), 16)
}

/// What a gateway launch's log file names are keyed by.
pub open spec fn gateway_log_key(gateway_only: bool, protocols: Seq<Seq<char>>) -> Seq<char> {
    (if gateway_only {
        "true"@
    } else {
        "false"@
    }) + "-"@ + join(protocols, ","@)
}

pub fn gateway_log_suffix(gateway_only: bool, protocols: &[String]) -> (r: String)
    ensures
        r@ == hex_fixed(default_hash(gateway_log_key(gateway_only, views(protocols@))) as nat, 16),
{
    let mut key = text(if gateway_only { "true" } else { "false" });
    key.append("-");
    key.append(join_strings(protocols, ",").as_str());
    short_hash(key.as_str())
}

} // verus!
