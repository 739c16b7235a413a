//! Running mounts and gateways from `mountos list --json`.
use vstd::prelude::*;

use crate::error::{fails_with, DesktopError};
use crate::json::{bool_at, jarray, jget, jobject, ju64, opt_str, str_at, Json, JsonView};
use crate::profile::opt_view;
use crate::text::{lossy_text, text, trim, trim_str, utf8_lossy, views};

verus! {

/// One endpoint a gateway serves.
pub struct GatewayEndpointInfo {
    pub protocol: String,
    pub url: String,
    pub region: Option<String>,
}

pub struct EndpointView {
    pub protocol: Seq<char>,
    pub url: Seq<char>,
    pub region: Option<Seq<char>>,
}

impl View for GatewayEndpointInfo {
    type V = EndpointView;

    open spec fn view(&self) -> EndpointView {
        EndpointView { protocol: self.protocol@, url: self.url@, region: opt_view(self.region) }
    }
}

pub open spec fn endpoint_views(v: Seq<GatewayEndpointInfo>) -> Seq<EndpointView> {
    v.map_values(|e: GatewayEndpointInfo| e@)
}

/// A mount or gateway the CLI reports as running.
pub struct MountInstance {
    pub key: String,
    pub name: String,
    pub mount_path: String,
    pub fs_name: Option<String>,
    pub backend: Option<String>,
    pub view_mode: Option<String>,
    pub volume_identifier: Option<String>,
    pub volume_id: Option<u32>,
    pub unc_path: Option<String>,
    pub version_inode: Option<String>,
    pub orphaned: Option<bool>,
    /// "mount" or "gateway"; a gateway has no mount path, backend or fs name.
    pub kind: Option<String>,
    pub gateway_endpoints: Option<Vec<GatewayEndpointInfo>>,
    pub mount_time: Option<String>,
    pub volume_kind: Option<String>,
    pub temporary_fork: Option<bool>,
    /// No saved profile mounts at this path.
    pub external: bool,
    pub profile_id: Option<String>,
    pub health: String,
}

pub struct InstanceView {
    pub key: Seq<char>,
    pub name: Seq<char>,
    pub mount_path: Seq<char>,
    pub fs_name: Option<Seq<char>>,
    pub backend: Option<Seq<char>>,
    pub view_mode: Option<Seq<char>>,
    pub volume_identifier: Option<Seq<char>>,
    pub volume_id: Option<u32>,
    pub unc_path: Option<Seq<char>>,
    pub version_inode: Option<Seq<char>>,
    pub orphaned: Option<bool>,
    pub kind: Option<Seq<char>>,
    pub gateway_endpoints: Option<Seq<EndpointView>>,
    pub mount_time: Option<Seq<char>>,
    pub volume_kind: Option<Seq<char>>,
    pub temporary_fork: Option<bool>,
    pub external: bool,
    pub profile_id: Option<Seq<char>>,
    pub health: Seq<char>,
}

pub open spec fn opt_endpoints(o: Option<Vec<GatewayEndpointInfo>>) -> Option<Seq<EndpointView>> {
    match o {
        Some(v) => Some(endpoint_views(v@)),
        None => None,
    }
}

impl View for MountInstance {
    type V = InstanceView;

    open spec fn view(&self) -> InstanceView {
        InstanceView {
            key: self.key@,
            name: self.name@,
            mount_path: self.mount_path@,
            fs_name: opt_view(self.fs_name),
            backend: opt_view(self.backend),
            view_mode: opt_view(self.view_mode),
            volume_identifier: opt_view(self.volume_identifier),
            volume_id: self.volume_id,
            unc_path: opt_view(self.unc_path),
            version_inode: opt_view(self.version_inode),
            orphaned: self.orphaned,
            kind: opt_view(self.kind),
            gateway_endpoints: opt_endpoints(self.gateway_endpoints),
            mount_time: opt_view(self.mount_time),
            volume_kind: opt_view(self.volume_kind),
            temporary_fork: self.temporary_fork,
            external: self.external,
            profile_id: opt_view(self.profile_id),
            health: self.health@,
        }
    }
}

pub open spec fn instance_views(v: Seq<MountInstance>) -> Seq<InstanceView> {
    v.map_values(|i: MountInstance| i@)
}

/// The entries of a list document: a top-level array, or the array under `mounts`.
pub open spec fn list_entries(v: JsonView) -> Seq<JsonView> {
    match v {
        JsonView::Array(items) => items,
        _ => match jarray(jget(v, "mounts"@)) {
            Some(items) => items,
            None => Seq::empty(),
        },
    }
}

/// The endpoints among the first `n` members of a `gatewayEndpoints`
/// object: those with a string `url`.
pub open spec fn endpoints_upto(eps: Seq<(Seq<char>, JsonView)>, n: int) -> Seq<EndpointView>
    decreases n,
{
    if n <= 0 {
        Seq::empty()
    } else {
        endpoints_upto(eps, n - 1) + match str_at(eps[n - 1].1, "url"@) {
            Some(url) => seq![
                EndpointView {
                    protocol: eps[n - 1].0,
                    url,
                    region: str_at(eps[n - 1].1, "region"@),
                },
            ],
            None => Seq::empty(),
        }
    }
}

pub open spec fn gateway_endpoints_of(entry: JsonView) -> Option<Seq<EndpointView>> {
    match jobject(jget(entry, "gatewayEndpoints"@)) {
        Some(eps) => {
            let found = endpoints_upto(eps, eps.len() as int);
            if found.len() > 0 {
                Some(found)
            } else {
                None
            }
        },
        None => None,
    }
}

pub open spec fn or_empty(o: Option<Seq<char>>) -> Seq<char> {
    match o {
        Some(s) => s,
        None => Seq::empty(),
    }
}

pub open spec fn small_id(o: Option<u64>) -> Option<u32> {
    match o {
        Some(n) => if n <= u32::MAX {
            Some(n as u32)
        } else {
            None
        },
        None => None,
    }
}

/// The instance one list entry describes, before it is matched to a profile.
pub open spec fn instance_of(entry: JsonView) -> InstanceView {
    let mount_path = or_empty(str_at(entry, "mountPath"@));
    let orphaned = bool_at(entry, "orphaned"@);
    InstanceView {
        key: if mount_path.len() == 0 {
            or_empty(str_at(entry, "volumeIdentifier"@))
        } else {
            mount_path
        },
        name: match str_at(entry, "name"@) {
            Some(n) => n,
            None => "mountOS volume"@,
        },
        mount_path,
        fs_name: str_at(entry, "fsName"@),
        backend: str_at(entry, "backend"@),
        view_mode: str_at(entry, "viewMode"@),
        volume_identifier: str_at(entry, "volumeIdentifier"@),
        volume_id: small_id(ju64(jget(entry, "volumeId"@))),
        unc_path: str_at(entry, "uncPath"@),
        version_inode: str_at(entry, "versionInode"@),
        orphaned,
        kind: str_at(entry, "kind"@),
        gateway_endpoints: gateway_endpoints_of(entry),
        mount_time: None,
        volume_kind: None,
        temporary_fork: None,
        external: true,
        profile_id: None,
        health: if orphaned == Some(true) {
            "lost"@
        } else {
            "healthy"@
        },
    }
}

/// A listed mount is "lost" exactly when its entry says `"orphaned": true`;
/// one whose `orphaned` is false, missing or not a boolean is "healthy".
pub proof fn health_follows_orphaned(entry: JsonView)
    ensures
        instance_of(entry).health == "lost"@ <==> bool_at(entry, "orphaned"@) == Some(true),
        instance_of(entry).health == "lost"@ || instance_of(entry).health == "healthy"@,
        bool_at(entry, "orphaned"@) == Some(false) ==> instance_of(entry).health == "healthy"@,
        bool_at(entry, "orphaned"@) is None ==> instance_of(entry).health == "healthy"@,
{
    reveal_strlit("lost");
    reveal_strlit("healthy");
    assert("lost"@ != "healthy"@) by {
        assert("lost"@.len() != "healthy"@.len());
    }
}

/// Over a whole `mountos list --json` document, as `parse_instances_value`
/// reads it: the instance at each position is "lost" exactly when the list
/// entry at that position says `"orphaned": true`.
pub proof fn listed_health_follows_orphaned(value: JsonView, i: int)
    requires
        0 <= i < list_entries(value).len(),
    ensures
        list_entries(value).map_values(|e: JsonView| instance_of(e))[i].health == "lost"@
            <==> bool_at(list_entries(value)[i], "orphaned"@) == Some(true),
{
    health_follows_orphaned(list_entries(value)[i]);
}

fn copy_str(o: Option<&str>) -> (r: Option<String>)
    ensures
        opt_view(r) == opt_str(o),
{
    match o {
        Some(s) => Some(text(s)),
        None => None,
    }
}

fn entries_of(value: &Json) -> (r: Option<&Vec<Json>>)
    ensures
        match r {
            Some(items) => list_entries(value@) == Seq::new(items@.len(), |i: int| items@[i]@),
            None => list_entries(value@) == Seq::<JsonView>::empty(),
        },
{
    match value.as_array() {
        Some(items) => Some(items),
        None => match value.get("mounts") {
            Some(m) => m.as_array(),
            None => None,
        },
    }
}

fn endpoints_from(entry: &Json) -> (r: Option<Vec<GatewayEndpointInfo>>)
    ensures
        opt_endpoints(r) == gateway_endpoints_of(entry@),
{
    let eps = match entry.get("gatewayEndpoints") {
        Some(g) => match g.as_object() {
            Some(eps) => eps,
            None => return None,
        },
        None => return None,
    };
    let ghost ev = jobject(jget(entry@, "gatewayEndpoints"@)).unwrap();
    let mut found: Vec<GatewayEndpointInfo> = Vec::new();
    let mut i: usize = 0;
    while i < eps.len()
        invariant
            ev == Seq::new(eps@.len(), |k: int| (eps@[k].0@, eps@[k].1@)),
            i <= eps@.len(),
            endpoint_views(found@) == endpoints_upto(ev, i as int),
        decreases eps@.len() - i,
    {
        assert(ev[i as int] == (eps@[i as int].0@, eps@[i as int].1@));
        match eps[i].1.str_at("url") {
            Some(url) => {
                let e = GatewayEndpointInfo {
                    protocol: eps[i].0.clone(),
                    url: text(url),
                    region: copy_str(eps[i].1.str_at("region")),
                };
                found.push(e);
            },
            None => {},
        }
        assert(endpoint_views(found@) =~= endpoints_upto(ev, i + 1));
        i += 1;
    }
    if found.len() > 0 {
        Some(found)
    } else {
        None
    }
}

fn instance_from(entry: &Json) -> (r: MountInstance)
    ensures
        r@ == instance_of(entry@),
{
    let mount_path = match entry.str_at("mountPath") {
        Some(s) => text(s),
        None => String::new(),
    };
    let volume_identifier = copy_str(entry.str_at("volumeIdentifier"));
    let orphaned = entry.bool_at("orphaned");
    let key = if mount_path.as_str().is_empty() {
        match &volume_identifier {
            Some(v) => v.clone(),
            None => String::new(),
        }
    } else {
        mount_path.clone()
    };
    let volume_id = match entry.get("volumeId") {
        Some(n) => match n.as_u64() {
            Some(v) => if v <= 4294967295 {
                Some(v as u32)
            } else {
                None
            },
            None => None,
        },
        None => None,
    };
    let health = match orphaned {
        Some(true) => text("lost"),
        _ => text("healthy"),
    };
    MountInstance {
        key,
        name: match entry.str_at("name") {
            Some(n) => text(n),
            None => text("mountOS volume"),
        },
        mount_path,
        fs_name: copy_str(entry.str_at("fsName")),
        backend: copy_str(entry.str_at("backend")),
        view_mode: copy_str(entry.str_at("viewMode")),
        volume_identifier,
        volume_id,
        unc_path: copy_str(entry.str_at("uncPath")),
        version_inode: copy_str(entry.str_at("versionInode")),
        orphaned,
        kind: copy_str(entry.str_at("kind")),
        gateway_endpoints: endpoints_from(entry),
        mount_time: None,
        volume_kind: None,
        temporary_fork: None,
        external: true,
        profile_id: None,
        health,
    }
}

/// The instances a list document describes, in order. Each starts out
/// external and unmatched; profile matching and the per-mount config come later.
pub fn parse_instances_value(value: &Json) -> (r: Vec<MountInstance>)
    ensures
        instance_views(r@) == list_entries(value@).map_values(|e: JsonView| instance_of(e)),
{
    let mut out: Vec<MountInstance> = Vec::new();
    match entries_of(value) {
        Some(items) => {
            let ghost es = list_entries(value@);
            let mut i: usize = 0;
            while i < items.len()
                invariant
                    es == Seq::new(items@.len(), |k: int| items@[k]@),
                    i <= items@.len(),
                    instance_views(out@) == es.take(i as int).map_values(
                        |e: JsonView| instance_of(e),
                    ),
                decreases items@.len() - i,
            {
                assert(es[i as int] == items@[i as int]@);
                let inst = instance_from(&items[i]);
                let ghost before = instance_views(out@);
                out.push(inst);
                assert(instance_views(out@) =~= before.push(instance_of(es[i as int])));
                assert(es.take(i + 1) =~= es.take(i as int).push(es[i as int]));
                i += 1;
                assert(instance_views(out@) =~= es.take(i as int).map_values(
                    |e: JsonView| instance_of(e),
                ));
            }
            assert(es.take(items@.len() as int) =~= es);
        },
        None => {},
    }
    assert(instance_views(out@) =~= list_entries(value@).map_values(|e: JsonView| instance_of(e)));
    out
}

/// The `mountPath` strings of a list document's entries, in order.
pub open spec fn mount_paths_upto(es: Seq<JsonView>, n: int) -> Seq<Seq<char>>
    decreases n,
{
    if n <= 0 {
        Seq::empty()
    } else {
        mount_paths_upto(es, n - 1) + match str_at(es[n - 1], "mountPath"@) {
            Some(p) => seq![p],
            None => Seq::empty(),
        }
    }
}

pub open spec fn mount_paths(v: JsonView) -> Seq<Seq<char>> {
    mount_paths_upto(list_entries(v), list_entries(v).len() as int)
}

/// The mount paths of a list document's entries that have one.
pub fn list_mount_paths(value: &Json) -> (r: Vec<String>)
    ensures
        views(r@) == mount_paths(value@),
{
    let mut out: Vec<String> = Vec::new();
    match entries_of(value) {
        Some(items) => {
            let ghost es = list_entries(value@);
            let mut i: usize = 0;
            while i < items.len()
                invariant
                    es == Seq::new(items@.len(), |k: int| items@[k]@),
                    i <= items@.len(),
                    views(out@) == mount_paths_upto(es, i as int),
                decreases items@.len() - i,
            {
                assert(es[i as int] == items@[i as int]@);
                match items[i].str_at("mountPath") {
                    Some(p) => {
                        let t = text(p);
                        proof {
                            crate::argv::lemma_views_push(out@, t);
                        }
                        out.push(t);
                    },
                    None => {},
                }
                i += 1;
                assert(views(out@) =~= mount_paths_upto(es, i as int));
            }
        },
        None => {
            assert(views(out@) =~= mount_paths(value@));
        },
    }
    out
}

/// The error a failed `mountos list` reports: its trimmed stderr.
pub open spec fn list_failed_message(stderr: Seq<u8>) -> Seq<char> {
    "mountos list failed: "@ + trim(utf8_lossy(stderr))
}

/// The instances of a `mountos list --json` run: `success` is its exit
/// status, `parsed_stdout` its stdout parsed as JSON (or the parser's message).
pub fn parse_instances(success: bool, stderr: &[u8], parsed_stdout: Result<Json, String>) -> (r:
    Result<Vec<MountInstance>, DesktopError>)
    ensures
        !success ==> fails_with(r, list_failed_message(stderr@)),
        success ==> match parsed_stdout {
            Ok(v) => r matches Ok(is) && instance_views(is@) == list_entries(v@).map_values(
                |e: JsonView| instance_of(e),
            ),
            Err(e) => r matches Err(DesktopError::Json(m)) && m@ == e@,
        },
{
    if !success {
        let mut m = text("mountos list failed: ");
        m.append(trim_str(lossy_text(stderr).as_str()).as_str());
        return Err(DesktopError::Message(m));
    }
    match parsed_stdout {
        Ok(v) => Ok(parse_instances_value(&v)),
        Err(e) => Err(DesktopError::Json(e)),
    }
}

/// The mount paths of a `mountos list --json` run, as `parse_instances`
/// reads it.
pub fn list_active_targets(success: bool, stderr: &[u8], parsed_stdout: Result<Json, String>) -> (r:
    Result<Vec<String>, DesktopError>)
    ensures
        !success ==> fails_with(r, list_failed_message(stderr@)),
        success ==> match parsed_stdout {
            Ok(v) => r matches Ok(ps) && views(ps@) == mount_paths(v@),
            Err(e) => r matches Err(DesktopError::Json(m)) && m@ == e@,
        },
{
    if !success {
        let mut m = text("mountos list failed: ");
        m.append(trim_str(lossy_text(stderr).as_str()).as_str());
        return Err(DesktopError::Message(m));
    }
    match parsed_stdout {
        Ok(v) => Ok(list_mount_paths(&v)),
        Err(e) => Err(DesktopError::Json(e)),
    }
}

/// What the per-mount `.mountOS/.config` adds to a listed instance.
pub struct InstanceConfigExtras {
    pub mount_time: Option<String>,
    pub volume_kind: Option<String>,
    pub temporary_fork: Option<bool>,
}

/// The extras of a mount's parsed config file; nothing when it could not
/// be read or parsed.
pub fn read_instance_config_extras(config: Option<&Json>) -> (r: InstanceConfigExtras)
    ensures
        match config {
            Some(c) => opt_view(r.mount_time) == str_at(c@, "mountTime"@) && opt_view(r.volume_kind)
                == str_at(c@, "volumeType"@) && r.temporary_fork == bool_at(
                c@,
                "isTemporaryFork"@,
            ),
            None => r.mount_time is None && r.volume_kind is None && r.temporary_fork is None,
        },
{
    match config {
        Some(c) => InstanceConfigExtras {
            mount_time: copy_str(c.str_at("mountTime")),
            volume_kind: copy_str(c.str_at("volumeType")),
            temporary_fork: c.bool_at("isTemporaryFork"),
        },
        None => InstanceConfigExtras { mount_time: None, volume_kind: None, temporary_fork: None },
    }
}

} // verus!
