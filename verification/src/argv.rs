//! The `mountos` command lines the client runs for a profile: mounts,
//! snapshot/deleted/version views, fork commands and gateways.
use vstd::prelude::*;

use crate::profile::{opt_view, Backend, MountProfile, ProfileView};
use crate::text::{
    all_digits, decimal, decimal_string, digit_char, is_digit, join, join_strings,
    same_text, text, trim, trim_str, views, zero_pad, zero_padded,
};

verus! {

pub proof fn lemma_views_push(v: Seq<String>, x: String)
    ensures
        views(v.push(x)) == views(v).push(x@),
{
    assert(views(v.push(x)) =~= views(v).push(x@));
}

/// `flag value`, when the value is not empty.
pub open spec fn flag_pair(flag: Seq<char>, value: Seq<char>) -> Seq<Seq<char>> {
    if value.len() > 0 {
        seq![flag, value]
    } else {
        Seq::empty()
    }
}

/// `-a <access key id> -s` when the profile has an access key id; the secret
/// itself is piped on stdin, never put on the command line.
pub open spec fn credential_flags(p: ProfileView) -> Seq<Seq<char>> {
    if p.access_key_id.len() > 0 {
        seq!["-a"@, p.access_key_id, "-s"@]
    } else {
        Seq::empty()
    }
}

pub open spec fn cache_dir_flags(p: ProfileView) -> Seq<Seq<char>> {
    match p.cache_dir {
        Some(c) => flag_pair("--disk-cache-dir"@, c),
        None => Seq::empty(),
    }
}

/// The cache directory and the extra arguments, which every launch carries.
pub open spec fn cache_and_extra_flags(p: ProfileView) -> Seq<Seq<char>> {
    cache_dir_flags(p) + p.extra_args
}

pub open spec fn backend_flags(b: Backend) -> Seq<Seq<char>> {
    match b {
        Backend::Auto => Seq::empty(),
        Backend::Macfuse => seq!["--macfuse"@],
        Backend::Fskit => seq!["--fskit"@],
        Backend::Nfs => seq!["--nfs"@],
        Backend::Smb => seq!["--smb"@],
        Backend::Mountosio => seq!["--backend"@, "mountosio"@],
    }
}

/// The backend flag of a mount command line names the backend: each of
/// macFUSE, FSKit, NFS and SMB is selected by `--` and its stored id
/// (`--macfuse`, `--fskit`, `--nfs`, `--smb`), MountOS IO by `--backend
/// mountosio`, and `Auto` adds no flag, leaving the choice to the CLI; so
/// no two backends are mounted with the same flags, and the id read back
/// from a flag names the same backend.
pub proof fn backend_flags_name_the_backend(b: Backend, c: Backend)
    ensures
        b == Backend::Macfuse || b == Backend::Fskit || b == Backend::Nfs || b == Backend::Smb
            ==> backend_flags(b) == seq!["--"@ + crate::profile::backend_id(b)],
        b == Backend::Macfuse || b == Backend::Fskit || b == Backend::Nfs || b == Backend::Smb
            ==> crate::profile::backend_for_id(backend_flags(b)[0].subrange(2, backend_flags(b)[0].len() as int)) == b,
        b == Backend::Mountosio ==> backend_flags(b) == seq!["--backend"@, crate::profile::backend_id(b)],
        b == Backend::Auto ==> backend_flags(b).len() == 0,
        backend_flags(Backend::Macfuse) == seq!["--macfuse"@],
        backend_flags(Backend::Fskit) == seq!["--fskit"@],
        backend_flags(Backend::Nfs) == seq!["--nfs"@],
        backend_flags(Backend::Smb) == seq!["--smb"@],
        backend_flags(Backend::Mountosio) == seq!["--backend"@, "mountosio"@],
        b != c ==> backend_flags(b) != backend_flags(c),
{
    reveal_strlit("--");
    reveal_strlit("--macfuse");
    reveal_strlit("--fskit");
    reveal_strlit("--nfs");
    reveal_strlit("--smb");
    reveal_strlit("--backend");
    reveal_strlit("macfuse");
    reveal_strlit("fskit");
    reveal_strlit("nfs");
    reveal_strlit("smb");
    reveal_strlit("mountosio");
    reveal_strlit("auto");
    assert("--"@ + "macfuse"@ =~= "--macfuse"@);
    assert("--"@ + "fskit"@ =~= "--fskit"@);
    assert("--"@ + "nfs"@ =~= "--nfs"@);
    assert("--"@ + "smb"@ =~= "--smb"@);
    assert("--macfuse"@.subrange(2, 9) =~= "macfuse"@);
    assert("--fskit"@.subrange(2, 7) =~= "fskit"@);
    assert("--nfs"@.subrange(2, 5) =~= "nfs"@);
    assert("--smb"@.subrange(2, 5) =~= "smb"@);
    assert("nfs"@[0] != "smb"@[0]);
    assert("nfs"@ != "smb"@);
    assert("--nfs"@[2] != "--smb"@[2]);
    assert("--nfs"@ != "--smb"@);
    assert("--macfuse"@[2] != "--backend"@[2]);
    assert("--macfuse"@ != "--backend"@);
    assert("--macfuse"@.len() != "--fskit"@.len() && "--macfuse"@.len() != "--nfs"@.len());
    assert("--fskit"@.len() != "--nfs"@.len() && "--fskit"@.len() != "--smb"@.len());
    if b != c {
        if backend_flags(b).len() == 1 && backend_flags(c).len() == 1 {
            assert(backend_flags(b)[0] != backend_flags(c)[0]);
        }
        if backend_flags(b).len() > 0 && backend_flags(b).len() == backend_flags(c).len() {
            assert(backend_flags(b)[0] != backend_flags(c)[0]);
        }
    }
}

/// A mount command line ends with the profile's backend flag.
pub proof fn mount_argv_ends_with_backend_flag(p: ProfileView)
    ensures
        mount_argv(p).len() >= backend_flags(p.backend).len(),
        mount_argv(p).subrange(
            mount_argv(p).len() - backend_flags(p.backend).len(),
            mount_argv(p).len() as int,
        ) == backend_flags(p.backend),
{
    let m = mount_argv(p);
    let f = backend_flags(p.backend);
    assert(m.subrange(m.len() - f.len(), m.len() as int) =~= f);
}

pub open spec fn when(c: bool, s: Seq<Seq<char>>) -> Seq<Seq<char>> {
    if c {
        s
    } else {
        Seq::empty()
    }
}

/// `mountos mount ...` for a profile.
pub open spec fn mount_argv(p: ProfileView) -> Seq<Seq<char>> {
    seq!["mount"@] + flag_pair("--discovery-url"@, p.discovery_url) + flag_pair(
        "--volname"@,
        p.volume,
    ) + flag_pair("--fork-name"@, p.fork) + flag_pair("-m"@, p.mount_path) + credential_flags(p)
        + when(p.read_only, seq!["--read-only"@]) + when(
        p.temporary_fork,
        seq!["--temporary-fork"@],
    ) + cache_and_extra_flags(p) + backend_flags(p.backend)
}

pub open spec fn str_opt_view(o: Option<&str>) -> Option<Seq<char>> {
    match o {
        Some(s) => Some(s@),
        None => None,
    }
}

/// The trimmed text of an optional field, when it is not blank.
pub open spec fn trimmed_value(o: Option<Seq<char>>) -> Option<Seq<char>> {
    match o {
        Some(s) => if trim(s).len() > 0 {
            Some(trim(s))
        } else {
            None
        },
        None => None,
    }
}

/// `<prefix><value>` as one token, for a value that is not blank.
pub open spec fn fused(prefix: Seq<char>, o: Option<Seq<char>>) -> Seq<Seq<char>> {
    match trimmed_value(o) {
        Some(v) => seq![prefix + v],
        None => Seq::empty(),
    }
}

fn push_text(argv: &mut Vec<String>, s: &str)
    ensures
        views(final(argv)@) == views(old(argv)@).push(s@),
{
    let t = text(s);
    proof {
        lemma_views_push(argv@, t);
    }
    argv.push(t);
}

fn push_flag_value(argv: &mut Vec<String>, flag: &str, value: &str)
    ensures
        views(final(argv)@) == views(old(argv)@) + flag_pair(flag@, value@),
{
    if !value.is_empty() {
        push_text(argv, flag);
        push_text(argv, value);
        assert(views(argv@) =~= views(old(argv)@) + flag_pair(flag@, value@));
    } else {
        assert(views(argv@) =~= views(old(argv)@) + flag_pair(flag@, value@));
    }
}

fn push_fused(argv: &mut Vec<String>, prefix: &str, value: Option<&str>)
    ensures
        views(final(argv)@) == views(old(argv)@) + fused(prefix@, str_opt_view(value)),
{
    match value {
        Some(v) => {
            let t = trim_str(v);
            if !t.as_str().is_empty() {
                let mut token = text(prefix);
                token.append(t.as_str());
                proof {
                    lemma_views_push(argv@, token);
                }
                argv.push(token);
                assert(views(argv@) =~= views(old(argv)@) + fused(prefix@, str_opt_view(value)));
            } else {
                assert(views(argv@) =~= views(old(argv)@) + fused(prefix@, str_opt_view(value)));
            }
        },
        None => {
            assert(views(argv@) =~= views(old(argv)@) + fused(prefix@, str_opt_view(value)));
        },
    }
}

/// Appends `-a <access key id> -s` when the profile has an access key id.
pub fn push_satellite_credentials(argv: &mut Vec<String>, profile: &MountProfile)
    ensures
        views(final(argv)@) == views(old(argv)@) + credential_flags(profile@),
{
    if !profile.access_key_id.as_str().is_empty() {
        push_text(argv, "-a");
        push_text(argv, profile.access_key_id.as_str());
        push_text(argv, "-s");
        assert(views(argv@) =~= views(old(argv)@) + credential_flags(profile@));
    } else {
        assert(views(argv@) =~= views(old(argv)@) + credential_flags(profile@));
    }
}

/// Appends the cache directory flag (when one is set) and the extra arguments.
pub fn push_cache_and_extra_args(argv: &mut Vec<String>, profile: &MountProfile)
    ensures
        views(final(argv)@) == views(old(argv)@) + cache_and_extra_flags(profile@),
{
    match &profile.cache_dir {
        Some(cache_dir) => push_flag_value(argv, "--disk-cache-dir", cache_dir.as_str()),
        None => {
            assert(views(argv@) =~= views(old(argv)@) + cache_dir_flags(profile@));
        },
    }
    let ghost mid = views(argv@);
    let mut i: usize = 0;
    while i < profile.extra_args.len()
        invariant
            i <= profile.extra_args@.len(),
            views(argv@) == mid + views(profile.extra_args@).take(i as int),
        decreases profile.extra_args@.len() - i,
    {
        let t = profile.extra_args[i].clone();
        proof {
            lemma_views_push(argv@, t);
        }
        argv.push(t);
        i += 1;
        assert(views(argv@) =~= mid + views(profile.extra_args@).take(i as int));
    }
    assert(views(profile.extra_args@).take(profile.extra_args@.len() as int) =~= views(
        profile.extra_args@,
    ));
    assert(views(argv@) =~= views(old(argv)@) + cache_and_extra_flags(profile@));
}

/// Appends the flag that selects the backend; `Auto` adds none.
pub fn push_backend_flag(argv: &mut Vec<String>, backend: &Backend)
    ensures
        views(final(argv)@) == views(old(argv)@) + backend_flags(*backend),
{
    match backend {
        Backend::Auto => {},
        Backend::Macfuse => push_text(argv, "--macfuse"),
        Backend::Fskit => push_text(argv, "--fskit"),
        Backend::Nfs => push_text(argv, "--nfs"),
        Backend::Smb => push_text(argv, "--smb"),
        Backend::Mountosio => {
            push_text(argv, "--backend");
            push_text(argv, "mountosio");
        },
    }
    assert(views(argv@) =~= views(old(argv)@) + backend_flags(*backend));
}

fn start(word: &str) -> (r: Vec<String>)
    ensures
        views(r@) == seq![word@],
{
    let mut r: Vec<String> = Vec::new();
    push_text(&mut r, word);
    assert(views(r@) =~= seq![word@]);
    r
}

pub fn build_mount_argv(profile: &MountProfile) -> (r: Vec<String>)
    ensures
        views(r@) == mount_argv(profile@),
{
    let mut argv = start("mount");
    push_flag_value(&mut argv, "--discovery-url", profile.discovery_url.as_str());
    push_flag_value(&mut argv, "--volname", profile.volume.as_str());
    push_flag_value(&mut argv, "--fork-name", profile.fork.as_str());
    push_flag_value(&mut argv, "-m", profile.mount_path.as_str());
    push_satellite_credentials(&mut argv, profile);
    let ghost before_ro = views(argv@);
    if profile.read_only {
        push_text(&mut argv, "--read-only");
    }
    assert(views(argv@) =~= before_ro + when(profile.read_only, seq!["--read-only"@]));
    let ghost before_tf = views(argv@);
    if profile.temporary_fork {
        push_text(&mut argv, "--temporary-fork");
    }
    assert(views(argv@) =~= before_tf + when(profile.temporary_fork, seq!["--temporary-fork"@]));
    push_cache_and_extra_args(&mut argv, profile);
    push_backend_flag(&mut argv, &profile.backend);
    assert(views(argv@) =~= mount_argv(profile@));
    argv
}

pub open spec fn kind_abbrev(kind: Seq<char>) -> Seq<char> {
    if kind == "snapshot"@ {
        "snap"@
    } else if kind == "deleted"@ {
        "del"@
    } else if kind == "version"@ {
        "ver"@
    } else {
        kind
    }
}

/// The part of a satellite mount's volume name before its four-digit suffix.
pub open spec fn volname_stem(p: ProfileView, kind: Seq<char>) -> Seq<char> {
    (if p.volume.len() == 0 {
        "mountOS"@
    } else {
        p.volume
    }) + "-"@ + kind_abbrev(kind) + "-"@
}

/// `name` is the stem followed by four decimal digits.
pub open spec fn volname_fits(p: ProfileView, kind: Seq<char>, name: Seq<char>) -> bool {
    let stem = volname_stem(p, kind);
    &&& name.len() == stem.len() + 4
    &&& name.subrange(0, stem.len() as int) == stem
    &&& all_digits(name.subrange(stem.len() as int, name.len() as int))
}

#[verifier::external_type_specification]
#[verifier::external_body]
pub struct ExSystemTime(std::time::SystemTime);

/// `SystemTime::now()`: what the clock reads is up to the clock, so nothing
/// is stated of it.
#[verifier::external_body]
fn clock_now() -> (t: std::time::SystemTime) {
    std::time::SystemTime::now()
}

/// `t.duration_since(UNIX_EPOCH)`, or nothing when `t` lies before the
/// epoch. What it measures depends on `t`, which is opaque here, so nothing
/// is stated of it.
#[verifier::external_body]
fn since_epoch(t: &std::time::SystemTime) -> (d: Option<std::time::Duration>) {
    t.duration_since(std::time::UNIX_EPOCH).ok()
}

/// `Duration::subsec_nanos`: the fractional part of the duration in
/// nanoseconds, which its documentation bounds below one billion.
#[verifier::external_body]
fn subsec_nanos(d: &std::time::Duration) -> (n: u32)
    ensures
        n < 1_000_000_000,
{
    d.subsec_nanos()
}

proof fn lemma_decimal_digits(n: nat)
    ensures
        all_digits(decimal(n)),
        decimal(n).len() >= 1,
        n < 10 ==> decimal(n).len() == 1,
        n < 100 ==> decimal(n).len() <= 2,
        n < 1000 ==> decimal(n).len() <= 3,
        n < 10000 ==> decimal(n).len() <= 4,
    decreases n,
{
    if n >= 10 {
        lemma_decimal_digits(n / 10);
        assert(is_digit(digit_char(n % 10)));
        let d = decimal(n / 10);
        assert forall|i: int| 0 <= i < d.push(digit_char(n % 10)).len() implies is_digit(
            #[trigger] d.push(digit_char(n % 10))[i],
        ) by {
            if i < d.len() {
                assert(d.push(digit_char(n % 10))[i] == d[i]);
            }
        }
    } else {
        assert(is_digit(digit_char(n)));
    }
}

/// The suffix a clock reading gives: the last four decimal digits of its
/// sub-second nanoseconds, zero-padded.
pub open spec fn suffix_text(nanos: u32) -> Seq<char> {
    zero_pad(decimal((nanos % 10000) as nat), 4)
}

/// The satellite suffix for a clock reading of `nanos` sub-second nanoseconds.
pub fn suffix_from_nanos(nanos: u32) -> (r: String)
    ensures
        r@ == suffix_text(nanos),
        r@.len() == 4,
        all_digits(r@),
{
    let n = (nanos % 10000) as u64;
    let r = zero_padded(decimal_string(n), 4);
    proof {
        lemma_decimal_digits(n as nat);
        let d = decimal(n as nat);
        let pad = Seq::new((4 - d.len()) as nat, |i: int| '0');
        if d.len() < 4 {
            assert forall|i: int| 0 <= i < (pad + d).len() implies is_digit(#[trigger] (pad + d)[i]) by {
                if i >= pad.len() {
                    assert((pad + d)[i] == d[i - pad.len()]);
                }
            }
        }
    }
    r
}

/// A four-digit, zero-padded suffix drawn from the clock, so two satellite
/// mounts of one profile rarely share a name. Which reading the clock gives
/// is up to the clock.
pub fn satellite_suffix() -> (r: String)
    ensures
        exists|nanos: u32| nanos < 1_000_000_000 && r@ == suffix_text(nanos),
        r@.len() == 4,
        all_digits(r@),
{
    let now = clock_now();
    let nanos = match since_epoch(&now) {
        Some(d) => subsec_nanos(&d),
        None => 0,
    };
    suffix_from_nanos(nanos)
}

/// A volume name for a satellite (snapshot/deleted/version) mount that
/// differs visibly from the profile's own: `<volume>-<abbrev>-<4 digits>`,
/// with `mountOS` standing in for an empty volume name.
pub fn satellite_volname(profile: &MountProfile, kind: &str) -> (r: String)
    ensures
        volname_fits(profile@, kind@, r@),
        exists|nanos: u32| nanos < 1_000_000_000 && r@ == volname_stem(profile@, kind@) + suffix_text(nanos),
{
    let abbrev = if same_text(kind, "snapshot") {
        text("snap")
    } else if same_text(kind, "deleted") {
        text("del")
    } else if same_text(kind, "version") {
        text("ver")
    } else {
        text(kind)
    };
    let suffix = satellite_suffix();
    let mut r = if profile.volume.as_str().is_empty() {
        text("mountOS")
    } else {
        profile.volume.clone()
    };
    r.append("-");
    r.append(abbrev.as_str());
    r.append("-");
    let ghost stem = r@;
    assert(stem == volname_stem(profile@, kind@));
    r.append(suffix.as_str());
    assert(r@.subrange(0, stem.len() as int) =~= stem);
    assert(r@.subrange(stem.len() as int, r@.len() as int) =~= suffix@);
    r
}

/// `<subcommand> [--discovery-url ..] [--fork-name ..] --volname <name>`.
pub open spec fn satellite_prefix(sub: Seq<char>, p: ProfileView, volname: Seq<char>) -> Seq<
    Seq<char>,
> {
    seq![sub] + flag_pair("--discovery-url"@, p.discovery_url) + flag_pair("--fork-name"@, p.fork)
        + seq!["--volname"@, volname]
}

/// The shared start of the snapshot/deleted/version command lines, with a
/// fresh satellite volume name.
pub fn build_satellite_prefix(subcommand: &str, profile: &MountProfile, kind: &str) -> (r: Vec<
    String,
>)
    ensures
        exists|v: Seq<char>|
            #[trigger] volname_fits(profile@, kind@, v) && views(r@) == satellite_prefix(
                subcommand@,
                profile@,
                v,
            ),
{
    let mut argv = start(subcommand);
    push_flag_value(&mut argv, "--discovery-url", profile.discovery_url.as_str());
    push_flag_value(&mut argv, "--fork-name", profile.fork.as_str());
    let name = satellite_volname(profile, kind);
    push_text(&mut argv, "--volname");
    push_text(&mut argv, name.as_str());
    assert(views(argv@) =~= satellite_prefix(subcommand@, profile@, name@));
    argv
}

pub open spec fn snapshot_argv(p: ProfileView, destination: Seq<char>, timestamp: Seq<char>, volname: Seq<char>) -> Seq<Seq<char>> {
    satellite_prefix("snapshot"@, p, volname) + seq!["-m"@, destination] + seq![
        "--timestamp="@ + trim(timestamp),
    ] + credential_flags(p) + cache_and_extra_flags(p) + backend_flags(p.backend)
}

/// `mountos snapshot ...`: mounts the volume as of `timestamp` at
/// `destination` (given with `-m`; the timestamp fused into one token, so a
/// leading '-' cannot read as a flag).
pub fn build_snapshot_argv(profile: &MountProfile, destination: &str, timestamp: &str) -> (r: Vec<
    String,
>)
    ensures
        exists|v: Seq<char>|
            #[trigger] volname_fits(profile@, "snapshot"@, v) && views(r@) == snapshot_argv(
                profile@,
                destination@,
                timestamp@,
                v,
            ),
{
    let mut argv = build_satellite_prefix("snapshot", profile, "snapshot");
    let ghost v = choose|v: Seq<char>|
        #[trigger] volname_fits(profile@, "snapshot"@, v) && views(argv@) == satellite_prefix(
            "snapshot"@,
            profile@,
            v,
        );
    push_text(&mut argv, "-m");
    push_text(&mut argv, destination);
    let mut token = text("--timestamp=");
    token.append(trim_str(timestamp).as_str());
    push_text(&mut argv, token.as_str());
    push_satellite_credentials(&mut argv, profile);
    push_cache_and_extra_args(&mut argv, profile);
    push_backend_flag(&mut argv, &profile.backend);
    assert(views(argv@) =~= snapshot_argv(profile@, destination@, timestamp@, v));
    argv
}

pub open spec fn deleted_argv(p: ProfileView, destination: Seq<char>, from: Option<Seq<char>>, idle: Option<Seq<char>>, volname: Seq<char>) -> Seq<Seq<char>> {
    satellite_prefix("deleted"@, p, volname) + seq!["--destination"@, destination] + fused(
        "--from="@,
        from,
    ) + fused("--idle-timeout="@, idle) + credential_flags(p) + cache_and_extra_flags(p)
        + backend_flags(p.backend)
}

/// `mountos deleted ...`: the volume's deleted files mounted at `destination`.
pub fn build_deleted_argv(
    profile: &MountProfile,
    destination: &str,
    from: Option<&str>,
    idle_timeout: Option<&str>,
) -> (r: Vec<String>)
    ensures
        exists|v: Seq<char>|
            #[trigger] volname_fits(profile@, "deleted"@, v) && views(r@) == deleted_argv(
                profile@,
                destination@,
                str_opt_view(from),
                str_opt_view(idle_timeout),
                v,
            ),
{
    let mut argv = build_satellite_prefix("deleted", profile, "deleted");
    let ghost v = choose|v: Seq<char>|
        #[trigger] volname_fits(profile@, "deleted"@, v) && views(argv@) == satellite_prefix(
            "deleted"@,
            profile@,
            v,
        );
    push_text(&mut argv, "--destination");
    push_text(&mut argv, destination);
    push_fused(&mut argv, "--from=", from);
    push_fused(&mut argv, "--idle-timeout=", idle_timeout);
    push_satellite_credentials(&mut argv, profile);
    push_cache_and_extra_args(&mut argv, profile);
    push_backend_flag(&mut argv, &profile.backend);
    assert(views(argv@) =~= deleted_argv(
        profile@,
        destination@,
        str_opt_view(from),
        str_opt_view(idle_timeout),
        v,
    ));
    argv
}

/// The version format, unless it is blank or the CLI's default `number`.
pub open spec fn version_format_flags(f: Option<Seq<char>>) -> Seq<Seq<char>> {
    match trimmed_value(f) {
        Some(v) => if v == "number"@ {
            Seq::empty()
        } else {
            seq!["--version-format="@ + v]
        },
        None => Seq::empty(),
    }
}

pub open spec fn version_argv(p: ProfileView, destination: Seq<char>, inode: u64, format: Option<Seq<char>>, idle: Option<Seq<char>>, volname: Seq<char>) -> Seq<Seq<char>> {
    satellite_prefix("version"@, p, volname) + seq!["--destination"@, destination] + seq![
        "-i"@,
        decimal(inode as nat),
    ] + version_format_flags(format) + fused("--idle-timeout="@, idle) + credential_flags(p)
        + cache_and_extra_flags(p) + backend_flags(p.backend)
}

/// `mountos version ...`: the versions of one inode mounted at `destination`.
pub fn build_version_argv(
    profile: &MountProfile,
    destination: &str,
    inode: u64,
    version_format: Option<&str>,
    idle_timeout: Option<&str>,
) -> (r: Vec<String>)
    ensures
        exists|v: Seq<char>|
            #[trigger] volname_fits(profile@, "version"@, v) && views(r@) == version_argv(
                profile@,
                destination@,
                inode,
                str_opt_view(version_format),
                str_opt_view(idle_timeout),
                v,
            ),
{
    let mut argv = build_satellite_prefix("version", profile, "version");
    let ghost v = choose|v: Seq<char>|
        #[trigger] volname_fits(profile@, "version"@, v) && views(argv@) == satellite_prefix(
            "version"@,
            profile@,
            v,
        );
    push_text(&mut argv, "--destination");
    push_text(&mut argv, destination);
    push_text(&mut argv, "-i");
    push_text(&mut argv, decimal_string(inode).as_str());
    let ghost before_fmt = views(argv@);
    match version_format {
        Some(f) => {
            let t = trim_str(f);
            if !t.as_str().is_empty() && !same_text(t.as_str(), "number") {
                let mut token = text("--version-format=");
                token.append(t.as_str());
                push_text(&mut argv, token.as_str());
            }
        },
        None => {},
    }
    assert(views(argv@) =~= before_fmt + version_format_flags(str_opt_view(version_format)));
    push_fused(&mut argv, "--idle-timeout=", idle_timeout);
    push_satellite_credentials(&mut argv, profile);
    push_cache_and_extra_args(&mut argv, profile);
    push_backend_flag(&mut argv, &profile.backend);
    assert(views(argv@) =~= version_argv(
        profile@,
        destination@,
        inode,
        str_opt_view(version_format),
        str_opt_view(idle_timeout),
        v,
    ));
    argv
}

pub open spec fn fork_list_argv(p: ProfileView) -> Seq<Seq<char>> {
    seq!["fork"@, "list"@, "--json"@] + flag_pair("--discovery-url"@, p.discovery_url)
        + credential_flags(p)
}

pub open spec fn fork_create_argv(p: ProfileView, name: Seq<char>, parent: Option<Seq<char>>, as_of: Option<Seq<char>>) -> Seq<Seq<char>> {
    seq!["fork"@, "create"@, name] + flag_pair("--discovery-url"@, p.discovery_url) + fused(
        "--parent="@,
        parent,
    ) + fused("--as-of="@, as_of) + credential_flags(p)
}

pub open spec fn fork_delete_argv(p: ProfileView, name: Seq<char>, force: bool) -> Seq<Seq<char>> {
    seq!["fork"@, "delete"@, name] + flag_pair("--discovery-url"@, p.discovery_url) + when(
        force,
        seq!["--force"@],
    ) + credential_flags(p)
}

pub open spec fn fork_restore_argv(p: ProfileView, name: Seq<char>) -> Seq<Seq<char>> {
    seq!["fork"@, "restore"@, name] + flag_pair("--discovery-url"@, p.discovery_url)
        + credential_flags(p)
}

fn start3(a: &str, b: &str, c: &str) -> (r: Vec<String>)
    ensures
        views(r@) == seq![a@, b@, c@],
{
    let mut r: Vec<String> = Vec::new();
    push_text(&mut r, a);
    push_text(&mut r, b);
    push_text(&mut r, c);
    assert(views(r@) =~= seq![a@, b@, c@]);
    r
}

/// `mountos fork list --json ...`.
pub fn build_fork_list_argv(profile: &MountProfile) -> (r: Vec<String>)
    ensures
        views(r@) == fork_list_argv(profile@),
{
    let mut argv = start3("fork", "list", "--json");
    push_flag_value(&mut argv, "--discovery-url", profile.discovery_url.as_str());
    push_satellite_credentials(&mut argv, profile);
    assert(views(argv@) =~= fork_list_argv(profile@));
    argv
}

/// `mountos fork create <name> ...`.
pub fn build_fork_create_argv(
    profile: &MountProfile,
    name: &str,
    parent: Option<&str>,
    as_of: Option<&str>,
) -> (r: Vec<String>)
    ensures
        views(r@) == fork_create_argv(profile@, name@, str_opt_view(parent), str_opt_view(as_of)),
{
    let mut argv = start3("fork", "create", name);
    push_flag_value(&mut argv, "--discovery-url", profile.discovery_url.as_str());
    push_fused(&mut argv, "--parent=", parent);
    push_fused(&mut argv, "--as-of=", as_of);
    push_satellite_credentials(&mut argv, profile);
    assert(views(argv@) =~= fork_create_argv(
        profile@,
        name@,
        str_opt_view(parent),
        str_opt_view(as_of),
    ));
    argv
}

/// `mountos fork delete <name> [--force] ...`.
pub fn build_fork_delete_argv(profile: &MountProfile, name: &str, force: bool) -> (r: Vec<String>)
    ensures
        views(r@) == fork_delete_argv(profile@, name@, force),
{
    let mut argv = start3("fork", "delete", name);
    push_flag_value(&mut argv, "--discovery-url", profile.discovery_url.as_str());
    let ghost before = views(argv@);
    if force {
        push_text(&mut argv, "--force");
    }
    assert(views(argv@) =~= before + when(force, seq!["--force"@]));
    push_satellite_credentials(&mut argv, profile);
    assert(views(argv@) =~= fork_delete_argv(profile@, name@, force));
    argv
}

/// `mountos fork restore <name> ...`.
pub fn build_fork_restore_argv(profile: &MountProfile, name: &str) -> (r: Vec<String>)
    ensures
        views(r@) == fork_restore_argv(profile@, name@),
{
    let mut argv = start3("fork", "restore", name);
    push_flag_value(&mut argv, "--discovery-url", profile.discovery_url.as_str());
    push_satellite_credentials(&mut argv, profile);
    assert(views(argv@) =~= fork_restore_argv(profile@, name@));
    argv
}

/// The command line a gateway launch starts from: the standalone `gateway`
/// subcommand (no mount point, backend or volume name), or the profile's
/// full mount command for a mount plus gateway.
pub open spec fn gateway_base_argv(p: ProfileView, gateway_only: bool) -> Seq<Seq<char>> {
    if gateway_only {
        seq!["gateway"@] + flag_pair("--discovery-url"@, p.discovery_url) + flag_pair(
            "--fork-name"@,
            p.fork,
        ) + credential_flags(p) + cache_and_extra_flags(p)
    } else {
        mount_argv(p)
    }
}

/// TLS flags go in only when both a certificate and a key are given.
pub open spec fn tls_flags(cert: Option<Seq<char>>, key: Option<Seq<char>>) -> Seq<Seq<char>> {
    match (trimmed_value(cert), trimmed_value(key)) {
        (Some(c), Some(k)) => seq!["--gateway-cert"@, c, "--gateway-key"@, k],
        _ => Seq::empty(),
    }
}

pub open spec fn port_flags(port: Option<Seq<char>>) -> Seq<Seq<char>> {
    match trimmed_value(port) {
        Some(v) => seq!["--gateway-port"@, v],
        None => Seq::empty(),
    }
}

/// The gateway flags that follow the base command line.
pub open spec fn gateway_options(
    protocols: Seq<Seq<char>>,
    port: Option<Seq<char>>,
    no_loopback: bool,
    cert: Option<Seq<char>>,
    key: Option<Seq<char>>,
) -> Seq<Seq<char>> {
    when(protocols.len() > 0, seq!["--gateway"@, join(protocols, ","@)]) + port_flags(port) + when(
        no_loopback,
        seq!["--gateway-no-loopback"@],
    ) + tls_flags(cert, key)
}

pub open spec fn gateway_argv(
    p: ProfileView,
    protocols: Seq<Seq<char>>,
    port: Option<Seq<char>>,
    gateway_only: bool,
    no_loopback: bool,
    cert: Option<Seq<char>>,
    key: Option<Seq<char>>,
) -> Seq<Seq<char>> {
    gateway_base_argv(p, gateway_only) + gateway_options(protocols, port, no_loopback, cert, key)
}

fn trimmed_nonblank(o: Option<&str>) -> (r: Option<String>)
    ensures
        opt_view(r) == trimmed_value(str_opt_view(o)),
{
    match o {
        Some(s) => {
            let t = trim_str(s);
            if !t.as_str().is_empty() {
                Some(t)
            } else {
                None
            }
        },
        None => None,
    }
}

fn push_protocols(argv: &mut Vec<String>, protocols: &[String])
    ensures
        views(final(argv)@) == views(old(argv)@) + when(
            protocols@.len() > 0,
            seq!["--gateway"@, join(views(protocols@), ","@)],
        ),
{
    if protocols.len() > 0 {
        push_text(argv, "--gateway");
        push_text(argv, join_strings(protocols, ",").as_str());
    }
    assert(views(argv@) =~= views(old(argv)@) + when(
        protocols@.len() > 0,
        seq!["--gateway"@, join(views(protocols@), ","@)],
    ));
}

fn push_port(argv: &mut Vec<String>, port: Option<&str>)
    ensures
        views(final(argv)@) == views(old(argv)@) + port_flags(str_opt_view(port)),
{
    match trimmed_nonblank(port) {
        Some(p) => {
            push_text(argv, "--gateway-port");
            push_text(argv, p.as_str());
        },
        None => {},
    }
    assert(views(argv@) =~= views(old(argv)@) + port_flags(str_opt_view(port)));
}

fn push_tls(argv: &mut Vec<String>, cert_path: Option<&str>, key_path: Option<&str>)
    ensures
        views(final(argv)@) == views(old(argv)@) + tls_flags(
            str_opt_view(cert_path),
            str_opt_view(key_path),
        ),
{
    match (trimmed_nonblank(cert_path), trimmed_nonblank(key_path)) {
        (Some(cert), Some(key)) => {
            push_text(argv, "--gateway-cert");
            push_text(argv, cert.as_str());
            push_text(argv, "--gateway-key");
            push_text(argv, key.as_str());
        },
        _ => {},
    }
    assert(views(argv@) =~= views(old(argv)@) + tls_flags(
        str_opt_view(cert_path),
        str_opt_view(key_path),
    ));
}

fn push_gateway_options(
    argv: &mut Vec<String>,
    protocols: &[String],
    port: Option<&str>,
    no_loopback: bool,
    cert_path: Option<&str>,
    key_path: Option<&str>,
)
    ensures
        views(final(argv)@) == views(old(argv)@) + gateway_options(
            views(protocols@),
            str_opt_view(port),
            no_loopback,
            str_opt_view(cert_path),
            str_opt_view(key_path),
        ),
{
    let ghost base = views(argv@);
    push_protocols(argv, protocols);
    let ghost s1 = views(argv@);
    push_port(argv, port);
    let ghost s2 = views(argv@);
    if no_loopback {
        push_text(argv, "--gateway-no-loopback");
    }
    assert(views(argv@) =~= s2 + when(no_loopback, seq!["--gateway-no-loopback"@]));
    push_tls(argv, cert_path, key_path);
    assert(views(argv@) =~= base + gateway_options(
        views(protocols@),
        str_opt_view(port),
        no_loopback,
        str_opt_view(cert_path),
        str_opt_view(key_path),
    ));
}

/// The gateway launch command line: the gateway-only or mount base, then
/// the protocols, the port, `--gateway-no-loopback`, and the TLS pair.
pub fn build_gateway_argv(
    profile: &MountProfile,
    protocols: &[String],
    port: Option<&str>,
    gateway_only: bool,
    no_loopback: bool,
    cert_path: Option<&str>,
    key_path: Option<&str>,
) -> (r: Vec<String>)
    ensures
        views(r@) == gateway_argv(
            profile@,
            views(protocols@),
            str_opt_view(port),
            gateway_only,
            no_loopback,
            str_opt_view(cert_path),
            str_opt_view(key_path),
        ),
{
    let mut argv = if gateway_only {
        let mut argv = start("gateway");
        push_flag_value(&mut argv, "--discovery-url", profile.discovery_url.as_str());
        push_flag_value(&mut argv, "--fork-name", profile.fork.as_str());
        push_satellite_credentials(&mut argv, profile);
        push_cache_and_extra_args(&mut argv, profile);
        assert(views(argv@) =~= gateway_base_argv(profile@, gateway_only));
        argv
    } else {
        build_mount_argv(profile)
    };
    push_gateway_options(&mut argv, protocols, port, no_loopback, cert_path, key_path);
    argv
}

} // verus!
