//! Mount profiles: their data, and the rules a profile, its id and its mount
//! path have to meet.
use vstd::prelude::*;

use crate::error::{fail, fail2, fails_with, DesktopError};
use crate::extra_args::{refused, reject_managed_extra_args};
use crate::text::{
    ascii_lower, ascii_lowercase, decimal, decimal_string, strip, strip_chars, trim,
    trim_str, join,
    chars_of, debug_quoted, debug_str, is_ascii_alnum, is_ascii_alpha, matches_at, occurs_at,
    same_text, starts_with_str, string_of_range, strip_back, strip_back_len, text, views, CharClass,
    lemma_views_eq,
};

verus! {

/// The transport a mount runs on.
#[derive(Clone, Copy, PartialEq, Eq, Structural, Debug)]
pub enum Backend {
    Auto,
    Macfuse,
    Fskit,
    Nfs,
    Smb,
    Mountosio,
}

/// The operating system the client runs on, as far as path syntax and
/// backend availability go.
#[derive(Clone, Copy, PartialEq, Eq, Structural, Debug)]
pub enum Platform {
    MacOs,
    Windows,
    Other,
}

/// The backend a stored id names; an id this build does not know lands on `Auto`.
pub open spec fn backend_for_id(id: Seq<char>) -> Backend {
    if id == "macfuse"@ {
        Backend::Macfuse
    } else if id == "fskit"@ {
        Backend::Fskit
    } else if id == "nfs"@ {
        Backend::Nfs
    } else if id == "smb"@ {
        Backend::Smb
    } else if id == "mountosio"@ {
        Backend::Mountosio
    } else {
        Backend::Auto
    }
}

/// The id a backend is stored under.
pub open spec fn backend_id(b: Backend) -> Seq<char> {
    match b {
        Backend::Auto => "auto"@,
        Backend::Macfuse => "macfuse"@,
        Backend::Fskit => "fskit"@,
        Backend::Nfs => "nfs"@,
        Backend::Smb => "smb"@,
        Backend::Mountosio => "mountosio"@,
    }
}

impl Backend {
    /// The backend a stored id names; unknown ids read as `Auto`.
    pub fn from_id(id: &str) -> (b: Backend)
        ensures
            b == backend_for_id(id@),
    {
        if same_text(id, "macfuse") {
            Backend::Macfuse
        } else if same_text(id, "fskit") {
            Backend::Fskit
        } else if same_text(id, "nfs") {
            Backend::Nfs
        } else if same_text(id, "smb") {
            Backend::Smb
        } else if same_text(id, "mountosio") {
            Backend::Mountosio
        } else {
            Backend::Auto
        }
    }

    /// The id the backend is stored under.
    pub fn id(&self) -> (r: String)
        ensures
            r@ == backend_id(*self),
    {
        match self {
            Backend::Auto => text("auto"),
            Backend::Macfuse => text("macfuse"),
            Backend::Fskit => text("fskit"),
            Backend::Nfs => text("nfs"),
            Backend::Smb => text("smb"),
            Backend::Mountosio => text("mountosio"),
        }
    }
}

pub open spec fn platform_for_os(os: Seq<char>) -> Platform {
    if os == "macos"@ {
        Platform::MacOs
    } else if os == "windows"@ {
        Platform::Windows
    } else {
        Platform::Other
    }
}

impl Platform {
    /// The platform `std::env::consts::OS` names.
    pub fn from_os(os: &str) -> (p: Platform)
        ensures
            p == platform_for_os(os@),
    {
        if same_text(os, "macos") {
            Platform::MacOs
        } else if same_text(os, "windows") {
            Platform::Windows
        } else {
            Platform::Other
        }
    }
}

/// A saved mount profile.
pub struct MountProfile {
    pub id: String,
    pub schema_version: u32,
    pub kind: String,
    pub name: String,
    pub volume: String,
    pub fork: String,
    pub mount_path: String,
    pub discovery_url: String,
    pub access_key_id: String,
    pub secret_ref: String,
    pub backend: Backend,
    pub cache_dir: Option<String>,
    pub read_only: bool,
    pub auto_remount: bool,
    pub temporary_fork: bool,
    pub trusted_discovery_host: Option<String>,
    pub extra_args: Vec<String>,
    pub created_at: String,
    pub updated_at: String,
    /// "general" or "iceberg" once detected from the mounted volume; never reset.
    pub volume_kind: Option<String>,
}

pub open spec fn opt_view(o: Option<String>) -> Option<Seq<char>> {
    match o {
        Some(s) => Some(s@),
        None => None,
    }
}

/// A profile's content with every string taken by its characters.
pub struct ProfileView {
    pub id: Seq<char>,
    pub schema_version: u32,
    pub kind: Seq<char>,
    pub name: Seq<char>,
    pub volume: Seq<char>,
    pub fork: Seq<char>,
    pub mount_path: Seq<char>,
    pub discovery_url: Seq<char>,
    pub access_key_id: Seq<char>,
    pub secret_ref: Seq<char>,
    pub backend: Backend,
    pub cache_dir: Option<Seq<char>>,
    pub read_only: bool,
    pub auto_remount: bool,
    pub temporary_fork: bool,
    pub trusted_discovery_host: Option<Seq<char>>,
    pub extra_args: Seq<Seq<char>>,
    pub created_at: Seq<char>,
    pub updated_at: Seq<char>,
    pub volume_kind: Option<Seq<char>>,
}

impl View for MountProfile {
    type V = ProfileView;

    open spec fn view(&self) -> ProfileView {
        ProfileView {
            id: self.id@,
            schema_version: self.schema_version,
            kind: self.kind@,
            name: self.name@,
            volume: self.volume@,
            fork: self.fork@,
            mount_path: self.mount_path@,
            discovery_url: self.discovery_url@,
            access_key_id: self.access_key_id@,
            secret_ref: self.secret_ref@,
            backend: self.backend,
            cache_dir: opt_view(self.cache_dir),
            read_only: self.read_only,
            auto_remount: self.auto_remount,
            temporary_fork: self.temporary_fork,
            trusted_discovery_host: opt_view(self.trusted_discovery_host),
            extra_args: views(self.extra_args@),
            created_at: self.created_at@,
            updated_at: self.updated_at@,
            volume_kind: opt_view(self.volume_kind),
        }
    }
}

pub fn copy_opt(o: &Option<String>) -> (r: Option<String>)
    ensures
        opt_view(r) == opt_view(*o),
{
    match o {
        Some(s) => Some(s.clone()),
        None => None,
    }
}

pub fn copy_strings(v: &Vec<String>) -> (r: Vec<String>)
    ensures
        views(r@) == views(v@),
{
    let mut r: Vec<String> = Vec::new();
    let mut i: usize = 0;
    while i < v.len()
        invariant
            i <= v@.len(),
            r@.len() == i,
            forall|k: int| 0 <= k < i ==> (#[trigger] r@[k])@ == v@[k]@,
        decreases v@.len() - i,
    {
        let c = v[i].clone();
        r.push(c);
        i += 1;
    }
    proof {
        lemma_views_eq(r@, v@);
    }
    r
}

impl MountProfile {
    /// A profile with the same content.
    pub fn duplicate(&self) -> (r: MountProfile)
        ensures
            r@ == self@,
    {
        MountProfile {
            id: self.id.clone(),
            schema_version: self.schema_version,
            kind: self.kind.clone(),
            name: self.name.clone(),
            volume: self.volume.clone(),
            fork: self.fork.clone(),
            mount_path: self.mount_path.clone(),
            discovery_url: self.discovery_url.clone(),
            access_key_id: self.access_key_id.clone(),
            secret_ref: self.secret_ref.clone(),
            backend: self.backend,
            cache_dir: copy_opt(&self.cache_dir),
            read_only: self.read_only,
            auto_remount: self.auto_remount,
            temporary_fork: self.temporary_fork,
            trusted_discovery_host: copy_opt(&self.trusted_discovery_host),
            extra_args: copy_strings(&self.extra_args),
            created_at: self.created_at.clone(),
            updated_at: self.updated_at.clone(),
            volume_kind: copy_opt(&self.volume_kind),
        }
    }
}

pub open spec fn is_id_char(c: char) -> bool {
    is_ascii_alnum(c) || c == '-' || c == '_'
}

/// A profile id names a file in the profile directory: 1 to 128 characters,
/// each an ASCII letter, digit, '-' or '_'.
pub open spec fn valid_profile_id(id: Seq<char>) -> bool {
    &&& 0 < id.len() <= 128
    &&& forall|i: int| 0 <= i < id.len() ==> is_id_char(#[trigger] id[i])
}

pub fn validate_profile_id(id: &str) -> (r: Result<(), DesktopError>)
    ensures
        r is Ok <==> valid_profile_id(id@),
        r is Err ==> fails_with(r, "invalid profile id"@),
{
    let v = chars_of(id);
    let mut ok = v.len() > 0 && v.len() <= 128;
    let mut i: usize = 0;
    while ok && i < v.len()
        invariant
            v@ == id@,
            i <= v@.len(),
            ok ==> 0 < v@.len() <= 128,
            ok ==> forall|k: int| 0 <= k < i ==> is_id_char(#[trigger] v@[k]),
            !ok ==> !valid_profile_id(id@),
        decreases v@.len() - i,
    {
        let c = v[i];
        if !(('a' <= c && c <= 'z') || ('A' <= c && c <= 'Z') || ('0' <= c && c <= '9') || c == '-'
            || c == '_') {
            ok = false;
        }
        i += 1;
    }
    if ok {
        Ok(())
    } else {
        Err(fail("invalid profile id"))
    }
}

/// A valid profile id cannot step out of the profile directory: it holds
/// no path separator and no dot.
pub proof fn profile_id_stays_in_directory(id: Seq<char>)
    requires
        valid_profile_id(id),
    ensures
        !id.contains('/'),
        !id.contains('\\'),
        !id.contains('.'),
{
    if id.contains('/') {
        let i = choose|i: int| 0 <= i < id.len() && id[i] == '/';
        assert(is_id_char(id[i]));
    }
    if id.contains('\\') {
        let i = choose|i: int| 0 <= i < id.len() && id[i] == '\\';
        assert(is_id_char(id[i]));
    }
    if id.contains('.') {
        let i = choose|i: int| 0 <= i < id.len() && id[i] == '.';
        assert(is_id_char(id[i]));
    }
}

/// The file a profile is stored in, inside the profile directory.
pub fn profile_file_name(id: &str) -> (r: Result<String, DesktopError>)
    ensures
        r is Ok <==> valid_profile_id(id@),
        r matches Ok(name) ==> name@ == id@ + ".json"@,
        r is Err ==> fails_with(r, "invalid profile id"@),
{
    validate_profile_id(id)?;
    let mut name = text(id);
    name.append(".json");
    Ok(name)
}

/// The keychain account a profile's secret is stored under.
pub fn keyring_account(profile_id: &str) -> (r: Result<String, DesktopError>)
    ensures
        r is Ok <==> valid_profile_id(profile_id@),
        r matches Ok(name) ==> name@ == "profile/"@ + profile_id@,
        r is Err ==> fails_with(r, "invalid profile id"@),
{
    validate_profile_id(profile_id)?;
    let mut name = text("profile/");
    name.append(profile_id);
    Ok(name)
}

pub open spec fn is_sep(p: Platform, c: char) -> bool {
    c == '/' || (p == Platform::Windows && c == '\\')
}

pub open spec fn drive_prefixed(t: Seq<char>) -> bool {
    t.len() >= 2 && is_ascii_alpha(t[0]) && t[1] == ':'
}

/// The index of the first separator of `t` at `k` or after, or `t.len()`
/// when there is none.
pub open spec fn first_sep_from(p: Platform, t: Seq<char>, k: int) -> int
    decreases t.len() - k,
{
    if k < 0 || k >= t.len() {
        t.len() as int
    } else if is_sep(p, t[k]) {
        k
    } else {
        first_sep_from(p, t, k + 1)
    }
}

/// `\\server\share`: two separators, a non-empty server name, a separator
/// and a non-empty share name.
pub open spec fn unc_prefixed(p: Platform, t: Seq<char>) -> bool {
    let k = first_sep_from(p, t, 2);
    &&& t.len() >= 2 && is_sep(p, t[0]) && is_sep(p, t[1])
    &&& k > 2
    &&& k + 1 < t.len()
    &&& !is_sep(p, t[k + 1])
}

/// `\\?\`, written with backslashes only: a verbatim path.
pub open spec fn verbatim_prefixed(t: Seq<char>) -> bool {
    t.len() >= 4 && t[0] == '\\' && t[1] == '\\' && t[2] == '?' && t[3] == '\\'
}

/// `\\.\`: a device path.
pub open spec fn device_prefixed(p: Platform, t: Seq<char>) -> bool {
    t.len() >= 4 && is_sep(p, t[0]) && is_sep(p, t[1]) && t[2] == '.' && is_sep(p, t[3])
}

/// Whether `t` names a filesystem location on its own: rooted at '/' on
/// Unix; on Windows a drive letter and colon, or a UNC (`\\server\share`),
/// verbatim (`\\?\`) or device (`\\.\`) path, as `Path::is_absolute`
/// reads them.
pub open spec fn openable(p: Platform, t: Seq<char>) -> bool {
    if p == Platform::Windows {
        drive_prefixed(t) || verbatim_prefixed(t) || device_prefixed(p, t) || unc_prefixed(p, t)
    } else {
        t.len() > 0 && t[0] == '/'
    }
}

fn is_sep_char(platform: Platform, c: char) -> (r: bool)
    ensures
        r == is_sep(platform, c),
{
    c == '/' || (platform == Platform::Windows && c == '\\')
}

pub fn is_openable_target(platform: Platform, target: &str) -> (r: bool)
    ensures
        r == openable(platform, target@),
{
    let t = chars_of(target);
    match platform {
        Platform::Windows => {
            let drive = t.len() >= 2 && (('a' <= t[0] && t[0] <= 'z') || ('A' <= t[0] && t[0]
                <= 'Z')) && t[1] == ':';
            if drive {
                return true;
            }
            if t.len() < 2 || !is_sep_char(platform, t[0]) || !is_sep_char(platform, t[1]) {
                return false;
            }
            if t.len() >= 4 && t[0] == '\\' && t[1] == '\\' && t[2] == '?' && t[3] == '\\' {
                return true;
            }
            if t.len() >= 4 && t[2] == '.' && is_sep_char(platform, t[3]) {
                return true;
            }
            let mut k: usize = 2;
            while k < t.len() && !is_sep_char(platform, t[k])
                invariant
                    t@ == target@,
                    2 <= k <= t@.len(),
                    first_sep_from(platform, t@, 2) == first_sep_from(platform, t@, k as int),
                decreases t@.len() - k,
            {
                k += 1;
            }
            assert(first_sep_from(platform, t@, k as int) == k);
            k > 2 && k < t.len() - 1 && !is_sep_char(platform, t[k + 1])
        },
        _ => t.len() > 0 && t[0] == '/',
    }
}

/// A `..` component: the two dots with a separator or an end of the string on each side.
pub open spec fn parent_at(p: Platform, s: Seq<char>, i: int) -> bool {
    &&& occurs_at(s, ".."@, i)
    &&& (i == 0 || is_sep(p, s[i - 1]))
    &&& (i + 2 == s.len() || is_sep(p, s[i + 2]))
}

pub open spec fn has_parent_component(p: Platform, s: Seq<char>) -> bool {
    exists|i: int| parent_at(p, s, i)
}

pub fn check_parent_component(platform: Platform, s: &[char]) -> (r: bool)
    ensures
        r == has_parent_component(platform, s@),
{
    let dots = chars_of("..");
    let mut i: usize = 0;
    while i < s.len()
        invariant
            dots@ == ".."@,
            i <= s@.len(),
            forall|k: int| 0 <= k < i ==> !parent_at(platform, s@, k),
        decreases s@.len() - i,
    {
        let before = i == 0 || s[i - 1] == '/' || (platform == Platform::Windows && s[i - 1]
            == '\\');
        let at = matches_at(s, &dots, i);
        if at && before {
            proof {
                reveal_strlit("..");
            }
            let after = i + 2 == s.len() || s[i + 2] == '/' || (platform == Platform::Windows
                && s[i + 2] == '\\');
            if after {
                assert(parent_at(platform, s@, i as int));
                return true;
            }
        }
        i += 1;
    }
    proof {
        assert forall|k: int| !parent_at(platform, s@, k) by {
            if parent_at(platform, s@, k) {
                assert(0 <= k < s@.len()) by {
                    reveal_strlit("..");
                }
            }
        }
    }
    false
}

pub open spec fn fskit_root() -> Seq<char> {
    "/Volumes/MountOS/"@
}

/// Why a mount path is refused for a backend, if it is.
pub open spec fn mount_path_problem(p: Platform, backend: Backend, path: Seq<char>) -> Option<
    Seq<char>,
> {
    if path.len() > 0 && !openable(p, path) {
        Some("mount path must be an absolute filesystem path, got "@ + debug_str(path))
    } else if backend == Backend::Fskit && ({
        let trimmed = strip_back(path, CharClass::Only('/'));
        trimmed.len() == 0 || has_parent_component(p, trimmed) || !(fskit_root().is_prefix_of(
            trimmed,
        ) && trimmed.len() > fskit_root().len())
    }) {
        Some(
            "FSKit requires a mount point under /Volumes/MountOS/<name>, got "@ + debug_str(path),
        )
    } else {
        None
    }
}

/// An FSKit mount path that passes lies strictly under /Volumes/MountOS/
/// (trailing slashes aside) and has no `..` component, so it cannot leave
/// that directory; any other non-empty path that passes is absolute.
pub proof fn accepted_fskit_paths_stay_in_the_volume_root(p: Platform, path: Seq<char>)
    requires
        mount_path_problem(p, Backend::Fskit, path) is None,
    ensures
        ({
            let t = strip_back(path, CharClass::Only('/'));
            &&& fskit_root().is_prefix_of(t)
            &&& t.len() > fskit_root().len()
            &&& !has_parent_component(p, t)
            &&& openable(p, path)
        }),
{
}

/// An empty mount path is allowed (the CLI picks one); any other must be
/// absolute, and FSKit's must lie strictly under /Volumes/MountOS/ without
/// a `..` component.
pub fn validate_mount_path_for_backend(platform: Platform, backend: &Backend, mount_path: &str) -> (r:
    Result<(), DesktopError>)
    ensures
        r is Ok <==> mount_path_problem(platform, *backend, mount_path@) is None,
        mount_path_problem(platform, *backend, mount_path@) matches Some(m) ==> fails_with(r, m),
{
    let v = chars_of(mount_path);
    if v.len() > 0 && !is_openable_target(platform, mount_path) {
        return Err(
            fail2(
                "mount path must be an absolute filesystem path, got ",
                debug_quoted(mount_path).as_str(),
            ),
        );
    }
    if *backend == Backend::Fskit {
        let j = strip_back_len(&v, CharClass::Only('/'));
        let trimmed = string_of_range(&v, 0, j);
        let tv = chars_of(trimmed.as_str());
        let bad = tv.len() == 0 || check_parent_component(platform, &tv) || !(starts_with_str(
            trimmed.as_str(),
            "/Volumes/MountOS/",
        ) && tv.len() > chars_of("/Volumes/MountOS/").len());
        if bad {
            return Err(
                fail2(
                    "FSKit requires a mount point under /Volumes/MountOS/<name>, got ",
                    debug_quoted(mount_path).as_str(),
                ),
            );
        }
    }
    Ok(())
}


pub open spec fn backend_allowed(p: Platform, b: Backend) -> bool {
    match p {
        Platform::MacOs => b == Backend::Auto || b == Backend::Macfuse || b == Backend::Fskit || b
            == Backend::Nfs || b == Backend::Smb,
        Platform::Windows => b == Backend::Auto || b == Backend::Mountosio,
        Platform::Other => b == Backend::Auto || b == Backend::Nfs,
    }
}

/// Which backend each platform mounts with, case by case: macOS takes
/// `Auto`, macFUSE, FSKit, NFS and SMB but not MountOS IO; Windows takes
/// `Auto` and MountOS IO only; any other system `Auto` and NFS only.
/// `std::env::consts::OS` names macOS "macos" and Windows "windows".
pub proof fn backends_by_platform()
    ensures
        platform_for_os("macos"@) == Platform::MacOs,
        platform_for_os("windows"@) == Platform::Windows,
        platform_for_os("linux"@) == Platform::Other,
        backend_allowed(Platform::MacOs, Backend::Auto),
        backend_allowed(Platform::MacOs, Backend::Macfuse),
        backend_allowed(Platform::MacOs, Backend::Fskit),
        backend_allowed(Platform::MacOs, Backend::Nfs),
        backend_allowed(Platform::MacOs, Backend::Smb),
        !backend_allowed(Platform::MacOs, Backend::Mountosio),
        backend_allowed(Platform::Windows, Backend::Auto),
        backend_allowed(Platform::Windows, Backend::Mountosio),
        !backend_allowed(Platform::Windows, Backend::Macfuse),
        !backend_allowed(Platform::Windows, Backend::Fskit),
        !backend_allowed(Platform::Windows, Backend::Nfs),
        !backend_allowed(Platform::Windows, Backend::Smb),
        backend_allowed(Platform::Other, Backend::Auto),
        backend_allowed(Platform::Other, Backend::Nfs),
        !backend_allowed(Platform::Other, Backend::Macfuse),
        !backend_allowed(Platform::Other, Backend::Fskit),
        !backend_allowed(Platform::Other, Backend::Smb),
        !backend_allowed(Platform::Other, Backend::Mountosio),
{
    reveal_strlit("macos");
    reveal_strlit("windows");
    reveal_strlit("linux");
    assert("linux"@ != "macos"@) by {
        assert("linux"@[0] != "macos"@[0]);
    }
    assert("linux"@ != "windows"@) by {
        assert("linux"@.len() != "windows"@.len());
    }
    assert("windows"@ != "macos"@) by {
        assert("windows"@.len() != "macos"@.len());
    }
}

/// macOS offers macFUSE, FSKit, NFS and SMB; Windows MountOS IO; elsewhere
/// only NFS. `Auto` is allowed everywhere. `os` is `std::env::consts::OS`.
pub fn validate_backend_for_platform(os: &str, backend: &Backend) -> (r: Result<(), DesktopError>)
    ensures
        r is Ok <==> backend_allowed(platform_for_os(os@), *backend),
        r is Err ==> fails_with(r, "backend is unavailable on "@ + os@),
{
    let p = Platform::from_os(os);
    let b = *backend;
    let valid = match p {
        Platform::MacOs => b == Backend::Auto || b == Backend::Macfuse || b == Backend::Fskit || b
            == Backend::Nfs || b == Backend::Smb,
        Platform::Windows => b == Backend::Auto || b == Backend::Mountosio,
        Platform::Other => b == Backend::Auto || b == Backend::Nfs,
    };
    if valid {
        Ok(())
    } else {
        Err(fail2("backend is unavailable on ", os))
    }
}

/// A fork name goes on the command line as a positional: it is trimmed,
/// and may be neither blank nor start with '-'.
pub fn validate_fork_name(name: &str) -> (r: Result<String, DesktopError>)
    ensures
        trim(name@).len() == 0 ==> fails_with(r, "fork name is required"@),
        trim(name@).len() > 0 && trim(name@)[0] == '-' ==> fails_with(
            r,
            "fork name must not start with '-'"@,
        ),
        trim(name@).len() > 0 && trim(name@)[0] != '-' ==> (r matches Ok(t) && t@ == trim(name@)),
{
    let trimmed = trim_str(name);
    let v = chars_of(trimmed.as_str());
    if v.len() == 0 {
        return Err(fail("fork name is required"));
    }
    if v[0] == '-' {
        return Err(fail("fork name must not start with '-'"));
    }
    Ok(trimmed)
}

pub open spec fn stem_char(c: char) -> char {
    if is_ascii_alnum(c) || c == '-' || c == '_' || c == ' ' {
        c
    } else {
        '-'
    }
}

/// The file name stem an exported profile gets: every character other than
/// an ASCII letter, digit, '-', '_' or space becomes '-', then surrounding
/// whitespace and dashes go; a name with nothing left uses `fallback`.
pub open spec fn file_stem(name: Seq<char>, fallback: Seq<char>) -> Seq<char> {
    let mapped = Seq::new(name.len(), |i: int| stem_char(name[i]));
    let stem = strip(strip(mapped, CharClass::Whitespace), CharClass::Only('-'));
    if stem.len() == 0 {
        fallback
    } else {
        stem
    }
}

pub fn export_file_stem(name: &str, fallback: &str) -> (r: String)
    ensures
        r@ == file_stem(name@, fallback@),
{
    let v = chars_of(name);
    let mut mapped: Vec<char> = Vec::new();
    let mut i: usize = 0;
    while i < v.len()
        invariant
            v@ == name@,
            i <= v@.len(),
            mapped@ == Seq::new(name@.len(), |k: int| stem_char(name@[k])).take(i as int),
        decreases v@.len() - i,
    {
        let c = v[i];
        let d = if ('a' <= c && c <= 'z') || ('A' <= c && c <= 'Z') || ('0' <= c && c <= '9') || c
            == '-' || c == '_' || c == ' ' {
            c
        } else {
            '-'
        };
        mapped.push(d);
        i += 1;
        assert(mapped@ =~= Seq::new(name@.len(), |k: int| stem_char(name@[k])).take(i as int));
    }
    assert(mapped@ =~= Seq::new(name@.len(), |k: int| stem_char(name@[k])));
    let (a, b) = strip_chars(&mapped, CharClass::Whitespace);
    let inner = string_of_range(&mapped, a, b);
    let iv = chars_of(inner.as_str());
    let (c, d) = strip_chars(&iv, CharClass::Only('-'));
    if c == d {
        assert(iv@.subrange(c as int, d as int).len() == 0);
        text(fallback)
    } else {
        string_of_range(&iv, c, d)
    }
}

/// What a mount target compares as: its resolved text without trailing
/// '/' or '\\', and on Windows in ASCII lower case.
pub open spec fn normalized(p: Platform, resolved: Seq<char>) -> Seq<char> {
    let t = strip_back(resolved, CharClass::Slash);
    if p == Platform::Windows {
        ascii_lower(t)
    } else {
        t
    }
}

/// `resolved` is the target after filesystem resolution (`canonicalize`,
/// or the target itself where that fails).
pub fn normalized_target(platform: Platform, resolved: &str) -> (r: String)
    ensures
        r@ == normalized(platform, resolved@),
{
    let v = chars_of(resolved);
    let j = strip_back_len(&v, CharClass::Slash);
    let t = string_of_range(&v, 0, j);
    if platform == Platform::Windows {
        ascii_lowercase(t.as_str())
    } else {
        t
    }
}

/// Whether two resolved targets name the same mount point.
pub fn targets_equal(platform: Platform, left_resolved: &str, right_resolved: &str) -> (r: bool)
    ensures
        r == (normalized(platform, left_resolved@) == normalized(platform, right_resolved@)),
{
    let l = normalized_target(platform, left_resolved);
    let r = normalized_target(platform, right_resolved);
    l == r
}

/// Why a satellite view destination is refused, if it is.
pub open spec fn view_destination_problem(
    p: Platform,
    profile: ProfileView,
    destination: Seq<char>,
    resolved_destination: Seq<char>,
    resolved_mount_path: Seq<char>,
) -> Option<Seq<char>> {
    if trim(destination).len() == 0 || !openable(p, destination) {
        Some("destination must be an absolute filesystem path"@)
    } else if mount_path_problem(p, profile.backend, destination) is Some {
        mount_path_problem(p, profile.backend, destination)
    } else if profile.mount_path.len() > 0 && normalized(p, resolved_destination) == normalized(
        p,
        resolved_mount_path,
    ) {
        Some("destination must differ from the profile's own mount path"@)
    } else {
        None
    }
}

/// A satellite view's destination must be an absolute path that the
/// profile's backend accepts, other than the profile's own mount path.
/// The two resolved texts are the destination and the profile's mount path
/// after filesystem resolution.
pub fn validate_view_destination(
    platform: Platform,
    profile: &MountProfile,
    destination: &str,
    resolved_destination: &str,
    resolved_mount_path: &str,
) -> (r: Result<(), DesktopError>)
    ensures
        r is Ok <==> view_destination_problem(
            platform,
            profile@,
            destination@,
            resolved_destination@,
            resolved_mount_path@,
        ) is None,
        view_destination_problem(
            platform,
            profile@,
            destination@,
            resolved_destination@,
            resolved_mount_path@,
        ) matches Some(m) ==> fails_with(r, m),
{
    let t = trim_str(destination);
    if t.as_str().is_empty() || !is_openable_target(platform, destination) {
        return Err(fail("destination must be an absolute filesystem path"));
    }
    validate_mount_path_for_backend(platform, &profile.backend, destination)?;
    if !profile.mount_path.as_str().is_empty() && targets_equal(
        platform,
        resolved_destination,
        resolved_mount_path,
    ) {
        return Err(fail("destination must differ from the profile's own mount path"));
    }
    Ok(())
}

pub open spec fn identity_lock_message() -> Seq<char> {
    "this profile's identity is locked: access key ID, discovery URL, and volume name cannot change once the volume kind is known (after first mount). Delete and recreate the profile to point at a different volume."@
}

/// Why saving `profile` over `existing` would change a locked identity, if it would.
pub open spec fn identity_problem(existing: Option<ProfileView>, profile: ProfileView) -> Option<
    Seq<char>,
> {
    match existing {
        None => None,
        Some(e) => match e.volume_kind {
            None => None,
            Some(kind) => if e.access_key_id != profile.access_key_id || e.discovery_url
                != profile.discovery_url || e.volume != profile.volume {
                Some(identity_lock_message())
            } else if profile.volume_kind != Some(kind) {
                Some("volume kind cannot be changed once detected"@)
            } else {
                None
            },
        },
    }
}

pub open spec fn opt_profile_view(o: Option<&MountProfile>) -> Option<ProfileView> {
    match o {
        Some(p) => Some(p@),
        None => None,
    }
}

/// Once the stored profile's volume kind is known, its access key id,
/// discovery URL and volume name are locked, and so is the kind itself.
/// `existing` is the stored profile with the same id, if there is one.
pub fn require_stable_identity(existing: Option<&MountProfile>, profile: &MountProfile) -> (r: Result<
    (),
    DesktopError,
>)
    ensures
        r is Ok <==> identity_problem(opt_profile_view(existing), profile@) is None,
        identity_problem(opt_profile_view(existing), profile@) matches Some(m) ==> fails_with(r, m),
{
    let existing = match existing {
        Some(e) => e,
        None => return Ok(()),
    };
    let kind = match &existing.volume_kind {
        Some(k) => k,
        None => return Ok(()),
    };
    if !same_text(existing.access_key_id.as_str(), profile.access_key_id.as_str()) || !same_text(
        existing.discovery_url.as_str(),
        profile.discovery_url.as_str(),
    ) || !same_text(existing.volume.as_str(), profile.volume.as_str()) {
        return Err(
            fail(
                "this profile's identity is locked: access key ID, discovery URL, and volume name cannot change once the volume kind is known (after first mount). Delete and recreate the profile to point at a different volume.",
            ),
        );
    }
    let same_kind = match &profile.volume_kind {
        Some(k) => same_text(k.as_str(), kind.as_str()),
        None => false,
    };
    if !same_kind {
        return Err(fail("volume kind cannot be changed once detected"));
    }
    Ok(())
}

/// Mount access key ids are exactly this many characters long.
pub const ACCESS_KEY_ID_LENGTH: usize = 20;

/// Why a profile cannot be saved, if it cannot.
pub open spec fn save_problem(p: Platform, existing: Option<ProfileView>, profile: ProfileView) -> Option<
    Seq<char>,
> {
    if !valid_profile_id(profile.id) {
        Some("invalid profile id"@)
    } else if profile.schema_version != 1 {
        Some("unsupported profile schema version "@ + decimal(profile.schema_version as nat))
    } else if profile.kind != "mount"@ {
        Some("unsupported profile kind"@)
    } else if profile.secret_ref == "vault"@ && profile.access_key_id.len() == 0 {
        Some("vault storage requires an access key ID"@)
    } else if profile.access_key_id.len() > 0 && profile.access_key_id.len() != 20 {
        Some("access key ID must be 20 characters"@)
    } else if identity_problem(existing, profile) is Some {
        identity_problem(existing, profile)
    } else if mount_path_problem(p, profile.backend, profile.mount_path) is Some {
        mount_path_problem(p, profile.backend, profile.mount_path)
    } else if refused(profile.extra_args).len() > 0 {
        Some("managed extra args rejected: "@ + join(refused(profile.extra_args), ", "@))
    } else {
        None
    }
}

/// The checks a profile passes before it is written: a valid id, schema 1,
/// kind "mount", an access key id for vault storage and of the right length,
/// a stable identity, a mount path its backend accepts, and extra arguments
/// that carry no managed flag. `existing` is the stored profile with the same id.
pub fn validate_profile_for_save(
    platform: Platform,
    profile: &MountProfile,
    existing: Option<&MountProfile>,
) -> (r: Result<(), DesktopError>)
    ensures
        r is Ok <==> save_problem(platform, opt_profile_view(existing), profile@) is None,
        save_problem(platform, opt_profile_view(existing), profile@) matches Some(m) ==> fails_with(
            r,
            m,
        ),
{
    validate_profile_id(profile.id.as_str())?;
    if profile.schema_version != 1 {
        return Err(
            fail2(
                "unsupported profile schema version ",
                decimal_string(profile.schema_version as u64).as_str(),
            ),
        );
    }
    if !same_text(profile.kind.as_str(), "mount") {
        return Err(fail("unsupported profile kind"));
    }
    let key_len = chars_of(profile.access_key_id.as_str()).len();
    if same_text(profile.secret_ref.as_str(), "vault") && key_len == 0 {
        return Err(fail("vault storage requires an access key ID"));
    }
    if key_len > 0 && key_len != ACCESS_KEY_ID_LENGTH {
        return Err(fail("access key ID must be 20 characters"));
    }
    require_stable_identity(existing, profile)?;
    validate_mount_path_for_backend(platform, &profile.backend, profile.mount_path.as_str())?;
    reject_managed_extra_args(profile)?;
    Ok(())
}

/// The stored profile with the given id; the id must be valid.
pub fn find_profile(profiles: &Vec<MountProfile>, profile_id: &str) -> (r: Result<
    MountProfile,
    DesktopError,
>)
    ensures
        !valid_profile_id(profile_id@) ==> fails_with(r, "invalid profile id"@),
        valid_profile_id(profile_id@) ==> (r is Ok <==> exists|i: int|
            0 <= i < profiles@.len() && (#[trigger] profiles@[i]).id@ == profile_id@),
        r matches Ok(p) ==> exists|i: int|
            0 <= i < profiles@.len() && p@ == (#[trigger] profiles@[i])@ && (forall|k: int|
                0 <= k < i ==> (#[trigger] profiles@[k]).id@ != profile_id@),
        valid_profile_id(profile_id@) && r is Err ==> fails_with(r, "profile not found"@),
{
    if let Err(e) = validate_profile_id(profile_id) {
        return Err(e);
    }
    let mut i: usize = 0;
    while i < profiles.len()
        invariant
            i <= profiles@.len(),
            valid_profile_id(profile_id@),
            forall|k: int| 0 <= k < i ==> (#[trigger] profiles@[k]).id@ != profile_id@,
        decreases profiles@.len() - i,
    {
        if same_text(profiles[i].id.as_str(), profile_id) {
            let p = profiles[i].duplicate();
            assert(p@ == profiles@[i as int]@);
            return Ok(p);
        }
        i += 1;
    }
    Err(fail("profile not found"))
}

} // verus!
