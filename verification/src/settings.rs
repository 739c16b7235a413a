//! The desktop settings, what saving them accepts, the gates they put on
//! forced operations, and the pinned CLI path they carry.
use vstd::prelude::*;

use crate::error::{fails_with, DesktopError};
use crate::profile::{backend_allowed, opt_view, platform_for_os, validate_backend_for_platform, Backend};
use crate::text::{decimal, decimal_string, text};

verus! {

/// The user's preferences.
pub struct DesktopSettings {
    pub default_backend: Backend,
    /// Seconds between mount-list refreshes while the window shows; `0` is
    /// off, `None` the default.
    pub poll_seconds: Option<u32>,
    /// The dashboard terminal's id; `None` is the platform's stock one.
    pub terminal: Option<String>,
    /// Seeds the discovery URL of new profiles.
    pub default_discovery_url: Option<String>,
    /// An exact `mountos` binary to run instead of the first on PATH.
    pub cli_path_override: Option<String>,
    /// Offers `--force` on fork delete.
    pub allow_fork_force_delete: bool,
    /// Offers `--force` on unmount.
    pub allow_unmount_force: bool,
}

impl Default for DesktopSettings {
    fn default() -> (r: Self)
        ensures
            r.default_backend == Backend::Auto,
            r.poll_seconds is None,
            r.terminal is None,
            r.default_discovery_url is None,
            r.cli_path_override is None,
            !r.allow_fork_force_delete,
            !r.allow_unmount_force,
    {
        DesktopSettings {
            default_backend: Backend::Auto,
            poll_seconds: None,
            terminal: None,
            default_discovery_url: None,
            cli_path_override: None,
            allow_fork_force_delete: false,
            allow_unmount_force: false,
        }
    }
}

/// Why saving `s` is refused, if it is: a default backend the platform
/// lacks, a refresh interval past an hour, or a pinned CLI path that is not
/// a file (`pinned_is_file` says whether it is).
pub open spec fn settings_problem(os: Seq<char>, s: DesktopSettings, pinned_is_file: bool) -> Option<Seq<char>> {
    if !backend_allowed(platform_for_os(os), s.default_backend) {
        Some("backend is unavailable on "@ + os)
    } else if s.poll_seconds matches Some(n) && n > 3600 {
        Some(
            "refresh interval must be 0 (off) or between 1 and 3600 seconds, got "@ + decimal(
                s.poll_seconds->0 as nat,
            ),
        )
    } else if s.cli_path_override matches Some(p) && !pinned_is_file {
        Some("not a file: "@ + s.cli_path_override->0@)
    } else {
        None
    }
}

/// Checks settings before they are saved. `os` is `std::env::consts::OS`;
/// `pinned_is_file` says whether the pinned CLI path, if any, is a file.
pub fn validate_settings(os: &str, settings: &DesktopSettings, pinned_is_file: bool) -> (r: Result<(), DesktopError>)
    ensures
        match settings_problem(os@, *settings, pinned_is_file) {
            Some(m) => fails_with(r, m),
            None => r is Ok,
        },
{
    match validate_backend_for_platform(os, &settings.default_backend) {
        Ok(()) => {},
        Err(e) => return Err(e),
    }
    match settings.poll_seconds {
        Some(seconds) => {
            if seconds != 0 && !(1 <= seconds && seconds <= 3600) {
                let mut m = text("refresh interval must be 0 (off) or between 1 and 3600 seconds, got ");
                m.append(decimal_string(seconds as u64).as_str());
                return Err(DesktopError::Message(m));
            }
        },
        None => {},
    }
    match &settings.cli_path_override {
        Some(pinned) => {
            if !pinned_is_file {
                let mut m = text("not a file: ");
                m.append(pinned.as_str());
                return Err(DesktopError::Message(m));
            }
        },
        None => {},
    }
    Ok(())
}

/// Force fork delete is allowed only when the settings enable it.
pub fn require_force_delete_allowed(settings: &DesktopSettings) -> (r: Result<(), DesktopError>)
    ensures
        settings.allow_fork_force_delete ==> r is Ok,
        !settings.allow_fork_force_delete ==> fails_with(
            r,
            "Force fork delete is disabled. Enable it in Settings first."@,
        ),
{
    if settings.allow_fork_force_delete {
        Ok(())
    } else {
        Err(DesktopError::Message(text("Force fork delete is disabled. Enable it in Settings first.")))
    }
}

/// Force unmount is allowed only when the settings enable it.
pub fn require_force_unmount_allowed(settings: &DesktopSettings) -> (r: Result<(), DesktopError>)
    ensures
        settings.allow_unmount_force ==> r is Ok,
        !settings.allow_unmount_force ==> fails_with(
            r,
            "Force unmount is disabled. Enable it in Settings first."@,
        ),
{
    if settings.allow_unmount_force {
        Ok(())
    } else {
        Err(DesktopError::Message(text("Force unmount is disabled. Enable it in Settings first.")))
    }
}

/// The dashboard terminal the settings prefer: none when they could not be
/// read, so a broken settings file never blocks the dashboard.
pub fn preferred_terminal(settings: Option<&DesktopSettings>) -> (r: Option<String>)
    ensures
        opt_view(r) == match settings {
            Some(s) => opt_view(s.terminal),
            None => None,
        },
{
    match settings {
        Some(s) => match &s.terminal {
            Some(t) => Some(t.clone()),
            None => None,
        },
        None => None,
    }
}

/// The CLI path pinned by the settings, kept for every later lookup of the
/// binary.
pub struct CliPathOverrideCell {
    path: Option<String>,
}

impl View for CliPathOverrideCell {
    type V = Option<Seq<char>>;

    closed spec fn view(&self) -> Option<Seq<char>> {
        opt_view(self.path)
    }
}

/// The cell once `path` is set in it.
pub closed spec fn cell_with(cell: CliPathOverrideCell, path: Option<String>) -> CliPathOverrideCell {
    CliPathOverrideCell { path }
}

/// A cell with nothing pinned.
pub fn cli_path_override_cell() -> (r: CliPathOverrideCell)
    ensures
        r@ is None,
{
    CliPathOverrideCell { path: None }
}

/// Pins `path`, or unpins with `None`.
pub fn set_cli_path_override(cell: &mut CliPathOverrideCell, path: Option<String>)
    ensures
        *final(cell) == cell_with(*old(cell), path),
{
    cell.path = path;
}

/// The pinned path.
pub fn cli_path_override(cell: &CliPathOverrideCell) -> (r: Option<String>)
    ensures
        opt_view(r) == cell@,
{
    match &cell.path {
        Some(p) => Some(p.clone()),
        None => None,
    }
}

/// Reading the pinned path back gives exactly what was last set, whatever
/// was pinned before.
pub proof fn pinned_path_reads_back(cell: CliPathOverrideCell, path: Option<String>)
    ensures
        cell_with(cell, path)@ == opt_view(path),
{
}

/// Where the client looks for the binary: the pinned path when one is set
/// (`pinned_is_file` says whether it still is a file; a pin that went away
/// fails rather than falling back), else the first match on PATH.
pub fn choose_cli_path(pinned: Option<&str>, pinned_is_file: bool, on_path: Option<String>) -> (r: Result<String, DesktopError>)
    ensures
        match pinned {
            Some(p) => if pinned_is_file {
                r matches Ok(s) && s@ == p@
            } else {
                fails_with(r, "pinned CLI path no longer exists: "@ + p@)
            },
            None => match on_path {
                Some(f) => r matches Ok(s) && s@ == f@,
                None => r matches Err(DesktopError::CliNotFound),
            },
        },
{
    match pinned {
        Some(p) => if pinned_is_file {
            Ok(text(p))
        } else {
            let mut m = text("pinned CLI path no longer exists: ");
            m.append(p);
            Err(DesktopError::Message(m))
        },
        None => match on_path {
            Some(f) => Ok(f),
            None => Err(DesktopError::CliNotFound),
        },
    }
}

/// Every `mountos` on PATH except the one in use, in PATH order.
pub fn other_cli_paths(all: &[String], resolved: Option<&str>) -> (r: Vec<String>)
    ensures
        crate::text::views(r@) == crate::text::views(all@).filter(
            |p: Seq<char>| match resolved {
                Some(x) => p != x@,
                None => true,
            },
        ),
{
    let ghost keep = |p: Seq<char>| match resolved {
        Some(x) => p != x@,
        None => true,
    };
    let mut out: Vec<String> = Vec::new();
    let mut i: usize = 0;
    while i < all.len()
        invariant
            i <= all@.len(),
            keep == (|p: Seq<char>| match resolved {
                Some(x) => p != x@,
                None => true,
            }),
            crate::text::views(out@) == crate::text::views(all@).take(i as int).filter(keep),
        decreases all@.len() - i,
    {
        let p = &all[i];
        let take = match resolved {
            Some(x) => !crate::text::same_text(p.as_str(), x),
            None => true,
        };
        proof {
            let vs = crate::text::views(all@);
            assert(vs.take(i + 1) =~= vs.take(i as int).push(vs[i as int]));
            vs.take(i as int).lemma_filter_push(vs[i as int], keep);
        }
        if take {
            let c = p.clone();
            proof {
                crate::argv::lemma_views_push(out@, c);
            }
            out.push(c);
        }
        i += 1;
    }
    assert(crate::text::views(all@).take(all@.len() as int) =~= crate::text::views(all@));
    out
}

} // verus!
