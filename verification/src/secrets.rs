//! Profile secrets in the OS keychain, and which secret a launch uses.
use vstd::prelude::*;

use crate::error::{fails_with, DesktopError};
use crate::profile::{keyring_account, valid_profile_id, MountProfile};
use crate::text::text;

verus! {

#[verifier::external_type_specification]
#[verifier::external_body]
pub struct ExKeyringEntry(keyring::Entry);

#[verifier::external_type_specification]
#[verifier::external_body]
pub struct ExKeyringError(keyring::Error);

/// The keychain service every profile secret is stored under.
pub const KEYRING_SERVICE: &'static str = "sh.mountos.desktop";

/// A keychain failure: whether it was "no entry", and the text it displays.
pub struct KeyringFailure {
    pub no_entry: bool,
    pub message: String,
}

/// `keyring::Entry::new(service, user)`. Whether the store accepts the pair
/// depends on the platform store, so nothing is stated of the result.
#[verifier::external_body]
fn keyring_entry_new(service: &str, user: &str) -> (r: Result<keyring::Entry, keyring::Error>) {
    keyring::Entry::new(service, user)
}

/// `keyring::Entry::get_password`. What it finds depends on the keychain's
/// contents, so nothing is stated of the result.
#[verifier::external_body]
fn keyring_get_password(entry: &keyring::Entry) -> (r: Result<String, keyring::Error>) {
    entry.get_password()
}

/// `keyring::Entry::set_password`. Whether the keychain takes the password
/// is up to the keychain, so nothing is stated of the result.
#[verifier::external_body]
fn keyring_set_password(entry: &keyring::Entry, password: &str) -> (r: Result<(), keyring::Error>) {
    entry.set_password(password)
}

/// `keyring::Entry::delete_credential`. Whether there was anything to
/// delete is up to the keychain, so nothing is stated of the result.
#[verifier::external_body]
fn keyring_delete_credential(entry: &keyring::Entry) -> (r: Result<(), keyring::Error>) {
    entry.delete_credential()
}

/// Tells `keyring::Error::NoEntry` apart from the other variants and takes
/// the error's `Display` text. Of the text only the `NoEntry` case is
/// stated, as keyring's `Display` impl writes it; the others carry
/// platform details.
#[verifier::external_body]
fn keyring_failure(e: &keyring::Error) -> (r: KeyringFailure)
    ensures
        r.no_entry ==> r.message@ == "No matching entry found in secure storage"@,
{
    KeyringFailure { no_entry: matches!(e, keyring::Error::NoEntry), message: e.to_string() }
}

fn keyring_error(e: &keyring::Error) -> (r: DesktopError)
    ensures
        r is Keyring,
{
    DesktopError::Keyring(keyring_failure(e).message)
}

/// The keychain entry of a profile's secret: service `sh.mountos.desktop`,
/// account `profile/<id>`. The id is checked first; the store may still
/// refuse the entry.
pub fn keyring_entry(profile_id: &str) -> (r: Result<keyring::Entry, DesktopError>)
    ensures
        !valid_profile_id(profile_id@) ==> fails_with(r, "invalid profile id"@),
        valid_profile_id(profile_id@) ==> (r is Ok || r matches Err(DesktopError::Keyring(_))),
{
    let account = match keyring_account(profile_id) {
        Ok(a) => a,
        Err(e) => return Err(e),
    };
    match keyring_entry_new(KEYRING_SERVICE, account.as_str()) {
        Ok(entry) => Ok(entry),
        Err(e) => Err(keyring_error(&e)),
    }
}

/// What a keychain lookup gives a launch: the password, or the failure as
/// a keychain error.
pub fn stored_secret(found: Result<String, KeyringFailure>) -> (r: Result<Option<String>, DesktopError>)
    ensures
        match found {
            Ok(p) => r matches Ok(Some(s)) && s@ == p@,
            Err(f) => r matches Err(DesktopError::Keyring(m)) && m@ == f.message@,
        },
{
    match found {
        Ok(p) => Ok(Some(p)),
        Err(f) => Err(DesktopError::Keyring(f.message)),
    }
}

/// The secret a launch uses before asking for one: the one provided, else
/// the keychain's when the profile keeps it there, else none.
pub open spec fn secret_source_ok(profile: MountProfile, provided: Option<String>, r: Result<Option<String>, DesktopError>) -> bool {
    match provided {
        Some(s) => r matches Ok(Some(x)) && x@ == s@,
        None => if profile.secret_ref@ == "vault"@ {
            if valid_profile_id(profile.id@) {
                r matches Ok(Some(_)) || r matches Err(DesktopError::Keyring(_))
            } else {
                fails_with(r, "invalid profile id"@)
            }
        } else {
            r matches Ok(None)
        },
    }
}

/// The profile's secret: the one provided, else the keychain's when the
/// profile keeps it in the vault, else none. What the keychain holds is up
/// to the keychain.
pub fn read_profile_secret(profile: &MountProfile, provided: Option<String>) -> (r: Result<Option<String>, DesktopError>)
    ensures
        secret_source_ok(*profile, provided, r),
{
    match provided {
        Some(secret) => return Ok(Some(secret)),
        None => {},
    }
    if crate::text::same_text(profile.secret_ref.as_str(), "vault") {
        let entry = match keyring_entry(profile.id.as_str()) {
            Ok(e) => e,
            Err(e) => return Err(e),
        };
        let found = match keyring_get_password(&entry) {
            Ok(p) => Ok(p),
            Err(e) => Err(keyring_failure(&e)),
        };
        let r = stored_secret(found);
        assert(r matches Ok(Some(_)) || r matches Err(DesktopError::Keyring(_)));
        return r;
    }
    Ok(None)
}

/// The secret a launch needs: none without an access key, else the one
/// found by `read_profile_secret`, and an error with `missing` when none is.
pub open spec fn launch_secret_ok(
    profile: MountProfile,
    provided: Option<String>,
    missing: Seq<char>,
    r: Result<Option<String>, DesktopError>,
) -> bool {
    if profile.access_key_id@.len() == 0 {
        r matches Ok(None)
    } else {
        match provided {
            Some(s) => r matches Ok(Some(x)) && x@ == s@,
            None => if profile.secret_ref@ == "vault"@ {
                if valid_profile_id(profile.id@) {
                    r matches Ok(Some(_)) || r matches Err(DesktopError::Keyring(_))
                } else {
                    fails_with(r, "invalid profile id"@)
                }
            } else {
                fails_with(r, missing)
            },
        }
    }
}

fn launch_secret(profile: &MountProfile, provided: Option<String>, missing: &str) -> (r: Result<Option<String>, DesktopError>)
    ensures
        launch_secret_ok(*profile, provided, missing@, r),
{
    if profile.access_key_id.as_str().is_empty() {
        return Ok(None);
    }
    match read_profile_secret(profile, provided) {
        Ok(Some(s)) => Ok(Some(s)),
        Ok(None) => Err(DesktopError::Message(text(missing))),
        Err(e) => Err(e),
    }
}

/// The secret of a fork command or a view mount.
pub fn resolve_satellite_secret(profile: &MountProfile, secret: Option<String>) -> (r: Result<Option<String>, DesktopError>)
    ensures
        launch_secret_ok(*profile, secret, "secret required"@, r),
{
    launch_secret(profile, secret, "secret required")
}

/// The secret of a profile's own mount.
pub fn mount_secret(profile: &MountProfile, secret: Option<String>) -> (r: Result<Option<String>, DesktopError>)
    ensures
        launch_secret_ok(*profile, secret, "secret required for mount"@, r),
{
    launch_secret(profile, secret, "secret required for mount")
}

/// Whether a profile's secret is in the keychain.
pub struct SecretStatus {
    pub profile_id: String,
    pub stored: bool,
}

/// The status after a keychain lookup: stored when found, not stored when
/// there is no entry, else the failure.
pub fn status_after_lookup(profile_id: String, found: Result<String, KeyringFailure>) -> (r: Result<SecretStatus, DesktopError>)
    ensures
        match found {
            Ok(_) => r matches Ok(s) && s.stored && s.profile_id@ == profile_id@,
            Err(f) => if f.no_entry {
                r matches Ok(s) && !s.stored && s.profile_id@ == profile_id@
            } else {
                r matches Err(DesktopError::Keyring(m)) && m@ == f.message@
            },
        },
{
    match found {
        Ok(_) => Ok(SecretStatus { profile_id, stored: true }),
        Err(f) => if f.no_entry {
            Ok(SecretStatus { profile_id, stored: false })
        } else {
            Err(DesktopError::Keyring(f.message))
        },
    }
}

/// The outcome of deleting a keychain entry: gone either way when it was
/// deleted or was never there, else the failure.
pub fn deletion_outcome(deleted: Result<(), KeyringFailure>) -> (r: Result<(), DesktopError>)
    ensures
        match deleted {
            Ok(()) => r is Ok,
            Err(f) => if f.no_entry {
                r is Ok
            } else {
                r matches Err(DesktopError::Keyring(m)) && m@ == f.message@
            },
        },
{
    match deleted {
        Ok(()) => Ok(()),
        Err(f) => if f.no_entry {
            Ok(())
        } else {
            Err(DesktopError::Keyring(f.message))
        },
    }
}

/// Stores a profile's secret in the keychain.
pub fn set_profile_secret(profile_id: String, secret: &str) -> (r: Result<SecretStatus, DesktopError>)
    ensures
        !valid_profile_id(profile_id@) ==> fails_with(r, "invalid profile id"@),
        valid_profile_id(profile_id@) ==> (r matches Ok(s) && s.stored && s.profile_id@ == profile_id@)
            || r matches Err(DesktopError::Keyring(_)),
{
    let entry = match keyring_entry(profile_id.as_str()) {
        Ok(e) => e,
        Err(e) => return Err(e),
    };
    match keyring_set_password(&entry, secret) {
        Ok(()) => Ok(SecretStatus { profile_id, stored: true }),
        Err(e) => Err(keyring_error(&e)),
    }
}

/// Removes a profile's secret from the keychain; one that is not there is
/// already removed.
pub fn forget_profile_secret(profile_id: &str) -> (r: Result<(), DesktopError>)
    ensures
        !valid_profile_id(profile_id@) ==> fails_with(r, "invalid profile id"@),
        valid_profile_id(profile_id@) ==> r is Ok || r matches Err(DesktopError::Keyring(_)),
{
    let entry = match keyring_entry(profile_id) {
        Ok(e) => e,
        Err(e) => return Err(e),
    };
    let deleted = match keyring_delete_credential(&entry) {
        Ok(()) => Ok(()),
        Err(e) => Err(keyring_failure(&e)),
    };
    deletion_outcome(deleted)
}

/// Removes a profile's secret and reports it as not stored.
pub fn delete_profile_secret(profile_id: String) -> (r: Result<SecretStatus, DesktopError>)
    ensures
        !valid_profile_id(profile_id@) ==> fails_with(r, "invalid profile id"@),
        valid_profile_id(profile_id@) ==> (r matches Ok(s) && !s.stored && s.profile_id@ == profile_id@)
            || r matches Err(DesktopError::Keyring(_)),
{
    match forget_profile_secret(profile_id.as_str()) {
        Ok(()) => Ok(SecretStatus { profile_id, stored: false }),
        Err(e) => Err(e),
    }
}

/// Whether the keychain holds a profile's secret.
pub fn get_profile_secret_status(profile_id: String) -> (r: Result<SecretStatus, DesktopError>)
    ensures
        !valid_profile_id(profile_id@) ==> fails_with(r, "invalid profile id"@),
        valid_profile_id(profile_id@) ==> (r matches Ok(s) && s.profile_id@ == profile_id@)
            || r matches Err(DesktopError::Keyring(_)),
{
    let entry = match keyring_entry(profile_id.as_str()) {
        Ok(e) => e,
        Err(e) => return Err(e),
    };
    let found = match keyring_get_password(&entry) {
        Ok(p) => Ok(p),
        Err(e) => Err(keyring_failure(&e)),
    };
    status_after_lookup(profile_id, found)
}

} // verus!
