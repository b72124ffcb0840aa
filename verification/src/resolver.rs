//! Credential resolution for one database role.
//!
//! A role's key is either resolved independently from that role's own
//! configured factors, or shared: the other role's already-resolved key is
//! reused verbatim, with no further prompting and no extra factor. The
//! interactive prompt itself is I/O and lives outside the library; callers
//! ask [`needs_password_prompt`] whether to prompt and [`prompt_text`] for
//! the exact wording, then hand the secret in through [`RoleCredentials`].

use vstd::prelude::*;
use vstd::string::StringExecFns;

use crate::DatabaseRole;
use crate::keys::{ChallengeBinding, ChallengeBindingView, CredentialFactor, DatabaseKey,
    DatabaseKeyView};

verus! {

/// How a role's key is obtained: from its own factors, or by reusing the
/// other role's key unchanged.
#[derive(Clone, Copy, PartialEq, Eq, Structural, Debug)]
pub enum ResolutionStrategy {
    Independent,
    Shared,
}

/// Why a key could not be resolved.
#[derive(Clone, Copy, PartialEq, Eq, Structural, Debug)]
pub enum ResolveError {
    /// No factor at all was configured for the role.
    EmptyKey,
    /// A hardware slot was configured but no matching device is present.
    DeviceNotFound,
    /// More than one device is present and no serial number singles one out.
    DeviceAmbiguous,
}

/// Everything a role brings to resolution: its flags, the secret the prompt
/// returned (if one was issued), the raw bytes of a configured keyfile, the
/// configured hardware slot and serial, and the serial numbers of the
/// challenge-response devices found attached.
pub struct RoleCredentials {
    pub no_password: bool,
    pub password: Option<String>,
    pub keyfile: Option<Vec<u8>>,
    pub slot: Option<String>,
    pub serial: Option<u32>,
    pub devices: Vec<u32>,
}

/// Ghost image of `RoleCredentials`.
pub struct RoleCredentialsView {
    pub no_password: bool,
    pub password: Option<Seq<char>>,
    pub keyfile: Option<Seq<u8>>,
    pub slot: Option<Seq<char>>,
    pub serial: Option<u32>,
    pub devices: Seq<u32>,
}

impl View for RoleCredentials {
    type V = RoleCredentialsView;

    open spec fn view(&self) -> RoleCredentialsView {
        RoleCredentialsView {
            no_password: self.no_password,
            password: match self.password {
                Some(p) => Some(p@),
                None => None,
            },
            keyfile: match self.keyfile {
                Some(f) => Some(f@),
                None => None,
            },
            slot: match self.slot {
                Some(s) => Some(s@),
                None => None,
            },
            serial: self.serial,
            devices: self.devices@,
        }
    }
}

/// Whether resolving with this strategy and flag issues a password prompt:
/// only an independent resolution whose role does not opt out of passwords
/// ever prompts. A shared resolution never does.
pub fn needs_password_prompt(strategy: ResolutionStrategy, no_password: bool) -> (r: bool)
    ensures
        r <==> (strategy is Independent && !no_password),
{
    match strategy {
        ResolutionStrategy::Independent => !no_password,
        ResolutionStrategy::Shared => false,
    }
}

/// The exact wording of the password prompt for a role. When the same
/// credentials serve both databases, the destination prompt says so instead
/// of implying a second, unrelated prompt will follow.
pub fn prompt_text(role: DatabaseRole, same_credentials: bool) -> (r: String)
    ensures
        role is Destination && same_credentials ==> r@ == "Password for the databases: "@,
        role is Destination && !same_credentials ==> r@
            == "Password for the destination database: "@,
        role is Source ==> r@ == "Password for the source database: "@,
{
    match role {
        DatabaseRole::Destination => {
            if same_credentials {
                String::from_str("Password for the databases: ")
            } else {
                String::from_str("Password for the destination database: ")
            }
        },
        DatabaseRole::Source => String::from_str("Password for the source database: "),
    }
}

/// Which device a (serial, candidates) pair designates. A given serial must
/// match a present device; without a serial, exactly one device must be
/// present, and several candidates are ambiguous rather than silently
/// resolved to the first.
pub open spec fn device_selection(devices: Seq<u32>, requested: Option<u32>) -> Result<
    u32,
    ResolveError,
> {
    match requested {
        Some(s) => if devices.contains(s) {
            Ok(s)
        } else {
            Err(ResolveError::DeviceNotFound)
        },
        None => if devices.len() == 0 {
            Err(ResolveError::DeviceNotFound)
        } else if devices.len() == 1 {
            Ok(devices[0])
        } else {
            Err(ResolveError::DeviceAmbiguous)
        },
    }
}

/// Pick the challenge-response device to bind, by serial number.
pub fn select_device(devices: &Vec<u32>, requested: Option<u32>) -> (r: Result<u32, ResolveError>)
    ensures
        r == device_selection(devices@, requested),
{
    match requested {
        Some(s) => {
            let mut i: usize = 0;
            while i < devices.len()
                invariant
                    0 <= i <= devices@.len(),
                    requested == Some(s),
                    forall|k: int| 0 <= k < i ==> devices@[k] != s,
                decreases devices@.len() - i,
            {
                if devices[i] == s {
                    proof {
                        assert(devices@[i as int] == s);
                        assert(devices@.contains(s));
                    }
                    return Ok(s);
                }
                i = i + 1;
            }
            assert(!devices@.contains(s));
            Err(ResolveError::DeviceNotFound)
        },
        None => {
            if devices.len() == 0 {
                Err(ResolveError::DeviceNotFound)
            } else if devices.len() == 1 {
                Ok(devices[0])
            } else {
                Err(ResolveError::DeviceAmbiguous)
            }
        },
    }
}

/// The key an independent resolution yields from a role's credentials, or
/// the error it fails with: the password factor unless the role opted out,
/// the keyfile factor if one is configured, a challenge-response factor for
/// the selected device if a slot is configured, and `EmptyKey` when nothing
/// at all is configured. Device selection errors take precedence over the
/// empty-key check, as a misconfigured device is reported, never ignored.
pub open spec fn independent_key(c: RoleCredentialsView) -> Result<
    DatabaseKeyView,
    ResolveError,
> {
    let password = if c.no_password {
        None
    } else {
        c.password
    };
    match c.slot {
        None => if password is None && c.keyfile is None {
            Err(ResolveError::EmptyKey)
        } else {
            Ok(DatabaseKeyView { password, keyfile: c.keyfile, challenge: None })
        },
        Some(slot) => match device_selection(c.devices, c.serial) {
            Ok(serial) => Ok(
                DatabaseKeyView {
                    password,
                    keyfile: c.keyfile,
                    challenge: Some(ChallengeBindingView { serial, slot }),
                },
            ),
            Err(e) => Err(e),
        },
    }
}

/// Derive the key for one role.
///
/// Under `Shared`, the referenced key is returned unchanged — identical
/// factors, nothing added from this role's own flags. Under `Independent`,
/// the key is assembled from the role's credentials exactly as
/// [`independent_key`] states, and a key that would end up with no factor
/// at all is refused with `EmptyKey` before it can reach any database.
pub fn resolve(
    strategy: ResolutionStrategy,
    creds: &RoleCredentials,
    shared: Option<&DatabaseKey>,
) -> (r: Result<DatabaseKey, ResolveError>)
    requires
        strategy is Shared ==> shared is Some,
        strategy is Independent && !creds.no_password ==> creds.password is Some,
    ensures
        strategy is Shared ==> r is Ok && r->Ok_0@ == shared->Some_0@,
        strategy is Independent ==> match independent_key(creds@) {
            Ok(kv) => r is Ok && r->Ok_0@ == kv,
            Err(e) => r is Err && r->Err_0 == e,
        },
{
    match strategy {
        ResolutionStrategy::Shared => {
            let base = shared.unwrap();
            Ok(base.duplicate())
        },
        ResolutionStrategy::Independent => {
            let mut key = DatabaseKey::new();
            if !creds.no_password {
                let p = clone_string_opt(&creds.password).unwrap();
                key = key.with_factor(CredentialFactor::Password(p));
            }
            if let Some(f) = &creds.keyfile {
                key = key.with_factor(CredentialFactor::Keyfile(crate::keys::copy_bytes(f)));
            }
            if let Some(slot) = &creds.slot {
                let serial = match select_device(&creds.devices, creds.serial) {
                    Ok(s) => s,
                    Err(e) => {
                        return Err(e);
                    },
                };
                let binding = ChallengeBinding { serial, slot: slot.clone() };
                key = key.with_factor(CredentialFactor::ChallengeResponse(binding));
            }
            if key.is_empty() {
                return Err(ResolveError::EmptyKey);
            }
            Ok(key)
        },
    }
}

/// A fresh copy of an optional string.
fn clone_string_opt(s: &Option<String>) -> (r: Option<String>)
    ensures
        r is Some <==> s is Some,
        r is Some ==> r->0@ == s->0@,
{
    match s {
        Some(p) => Some(p.clone()),
        None => None,
    }
}

/// Independent resolutions fed different password secrets never produce
/// equal keys: as long as both roles were prompted and the two prompts
/// returned different text, the resulting keys differ, whatever the other
/// factors are. (If the prompts return the same secret, the keys may well
/// coincide; only shared resolution guarantees identity.)
pub proof fn lemma_independent_resolutions_differ(c1: RoleCredentialsView, c2: RoleCredentialsView)
    requires
        !c1.no_password,
        !c2.no_password,
        c1.password is Some,
        c2.password is Some,
        c1.password != c2.password,
        independent_key(c1) is Ok,
        independent_key(c2) is Ok,
    ensures
        independent_key(c1)->Ok_0 != independent_key(c2)->Ok_0,
{
    assert(independent_key(c1)->Ok_0.password == c1.password);
    assert(independent_key(c2)->Ok_0.password == c2.password);
}

} // verus!
