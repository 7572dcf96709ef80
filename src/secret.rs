//! Secrets such as API keys, kept in the platform's credential store.
use vstd::prelude::*;

verus! {

#[verifier::external_type_specification]
#[verifier::external_body]
pub struct ExEntry(keyring::Entry);

#[verifier::external_type_specification]
#[verifier::external_body]
pub struct ExKeyringError(keyring::Error);

/// Relies on `keyring::Entry::new`: an entry for the service and user, or the
/// store's error. Nothing is promised of which.
pub assume_specification[ keyring::Entry::new ](service: &str, user: &str) -> keyring::Result<
    keyring::Entry,
>;

/// Relies on `keyring::Entry::set_password`: stores the password, or the store's
/// error. Nothing is promised of which.
pub assume_specification[ keyring::Entry::set_password ](
    entry: &keyring::Entry,
    password: &str,
) -> keyring::Result<()>;

/// Relies on `keyring::Entry::get_password`: the stored password, or the store's
/// error. Nothing is promised of which.
pub assume_specification[ keyring::Entry::get_password ](entry: &keyring::Entry) -> keyring::Result<
    String,
>;

/// The service under which the application's secrets are filed.
pub const SECRET_SERVICE: &'static str = "shiori";

/// Access to the application's secrets, filed under [`SECRET_SERVICE`].
pub struct SecretManager;

impl SecretManager {
    fn entry(key: &str) -> keyring::Result<keyring::Entry> {
        keyring::Entry::new(SECRET_SERVICE, key)
    }

    /// Stores `value` as the secret `key`.
    pub fn set(key: &str, value: &str) -> keyring::Result<()> {
        match SecretManager::entry(key) {
            Ok(entry) => entry.set_password(value),
            Err(e) => Err(e),
        }
    }

    /// The secret stored as `key`.
    pub fn get(key: &str) -> keyring::Result<String> {
        match SecretManager::entry(key) {
            Ok(entry) => entry.get_password(),
            Err(e) => Err(e),
        }
    }
}

} // verus!
