use vstd::prelude::*;

use std::sync::Arc;
use std::sync::Mutex;

use crate::jwk::JsonWebKey;

verus! {

/// A blocking source of signing keys, supplied by the caller:
/// `Ok(Some(key))` when the identifier is known, `Ok(None)` when it is not,
/// and `Err(cause)` when retrieval itself failed. The two failure shapes
/// stay distinguishable all the way through verification.
pub trait KeyProvider {
    fn get_key(&mut self, key_id: &str) -> Result<Option<JsonWebKey>, String>;
}

#[verifier::external_type_specification]
#[verifier::external_body]
#[verifier::reject_recursive_types(T)]
pub struct ExMutex<T: ?Sized>(Mutex<T>);

/// Relies on std::sync::Mutex::lock to serialize access to the shared
/// provider, and on the provider's own `get_key`; nothing is assumed of what
/// comes back. A poisoned lock is reported as a failed retrieval.
#[verifier::external_body]
pub(crate) fn lock_and_get_key<KP: KeyProvider>(
    key_provider: &Arc<Mutex<KP>>,
    key_id: &str,
) -> Result<Option<JsonWebKey>, String> {
    match key_provider.lock() {
        Ok(mut guard) => guard.get_key(key_id),
        Err(_) => Err("the lock on the key provider was poisoned".to_string()),
    }
}

} // verus!
