use vstd::prelude::*;
use ink_env::AccountId;
use ink_storage::Mapping;

verus! {

/// ink's account identifier, carried through as an opaque key type.
#[verifier::external_type_specification]
#[verifier::external_body]
pub struct ExAccountId(AccountId);

/// ink's storage mapping, carried through as an opaque value.
#[verifier::external_type_specification]
#[verifier::external_body]
#[verifier::reject_recursive_types(K)]
#[verifier::reject_recursive_types(V)]
pub struct ExMapping<K, V>(Mapping<K, V>);

/// Relies on ink_storage's `Mapping::default`: it builds the mapping handle
/// at the default storage offset and reads or writes no storage.
#[verifier::external_body]
pub(crate) fn empty_account_index() -> (r: Mapping<AccountId, u64>) {
    Mapping::default()
}

} // verus!
