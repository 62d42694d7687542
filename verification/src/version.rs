//! Contract-version metadata, stamped and read through cw2 on an
//! in-memory key-value store.

use vstd::prelude::*;
use cosmwasm_std::testing::MockStorage;

verus! {

#[verifier::external_type_specification]
#[verifier::external_body]
pub struct ExMockStorage(MockStorage);

/// The contract-version record that cw2 reads out of `s`: `None` where the
/// store holds no such record.
pub uninterp spec fn stored_contract_version(s: MockStorage) -> Option<(Seq<char>, Seq<char>)>;

/// Relies on MockStorage::new: a fresh store is empty, so cw2 finds no
/// version record in it.
#[verifier::external_body]
pub(crate) fn new_version_store() -> (s: MockStorage)
    ensures
        stored_contract_version(s) is None,
{
    MockStorage::new()
}

/// Relies on cw2::set_contract_version: it writes `(name, version)` as the
/// one version record under cw2's fixed key. On this in-memory store the
/// call cannot fail — serializing the two strings has no failure path, and
/// the store's set does not error — so the result is always `Ok`.
#[verifier::external_body]
pub(crate) fn set_stored_version(s: &mut MockStorage, name: &str, version: &str) -> (r: Result<
    (),
    String,
>)
    ensures
        r is Ok,
        stored_contract_version(*final(s)) == Some((name@, version@)),
{
    match cw2::set_contract_version(s, name, version) {
        Ok(()) => Ok(()),
        Err(e) => Err(e.to_string()),
    }
}

/// Relies on cw2::get_contract_version: it returns the stored version
/// record, and an error where there is none.
#[verifier::external_body]
pub(crate) fn get_stored_version(s: &MockStorage) -> (r: Result<(String, String), String>)
    ensures
        match r {
            Ok(p) => stored_contract_version(*s) == Some((p.0@, p.1@)),
            Err(_) => stored_contract_version(*s) is None,
        },
{
    match cw2::get_contract_version(s) {
        Ok(v) => Ok((v.contract, v.version)),
        Err(e) => Err(e.to_string()),
    }
}

} // verus!
