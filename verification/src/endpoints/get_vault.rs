//! Vault retrieval: proof of the authentication key, answered with all
//! that the client needs to decrypt its vault.

use crate::errors::{
    fail, failure, lookup_error, lookup_failure, reply, ErrorKind, ErrorResponse, ErrorView,
    StoreError,
};
use crate::models::{lift, User, UserResponseView, UserView};
use crate::store::{CredentialStore, StoreModel};
use crate::text::{blank, is_blank};
use vstd::prelude::*;

pub use crate::models::UserResponse;

verus! {

/// A request for the vault: the email and the authentication key.
#[derive(Debug, PartialEq, Eq)]
pub struct GetVaultRequest {
    pub email: String,
    pub user_key: String,
}

/// What a [`GetVaultRequest`] holds, as mathematical values.
pub struct GetVaultRequestView {
    pub email: Seq<char>,
    pub user_key: Seq<char>,
}

impl View for GetVaultRequest {
    type V = GetVaultRequestView;

    open spec fn view(&self) -> GetVaultRequestView {
        GetVaultRequestView { email: self.email@, user_key: self.user_key@ }
    }
}

/// The body of a successful retrieval: the identity, the vault with its
/// initialization vector, and the work factor.
#[derive(Debug, PartialEq, Eq)]
pub struct GetVaultResponse {
    pub user: UserResponse,
    pub vault: String,
    pub iterations: i32,
    pub vaultiv: String,
}

/// What a [`GetVaultResponse`] holds, as mathematical values.
pub struct GetVaultResponseView {
    pub user: UserResponseView,
    pub vault: Seq<char>,
    pub iterations: i32,
    pub vaultiv: Seq<char>,
}

impl View for GetVaultResponse {
    type V = GetVaultResponseView;

    open spec fn view(&self) -> GetVaultResponseView {
        GetVaultResponseView {
            user: self.user@,
            vault: self.vault@,
            iterations: self.iterations,
            vaultiv: self.vaultiv@,
        }
    }
}

impl GetVaultResponse {
    /// The HTTP status that this body is sent with: 200 OK.
    pub fn status(&self) -> (status: u16)
        ensures
            status == 200,
    {
        200
    }
}

impl GetVaultRequestView {
    /// Neither the email nor the authentication key is blank.
    pub open spec fn valid(self) -> bool {
        !is_blank(self.email) && !is_blank(self.user_key)
    }
}

/// What a record discloses to the client that asked for its vault.
pub open spec fn vault_of(user: UserView) -> GetVaultResponseView {
    GetVaultResponseView {
        user: user.public(),
        vault: user.vault,
        iterations: user.iterations,
        vaultiv: user.vaultiv,
    }
}

/// The failure that answers a request which is not valid.
pub open spec fn get_vault_rejection() -> ErrorView {
    failure(ErrorKind::InvalidInput, "email and user_key are required"@)
}

/// The one failure for credentials that match no record, whether the
/// email is unknown or the key is wrong. Unlike authentication, vault
/// retrieval reports it as a record that was not found.
pub open spec fn vault_not_found() -> ErrorView {
    failure(ErrorKind::NotFound, "user not found"@)
}

/// The reply to a vault retrieval, given what the storage said of the
/// lookup by email and key.
pub open spec fn get_vault_reply(
    found: Result<UserView, StoreError>,
) -> Result<GetVaultResponseView, ErrorView> {
    match found {
        Ok(user) => Ok(vault_of(user)),
        Err(error) => Err(lookup_failure(error, vault_not_found())),
    }
}

/// Vault retrieval as a whole. A request that is not valid is rejected
/// before the storage is touched.
pub open spec fn get_vault_outcome(
    store: StoreModel,
    request: GetVaultRequestView,
) -> Result<GetVaultResponseView, ErrorView> {
    if !request.valid() {
        Err(get_vault_rejection())
    } else {
        get_vault_reply(store.find_by_email_and_key(request.email, request.user_key))
    }
}

/// Checks the fields of a vault request.
pub fn check_get_vault_request(request: &GetVaultRequest) -> (checked: Result<(), ErrorResponse>)
    ensures
        checked is Ok <==> request@.valid(),
        checked matches Err(e) ==> e@ == get_vault_rejection(),
{
    if blank(request.email.as_str()) || blank(request.user_key.as_str()) {
        Err(fail(ErrorKind::InvalidInput, "email and user_key are required"))
    } else {
        Ok(())
    }
}

/// Turns what the storage said of the lookup into the reply.
pub fn get_vault_response(
    found: Result<User, StoreError>,
) -> (response: Result<GetVaultResponse, ErrorResponse>)
    ensures
        reply(response) == get_vault_reply(lift(found)),
{
    match found {
        Ok(user) => Ok(
            GetVaultResponse {
                user: UserResponse { id: user.id, email: user.email },
                vault: user.vault,
                iterations: user.iterations,
                vaultiv: user.vaultiv,
            },
        ),
        Err(error) => Err(lookup_error(error, fail(ErrorKind::NotFound, "user not found"))),
    }
}

/// Hands the vault to a caller who proves knowledge of the key.
pub fn get_vault(
    store: &CredentialStore,
    request: GetVaultRequest,
) -> (response: Result<GetVaultResponse, ErrorResponse>)
    ensures
        reply(response) == get_vault_outcome(store@, request@),
{
    match check_get_vault_request(&request) {
        Err(e) => Err(e),
        Ok(()) => get_vault_response(
            store.find_by_email_and_key(&request.email, &request.user_key),
        ),
    }
}

} // verus!
