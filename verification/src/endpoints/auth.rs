//! Authentication: proof of the authentication key, answered with the
//! identity, the vault and the salt.

use crate::errors::{
    fail, failure, lookup_error, lookup_failure, reply, ErrorKind, ErrorResponse, ErrorView,
    StoreError,
};
use crate::models::{lift, User, UserResponseView, UserView};
use crate::store::{CredentialStore, StoreModel};
use crate::text::{blank, is_blank};
use vstd::prelude::*;

pub use crate::models::UserResponse;

verus! {

/// A request to authenticate: the email and the authentication key.
#[derive(Debug, PartialEq, Eq)]
pub struct AuthRequest {
    pub email: String,
    pub user_key: String,
}

/// What an [`AuthRequest`] holds, as mathematical values.
pub struct AuthRequestView {
    pub email: Seq<char>,
    pub user_key: Seq<char>,
}

impl View for AuthRequest {
    type V = AuthRequestView;

    open spec fn view(&self) -> AuthRequestView {
        AuthRequestView { email: self.email@, user_key: self.user_key@ }
    }
}

/// The body of a successful authentication. It carries neither the work
/// factor nor the initialization vector: those come with the vault.
#[derive(Debug, PartialEq, Eq)]
pub struct AuthResponse {
    pub user: UserResponse,
    pub vault: String,
    pub salt: String,
}

/// What an [`AuthResponse`] holds, as mathematical values.
pub struct AuthResponseView {
    pub user: UserResponseView,
    pub vault: Seq<char>,
    pub salt: Seq<char>,
}

impl View for AuthResponse {
    type V = AuthResponseView;

    open spec fn view(&self) -> AuthResponseView {
        AuthResponseView { user: self.user@, vault: self.vault@, salt: self.salt@ }
    }
}

impl AuthResponse {
    /// The HTTP status that this body is sent with: 200 OK.
    pub fn status(&self) -> (status: u16)
        ensures
            status == 200,
    {
        200
    }
}

impl AuthRequestView {
    /// Neither the email nor the authentication key is blank.
    pub open spec fn valid(self) -> bool {
        !is_blank(self.email) && !is_blank(self.user_key)
    }
}

/// What a record discloses to the client that authenticated.
pub open spec fn authenticated(user: UserView) -> AuthResponseView {
    AuthResponseView { user: user.public(), vault: user.vault, salt: user.salt }
}

/// The failure that answers a request which is not valid.
pub open spec fn auth_rejection() -> ErrorView {
    failure(ErrorKind::InvalidInput, "email and user_key are required"@)
}

/// The one failure for credentials that match no record, whether the
/// email is unknown or the key is wrong.
pub open spec fn auth_failed() -> ErrorView {
    failure(ErrorKind::AuthenticationFailed, "invalid email or user_key"@)
}

/// The reply to an authentication, given what the storage said of the
/// lookup by email and key.
pub open spec fn auth_reply(found: Result<UserView, StoreError>) -> Result<AuthResponseView, ErrorView> {
    match found {
        Ok(user) => Ok(authenticated(user)),
        Err(error) => Err(lookup_failure(error, auth_failed())),
    }
}

/// Authentication as a whole. A request that is not valid is rejected
/// before the storage is touched.
pub open spec fn auth_outcome(
    store: StoreModel,
    request: AuthRequestView,
) -> Result<AuthResponseView, ErrorView> {
    if !request.valid() {
        Err(auth_rejection())
    } else {
        auth_reply(store.find_by_email_and_key(request.email, request.user_key))
    }
}

/// Checks the fields of an authentication request.
pub fn check_auth_request(request: &AuthRequest) -> (checked: Result<(), ErrorResponse>)
    ensures
        checked is Ok <==> request@.valid(),
        checked matches Err(e) ==> e@ == auth_rejection(),
{
    if blank(request.email.as_str()) || blank(request.user_key.as_str()) {
        Err(fail(ErrorKind::InvalidInput, "email and user_key are required"))
    } else {
        Ok(())
    }
}

/// Turns what the storage said of the lookup into the reply.
pub fn auth_response(found: Result<User, StoreError>) -> (response: Result<AuthResponse, ErrorResponse>)
    ensures
        reply(response) == auth_reply(lift(found)),
{
    match found {
        Ok(user) => Ok(
            AuthResponse {
                user: UserResponse { id: user.id, email: user.email },
                vault: user.vault,
                salt: user.salt,
            },
        ),
        Err(error) => Err(
            lookup_error(error, fail(ErrorKind::AuthenticationFailed, "invalid email or user_key")),
        ),
    }
}

/// Authenticates the caller against the store.
pub fn auth(
    store: &CredentialStore,
    request: AuthRequest,
) -> (response: Result<AuthResponse, ErrorResponse>)
    ensures
        reply(response) == auth_outcome(store@, request@),
{
    match check_auth_request(&request) {
        Err(e) => Err(e),
        Ok(()) => auth_response(store.find_by_email_and_key(&request.email, &request.user_key)),
    }
}

} // verus!
