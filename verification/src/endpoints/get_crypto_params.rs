//! Key-derivation parameters: handed to anyone who knows the email, since
//! a client needs them before it can derive the key that proves anything.

use crate::errors::{
    fail, failure, lookup_error, lookup_failure, reply, ErrorKind, ErrorResponse, ErrorView,
    StoreError,
};
use crate::models::{lift, User, UserView};
use crate::store::{CredentialStore, StoreModel};
use crate::text::{blank, is_blank};
use vstd::prelude::*;

verus! {

/// A request for the key-derivation parameters of an email.
#[derive(Debug, PartialEq, Eq)]
pub struct GetCryptoParamsRequest {
    pub email: String,
}

/// What a [`GetCryptoParamsRequest`] holds, as mathematical values.
pub struct GetCryptoParamsRequestView {
    pub email: Seq<char>,
}

impl View for GetCryptoParamsRequest {
    type V = GetCryptoParamsRequestView;

    open spec fn view(&self) -> GetCryptoParamsRequestView {
        GetCryptoParamsRequestView { email: self.email@ }
    }
}

/// The key-derivation parameters: salt and work factor.
#[derive(Debug, PartialEq, Eq)]
pub struct GetCryptoParamsResponse {
    pub salt: String,
    pub iterations: i32,
}

/// What a [`GetCryptoParamsResponse`] holds, as mathematical values.
pub struct GetCryptoParamsResponseView {
    pub salt: Seq<char>,
    pub iterations: i32,
}

impl View for GetCryptoParamsResponse {
    type V = GetCryptoParamsResponseView;

    open spec fn view(&self) -> GetCryptoParamsResponseView {
        GetCryptoParamsResponseView { salt: self.salt@, iterations: self.iterations }
    }
}

impl GetCryptoParamsResponse {
    /// The HTTP status that this body is sent with: 200 OK.
    pub fn status(&self) -> (status: u16)
        ensures
            status == 200,
    {
        200
    }
}

impl GetCryptoParamsRequestView {
    /// The email is not blank.
    pub open spec fn valid(self) -> bool {
        !is_blank(self.email)
    }
}

/// What a record discloses to anyone who knows its email.
pub open spec fn crypto_params_of(user: UserView) -> GetCryptoParamsResponseView {
    GetCryptoParamsResponseView { salt: user.salt, iterations: user.iterations }
}

/// The failure that answers a request which is not valid.
pub open spec fn email_rejection() -> ErrorView {
    failure(ErrorKind::InvalidInput, "email is required"@)
}

/// The failure that answers an email which no record has.
pub open spec fn user_not_found() -> ErrorView {
    failure(ErrorKind::NotFound, "user not found"@)
}

/// The reply to a request for parameters, given what the storage said of
/// the lookup by email.
pub open spec fn get_crypto_params_reply(
    found: Result<UserView, StoreError>,
) -> Result<GetCryptoParamsResponseView, ErrorView> {
    match found {
        Ok(user) => Ok(crypto_params_of(user)),
        Err(error) => Err(lookup_failure(error, user_not_found())),
    }
}

/// The request for parameters as a whole. A request that is not valid is
/// rejected before the storage is touched.
pub open spec fn get_crypto_params_outcome(
    store: StoreModel,
    request: GetCryptoParamsRequestView,
) -> Result<GetCryptoParamsResponseView, ErrorView> {
    if !request.valid() {
        Err(email_rejection())
    } else {
        get_crypto_params_reply(store.find_by_email(request.email))
    }
}

/// Checks the one field of a request for parameters.
pub fn check_get_crypto_params_request(
    request: &GetCryptoParamsRequest,
) -> (checked: Result<(), ErrorResponse>)
    ensures
        checked is Ok <==> request@.valid(),
        checked matches Err(e) ==> e@ == email_rejection(),
{
    if blank(request.email.as_str()) {
        Err(fail(ErrorKind::InvalidInput, "email is required"))
    } else {
        Ok(())
    }
}

/// Turns what the storage said of the lookup into the reply.
pub fn get_crypto_params_response(
    found: Result<User, StoreError>,
) -> (response: Result<GetCryptoParamsResponse, ErrorResponse>)
    ensures
        reply(response) == get_crypto_params_reply(lift(found)),
{
    match found {
        Ok(user) => Ok(GetCryptoParamsResponse { salt: user.salt, iterations: user.iterations }),
        Err(error) => Err(lookup_error(error, fail(ErrorKind::NotFound, "user not found"))),
    }
}

/// Hands out the key-derivation parameters of an email.
pub fn get_crypto_params(
    store: &CredentialStore,
    request: GetCryptoParamsRequest,
) -> (response: Result<GetCryptoParamsResponse, ErrorResponse>)
    ensures
        reply(response) == get_crypto_params_outcome(store@, request@),
{
    match check_get_crypto_params_request(&request) {
        Err(e) => Err(e),
        Ok(()) => get_crypto_params_response(store.find_by_email(&request.email)),
    }
}

} // verus!
