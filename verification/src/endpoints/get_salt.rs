//! The salt alone: the older, narrower form of the request for
//! key-derivation parameters.

use crate::endpoints::get_crypto_params::{
    email_rejection, get_crypto_params, get_crypto_params_outcome, get_crypto_params_reply,
    get_crypto_params_response, GetCryptoParamsRequest, GetCryptoParamsRequestView,
    GetCryptoParamsResponseView,
};
use crate::errors::{fail, reply, ErrorKind, ErrorResponse, ErrorView, StoreError};
use crate::models::{lift, User, UserView};
use crate::store::{CredentialStore, StoreModel};
use crate::text::{blank, is_blank};
use vstd::prelude::*;

verus! {

/// A request for the salt of an email.
#[derive(Debug, PartialEq, Eq)]
pub struct GetSaltRequest {
    pub email: String,
}

/// What a [`GetSaltRequest`] holds, as mathematical values.
pub struct GetSaltRequestView {
    pub email: Seq<char>,
}

impl View for GetSaltRequest {
    type V = GetSaltRequestView;

    open spec fn view(&self) -> GetSaltRequestView {
        GetSaltRequestView { email: self.email@ }
    }
}

/// The salt.
#[derive(Debug, PartialEq, Eq)]
pub struct GetSaltResponse {
    pub salt: String,
}

/// What a [`GetSaltResponse`] holds, as mathematical values.
pub struct GetSaltResponseView {
    pub salt: Seq<char>,
}

impl View for GetSaltResponse {
    type V = GetSaltResponseView;

    open spec fn view(&self) -> GetSaltResponseView {
        GetSaltResponseView { salt: self.salt@ }
    }
}

impl GetSaltResponse {
    /// The HTTP status that this body is sent with: 200 OK.
    pub fn status(&self) -> (status: u16)
        ensures
            status == 200,
    {
        200
    }
}

impl GetSaltRequestView {
    /// The email is not blank.
    pub open spec fn valid(self) -> bool {
        !is_blank(self.email)
    }
}

/// The salt out of a reply that carries the key-derivation parameters;
/// a failure stays what it is.
pub open spec fn salt_only(
    params: Result<GetCryptoParamsResponseView, ErrorView>,
) -> Result<GetSaltResponseView, ErrorView> {
    match params {
        Ok(params) => Ok(GetSaltResponseView { salt: params.salt }),
        Err(e) => Err(e),
    }
}

/// The reply to a request for the salt, given what the storage said of
/// the lookup by email.
pub open spec fn get_salt_reply(
    found: Result<UserView, StoreError>,
) -> Result<GetSaltResponseView, ErrorView> {
    salt_only(get_crypto_params_reply(found))
}

/// The request for the salt as a whole: the request for the parameters of
/// the same email, cut down to the salt.
pub open spec fn get_salt_outcome(
    store: StoreModel,
    request: GetSaltRequestView,
) -> Result<GetSaltResponseView, ErrorView> {
    salt_only(
        get_crypto_params_outcome(store, GetCryptoParamsRequestView { email: request.email }),
    )
}

/// Checks the one field of a request for the salt.
pub fn check_get_salt_request(request: &GetSaltRequest) -> (checked: Result<(), ErrorResponse>)
    ensures
        checked is Ok <==> request@.valid(),
        checked matches Err(e) ==> e@ == email_rejection(),
{
    if blank(request.email.as_str()) {
        Err(fail(ErrorKind::InvalidInput, "email is required"))
    } else {
        Ok(())
    }
}

/// Turns what the storage said of the lookup into the reply.
pub fn get_salt_response(
    found: Result<User, StoreError>,
) -> (response: Result<GetSaltResponse, ErrorResponse>)
    ensures
        reply(response) == get_salt_reply(lift(found)),
{
    match get_crypto_params_response(found) {
        Ok(params) => Ok(GetSaltResponse { salt: params.salt }),
        Err(e) => Err(e),
    }
}

/// Hands out the salt of an email.
pub fn get_salt(
    store: &CredentialStore,
    request: GetSaltRequest,
) -> (response: Result<GetSaltResponse, ErrorResponse>)
    ensures
        reply(response) == get_salt_outcome(store@, request@),
{
    match get_crypto_params(store, GetCryptoParamsRequest { email: request.email }) {
        Ok(params) => Ok(GetSaltResponse { salt: params.salt }),
        Err(e) => Err(e),
    }
}

} // verus!
