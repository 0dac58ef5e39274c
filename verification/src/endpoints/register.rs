//! Registration: the one operation that creates an identity.

use crate::entropy::{hex32, is_random_uuid, random_uuid, simple_hex};
use crate::errors::{
    creation_error, creation_failure, fail, failure, reply, ErrorKind, ErrorResponse, ErrorView,
    StoreError,
};
use crate::models::{lift, text_of, NewUser, NewUserView, User, UserResponseView, UserView};
use crate::store::{CredentialStore, StoreModel};
use crate::text::{blank, is_blank};
use vstd::prelude::*;

pub use crate::models::UserResponse;

verus! {

/// A request to register. Email and authentication key are required. A
/// client that has derived all its key material beforehand sends the salt,
/// the work factor and the encrypted vault too; one that has not leaves
/// them out, and the server makes up a salt.
#[derive(Debug, PartialEq, Eq)]
pub struct RegisterRequest {
    pub email: String,
    pub user_key: String,
    pub salt: Option<String>,
    pub iterations: Option<i32>,
    pub vaultiv: Option<String>,
    pub vault: Option<String>,
}

/// What a [`RegisterRequest`] holds, as mathematical values.
pub struct RegisterRequestView {
    pub email: Seq<char>,
    pub user_key: Seq<char>,
    pub salt: Option<Seq<char>>,
    pub iterations: Option<i32>,
    pub vaultiv: Option<Seq<char>>,
    pub vault: Option<Seq<char>>,
}

impl View for RegisterRequest {
    type V = RegisterRequestView;

    open spec fn view(&self) -> RegisterRequestView {
        RegisterRequestView {
            email: self.email@,
            user_key: self.user_key@,
            salt: text_of(self.salt),
            iterations: self.iterations,
            vaultiv: text_of(self.vaultiv),
            vault: text_of(self.vault),
        }
    }
}

/// The body of a successful registration: the new identity and the
/// key-derivation and vault fields as they were stored.
#[derive(Debug, PartialEq, Eq)]
pub struct RegisterResponse {
    pub user: UserResponse,
    pub vault: String,
    pub iterations: i32,
    pub vaultiv: String,
    pub salt: String,
}

/// What a [`RegisterResponse`] holds, as mathematical values.
pub struct RegisterResponseView {
    pub user: UserResponseView,
    pub vault: Seq<char>,
    pub iterations: i32,
    pub vaultiv: Seq<char>,
    pub salt: Seq<char>,
}

impl View for RegisterResponse {
    type V = RegisterResponseView;

    open spec fn view(&self) -> RegisterResponseView {
        RegisterResponseView {
            user: self.user@,
            vault: self.vault@,
            iterations: self.iterations,
            vaultiv: self.vaultiv@,
            salt: self.salt@,
        }
    }
}

impl RegisterResponse {
    /// The HTTP status that this body is sent with: 201 Created.
    pub fn status(&self) -> (status: u16)
        ensures
            status == 201,
    {
        201
    }
}

impl RegisterRequestView {
    /// Email and authentication key are not blank, nor is the salt where
    /// one was sent.
    pub open spec fn valid(self) -> bool {
        &&& !is_blank(self.email)
        &&& !is_blank(self.user_key)
        &&& match self.salt {
            Some(salt) => !is_blank(salt),
            None => true,
        }
    }

    /// The record to create for this request under the identifier `id`.
    /// Where the request brings no salt, the salt is `seed` in
    /// hexadecimal.
    pub open spec fn new_user(self, id: u128, seed: u128) -> NewUserView {
        NewUserView {
            id,
            email: self.email,
            user_key: self.user_key,
            salt: match self.salt {
                Some(salt) => salt,
                None => hex32(seed),
            },
            vault: self.vault,
            iterations: self.iterations,
            vaultiv: self.vaultiv,
        }
    }
}

/// What a created record discloses to the client that registered it.
pub open spec fn registered(user: UserView) -> RegisterResponseView {
    RegisterResponseView {
        user: user.public(),
        vault: user.vault,
        iterations: user.iterations,
        vaultiv: user.vaultiv,
        salt: user.salt,
    }
}

/// The failure that answers a request which is not valid.
pub open spec fn register_rejection() -> ErrorView {
    failure(ErrorKind::InvalidInput, "email and user_key and salt are required"@)
}

/// The reply to a registration, given what the storage said of the
/// creation.
pub open spec fn register_reply(
    created: Result<UserView, StoreError>,
) -> Result<RegisterResponseView, ErrorView> {
    match created {
        Ok(user) => Ok(registered(user)),
        Err(error) => Err(creation_failure(error)),
    }
}

/// Registration as a whole, with the identifier `id` and the salt seed
/// `seed`: the store afterwards, and the reply. A request that is not
/// valid is rejected before the storage is touched.
pub open spec fn register_outcome(
    store: StoreModel,
    request: RegisterRequestView,
    id: u128,
    seed: u128,
) -> (StoreModel, Result<RegisterResponseView, ErrorView>) {
    if !request.valid() {
        (store, Err(register_rejection()))
    } else {
        let (after, created) = store.create(request.new_user(id, seed));
        (after, register_reply(created))
    }
}

/// Checks the fields of a registration request.
pub fn check_register_request(request: &RegisterRequest) -> (checked: Result<(), ErrorResponse>)
    ensures
        checked is Ok <==> request@.valid(),
        checked matches Err(e) ==> e@ == register_rejection(),
{
    let salt_blank = match &request.salt {
        Some(salt) => blank(salt.as_str()),
        None => false,
    };
    if blank(request.email.as_str()) || blank(request.user_key.as_str()) || salt_blank {
        Err(fail(ErrorKind::InvalidInput, "email and user_key and salt are required"))
    } else {
        Ok(())
    }
}

/// Builds the record to create from a request, an identifier and a salt
/// seed.
pub fn new_user_with(request: RegisterRequest, id: u128, seed: u128) -> (new_user: NewUser)
    ensures
        new_user@ == request@.new_user(id, seed),
{
    let salt = match request.salt {
        Some(salt) => salt,
        None => simple_hex(seed),
    };
    NewUser {
        id,
        email: request.email,
        user_key: request.user_key,
        salt,
        vault: request.vault,
        iterations: request.iterations,
        vaultiv: request.vaultiv,
    }
}

/// Checks a registration request and, where it is valid, builds the record
/// to create under a fresh random identifier, with a fresh random salt
/// where the request brings none.
pub fn prepare_registration(request: RegisterRequest) -> (prepared: Result<NewUser, ErrorResponse>)
    ensures
        prepared is Ok <==> request@.valid(),
        prepared matches Err(e) ==> e@ == register_rejection(),
        prepared matches Ok(new_user) ==> exists|id: u128, seed: u128|
            is_random_uuid(id) && is_random_uuid(seed)
                && new_user@ == #[trigger] request@.new_user(id, seed),
{
    match check_register_request(&request) {
        Err(e) => Err(e),
        Ok(()) => {
            let id = random_uuid();
            let seed = random_uuid();
            Ok(new_user_with(request, id, seed))
        },
    }
}

/// Turns what the storage said of the creation into the reply.
pub fn register_response(
    created: Result<User, StoreError>,
) -> (response: Result<RegisterResponse, ErrorResponse>)
    ensures
        reply(response) == register_reply(lift(created)),
{
    match created {
        Ok(user) => Ok(
            RegisterResponse {
                user: UserResponse { id: user.id, email: user.email },
                vault: user.vault,
                iterations: user.iterations,
                vaultiv: user.vaultiv,
                salt: user.salt,
            },
        ),
        Err(error) => Err(creation_error(error)),
    }
}

/// Registers an identity under the given identifier and salt seed.
pub fn register_with(
    store: &mut CredentialStore,
    request: RegisterRequest,
    id: u128,
    seed: u128,
) -> (response: Result<RegisterResponse, ErrorResponse>)
    ensures
        (final(store)@, reply(response)) == register_outcome(old(store)@, request@, id, seed),
{
    match check_register_request(&request) {
        Err(e) => Err(e),
        Ok(()) => register_response(store.create(new_user_with(request, id, seed))),
    }
}

/// Registers an identity under a fresh random identifier. Where the
/// request brings no salt, the server makes one up.
pub fn register(
    store: &mut CredentialStore,
    request: RegisterRequest,
) -> (response: Result<RegisterResponse, ErrorResponse>)
    ensures
        exists|id: u128, seed: u128|
            is_random_uuid(id) && is_random_uuid(seed)
                && (final(store)@, reply(response))
                == #[trigger] register_outcome(old(store)@, request@, id, seed),
{
    let ghost asked = request@;
    let ghost before = store@;
    match prepare_registration(request) {
        Err(e) => {
            proof {
                // Nothing was drawn, and the rejection is the same whatever
                // would have been: any version-4 identifier bears witness.
                let id: u128 = 0x4000_8000_0000_0000_0000;
                assert(id & 0xF000_C000_0000_0000_0000u128 == id) by (bit_vector)
                    requires
                        id == 0x4000_8000_0000_0000_0000u128,
                ;
                assert(register_outcome(before, asked, id, id).0 == before);
            }
            Err(e)
        },
        Ok(new_user) => {
            let response = register_response(store.create(new_user));
            proof {
                let (id, seed) = choose|id: u128, seed: u128|
                    is_random_uuid(id) && is_random_uuid(seed)
                        && new_user@ == #[trigger] asked.new_user(id, seed);
                assert((store@, reply(response)) == register_outcome(before, asked, id, seed));
            }
            response
        },
    }
}

} // verus!
