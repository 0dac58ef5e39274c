//! What holds of the protocol as a whole, proved from the definitions of
//! its operations.

use crate::endpoints::auth::{auth_failed, auth_outcome, authenticated, AuthRequestView};
use crate::endpoints::get_crypto_params::{
    get_crypto_params_outcome, GetCryptoParamsRequestView, GetCryptoParamsResponseView,
};
use crate::endpoints::get_salt::{get_salt_outcome, GetSaltRequestView, GetSaltResponseView};
use crate::endpoints::get_vault::{
    get_vault_outcome, vault_not_found, vault_of, GetVaultRequestView,
};
use crate::endpoints::register::{register_outcome, registered, RegisterRequestView};
use crate::entropy::lemma_hex32_not_blank;
use crate::errors::{failure, ErrorKind};
use crate::models::{UserView, DEFAULT_ITERATIONS};
use crate::store::StoreModel;
use crate::text::is_blank;
use vstd::prelude::*;

verus! {

/// The store in which the record of `email`, if there is one, has
/// `auth_key` for its authentication key, and all else is as in `store`.
pub open spec fn rekeyed(store: StoreModel, email: Seq<char>, auth_key: Seq<char>) -> StoreModel {
    if store.rows.contains_key(email) {
        StoreModel {
            rows: store.rows.insert(email, UserView { user_key: auth_key, ..store.rows[email] }),
            ..store
        }
    } else {
        store
    }
}

/// Registration of a valid request under an email that is not taken
/// succeeds while the storage can be reached, and the key-derivation
/// parameters that are then handed out for that email are the ones that
/// registration stored and answered with: the salt and work factor of the
/// request where it brought them, a made-up salt that is not blank and the
/// default work factor where it did not.
pub proof fn law_register_then_get_crypto_params(
    store: StoreModel,
    request: RegisterRequestView,
    id: u128,
    seed: u128,
)
    requires
        store.available,
        request.valid(),
        !store.rows.contains_key(request.email),
    ensures
        ({
            let (after, response) = register_outcome(store, request, id, seed);
            let stored = after.rows[request.email];
            &&& response matches Ok(body) && body == registered(stored)
            &&& stored.id == id
            &&& !is_blank(stored.salt)
            &&& request.salt matches Some(salt) ==> stored.salt == salt
            &&& stored.iterations == match request.iterations {
                Some(n) => n,
                None => DEFAULT_ITERATIONS,
            }
            &&& get_crypto_params_outcome(
                after,
                (GetCryptoParamsRequestView { email: request.email }),
            ) matches Ok(params) && params == (GetCryptoParamsResponseView {
                salt: stored.salt,
                iterations: stored.iterations,
            })
        }),
{
    lemma_hex32_not_blank(seed);
}

/// Registration of a valid request under an email that is taken fails
/// with `Conflict` while the storage can be reached, whatever the
/// authentication key of the request, and leaves the store as it was.
pub proof fn law_register_conflict(
    store: StoreModel,
    request: RegisterRequestView,
    id: u128,
    seed: u128,
)
    requires
        store.available,
        request.valid(),
        store.rows.contains_key(request.email),
    ensures
        register_outcome(store, request, id, seed).0 == store,
        register_outcome(store, request, id, seed).1 matches Err(e) && e == failure(
            ErrorKind::Conflict,
            "email already registered"@,
        ),
{
}

/// Of two registrations under one email, the second is a conflict: once
/// a registration has succeeded, another valid request with the same
/// email is refused, and what the first one stored stays.
pub proof fn law_register_twice(
    store: StoreModel,
    first: RegisterRequestView,
    first_id: u128,
    first_seed: u128,
    second: RegisterRequestView,
    second_id: u128,
    second_seed: u128,
)
    requires
        register_outcome(store, first, first_id, first_seed).1 is Ok,
        second.valid(),
        second.email == first.email,
    ensures
        ({
            let (after, _) = register_outcome(store, first, first_id, first_seed);
            let (at_last, response) = register_outcome(after, second, second_id, second_seed);
            &&& at_last == after
            &&& response matches Err(e) && e.status == 409 && e == failure(
                ErrorKind::Conflict,
                "email already registered"@,
            )
        }),
{
}

/// Registration never touches a record that exists: whatever its outcome,
/// every record of the store is afterwards what it was before, so the
/// salt and the work factor of an identity never change. A registration
/// that fails changes nothing at all, and one that succeeds keeps the
/// store well formed.
pub proof fn law_register_keeps_records(
    store: StoreModel,
    request: RegisterRequestView,
    id: u128,
    seed: u128,
)
    ensures
        ({
            let (after, response) = register_outcome(store, request, id, seed);
            &&& forall|email: Seq<char>| #[trigger]
                store.rows.contains_key(email) ==> after.rows.contains_key(email)
                    && after.rows[email] == store.rows[email]
            &&& after.available == store.available
            &&& response is Err ==> after == store
            &&& store.wf() ==> after.wf()
        }),
{
}

/// Authentication with the email and the authentication key of a record
/// succeeds while the storage can be reached, and answers with the vault
/// and the salt of that record.
pub proof fn law_auth_accepts_stored_credentials(store: StoreModel, request: AuthRequestView)
    requires
        store.available,
        request.valid(),
        store.rows.contains_key(request.email),
        store.rows[request.email].user_key == request.user_key,
    ensures
        auth_outcome(store, request) matches Ok(body) && body == authenticated(
            store.rows[request.email],
        ) && body.vault == store.rows[request.email].vault && body.salt
            == store.rows[request.email].salt,
{
}

/// Right after a successful registration, authentication with the same
/// email and authentication key answers with the identity, the vault and
/// the salt that registration answered with.
pub proof fn law_auth_after_register(
    store: StoreModel,
    request: RegisterRequestView,
    id: u128,
    seed: u128,
)
    requires
        register_outcome(store, request, id, seed).1 is Ok,
    ensures
        ({
            let (after, response) = register_outcome(store, request, id, seed);
            let answer = auth_outcome(
                after,
                (AuthRequestView { email: request.email, user_key: request.user_key }),
            );
            &&& answer is Ok
            &&& answer->Ok_0.user == response->Ok_0.user
            &&& answer->Ok_0.vault == response->Ok_0.vault
            &&& answer->Ok_0.salt == response->Ok_0.salt
        }),
{
}

/// Authentication tells a caller nothing of why credentials were refused:
/// a wrong key for a known email and any key for an unknown email are
/// answered with one and the same failure, status, code and message
/// alike.
pub proof fn law_auth_failures_alike(
    store: StoreModel,
    wrong_key: AuthRequestView,
    unknown_email: AuthRequestView,
)
    requires
        store.available,
        wrong_key.valid(),
        unknown_email.valid(),
        store.rows.contains_key(wrong_key.email),
        store.rows[wrong_key.email].user_key != wrong_key.user_key,
        !store.rows.contains_key(unknown_email.email),
    ensures
        auth_outcome(store, wrong_key) == auth_outcome(store, unknown_email),
        auth_outcome(store, wrong_key) matches Err(e) && e == auth_failed(),
        auth_failed().status == 401,
        auth_failed().code == "AUTH_FAILED"@,
{
}

/// Vault retrieval likewise answers a wrong key and an unknown email with
/// one and the same failure, which it reports as a record not found.
pub proof fn law_get_vault_failures_alike(
    store: StoreModel,
    wrong_key: GetVaultRequestView,
    unknown_email: GetVaultRequestView,
)
    requires
        store.available,
        wrong_key.valid(),
        unknown_email.valid(),
        store.rows.contains_key(wrong_key.email),
        store.rows[wrong_key.email].user_key != wrong_key.user_key,
        !store.rows.contains_key(unknown_email.email),
    ensures
        get_vault_outcome(store, wrong_key) == get_vault_outcome(store, unknown_email),
        get_vault_outcome(store, wrong_key) matches Err(e) && e == vault_not_found(),
        vault_not_found().status == 404,
        vault_not_found().code == "USER_NOT_FOUND"@,
{
}

/// Vault retrieval with the email and the authentication key of a record
/// succeeds while the storage can be reached, and answers with the vault,
/// the initialization vector and the work factor of that record.
pub proof fn law_get_vault_accepts_stored_credentials(store: StoreModel, request: GetVaultRequestView)
    requires
        store.available,
        request.valid(),
        store.rows.contains_key(request.email),
        store.rows[request.email].user_key == request.user_key,
    ensures
        get_vault_outcome(store, request) matches Ok(body) && body == vault_of(
            store.rows[request.email],
        ) && body.vault == store.rows[request.email].vault && body.vaultiv
            == store.rows[request.email].vaultiv && body.iterations
            == store.rows[request.email].iterations,
{
}

/// What is handed out without proof of the key does not depend on the
/// key: change the authentication key of any record, and the
/// key-derivation parameters and the salt that are handed out for any
/// email stay the same.
pub proof fn law_params_do_not_depend_on_key(
    store: StoreModel,
    email: Seq<char>,
    auth_key: Seq<char>,
    asked: Seq<char>,
)
    ensures
        get_crypto_params_outcome(
            rekeyed(store, email, auth_key),
            (GetCryptoParamsRequestView { email: asked }),
        ) == get_crypto_params_outcome(store, (GetCryptoParamsRequestView { email: asked })),
        get_salt_outcome(rekeyed(store, email, auth_key), (GetSaltRequestView { email: asked }))
            == get_salt_outcome(store, (GetSaltRequestView { email: asked })),
{
}

/// The answer to a proof of the key does not carry the key: where an
/// identity had another authentication key, and the caller proved
/// knowledge of that one instead, vault retrieval and authentication
/// would answer with the same body.
pub proof fn law_answers_do_not_carry_key(
    store: StoreModel,
    email: Seq<char>,
    one_key: Seq<char>,
    other_key: Seq<char>,
)
    requires
        !is_blank(one_key),
        !is_blank(other_key),
    ensures
        get_vault_outcome(
            rekeyed(store, email, one_key),
            (GetVaultRequestView { email, user_key: one_key }),
        ) == get_vault_outcome(
            rekeyed(store, email, other_key),
            (GetVaultRequestView { email, user_key: other_key }),
        ),
        auth_outcome(rekeyed(store, email, one_key), (AuthRequestView { email, user_key: one_key }))
            == auth_outcome(
            rekeyed(store, email, other_key),
            (AuthRequestView { email, user_key: other_key }),
        ),
{
}

/// Registration does not echo the key either: two requests that differ in
/// the authentication key alone, neither key blank, get the same reply.
pub proof fn law_register_does_not_echo_key(
    store: StoreModel,
    request: RegisterRequestView,
    other_key: Seq<char>,
    id: u128,
    seed: u128,
)
    requires
        !is_blank(request.user_key),
        !is_blank(other_key),
    ensures
        register_outcome(store, request, id, seed).1 == register_outcome(
            store,
            (RegisterRequestView { user_key: other_key, ..request }),
            id,
            seed,
        ).1,
{
}

/// Reading is repeatable: two stores that hold the same records and are
/// both reachable, or both not, give the same answer to the same request,
/// be it for the parameters, the salt or the vault, or to authenticate.
/// The operations that read take the store by shared reference, so
/// between two reads with nothing else in between the store is the same.
pub proof fn law_reads_repeat(
    store: StoreModel,
    again: StoreModel,
    params: GetCryptoParamsRequestView,
    salt: GetSaltRequestView,
    vault: GetVaultRequestView,
    credentials: AuthRequestView,
)
    requires
        again.available == store.available,
        again.rows =~= store.rows,
    ensures
        get_crypto_params_outcome(again, params) == get_crypto_params_outcome(store, params),
        get_salt_outcome(again, salt) == get_salt_outcome(store, salt),
        get_vault_outcome(again, vault) == get_vault_outcome(store, vault),
        auth_outcome(again, credentials) == auth_outcome(store, credentials),
{
}

/// The salt alone is the salt of the key-derivation parameters: the two
/// requests succeed on the same emails, with the same salt, and fail
/// alike.
pub proof fn law_get_salt_agrees_with_get_crypto_params(store: StoreModel, email: Seq<char>)
    ensures
        get_crypto_params_outcome(store, (GetCryptoParamsRequestView { email })) matches Ok(params)
            ==> get_salt_outcome(store, (GetSaltRequestView { email })) matches Ok(body)
            && body.salt == params.salt,
        get_crypto_params_outcome(store, (GetCryptoParamsRequestView { email })) matches Err(e)
            ==> get_salt_outcome(store, (GetSaltRequestView { email })) matches Err(same) && same
            == e,
{
}

/// A request with a blank email is rejected as invalid input by every
/// operation, whatever the store holds and whether or not it can be
/// reached, and the store stays as it was.
pub proof fn law_blank_email_rejected(
    store: StoreModel,
    request: RegisterRequestView,
    user_key: Seq<char>,
    id: u128,
    seed: u128,
)
    requires
        is_blank(request.email),
    ensures
        register_outcome(store, request, id, seed).0 == store,
        register_outcome(store, request, id, seed).1 matches Err(e) && e.status == 400 && e.code
            == "INVALID_INPUT"@,
        auth_outcome(store, (AuthRequestView { email: request.email, user_key })) matches Err(e)
            && e.status == 400 && e.code == "INVALID_INPUT"@,
        get_vault_outcome(store, (GetVaultRequestView { email: request.email, user_key })) matches Err(
            e,
        ) && e.status == 400 && e.code == "INVALID_INPUT"@,
        get_crypto_params_outcome(store, (GetCryptoParamsRequestView { email: request.email }))
            matches Err(e) && e.status == 400 && e.code == "INVALID_INPUT"@,
        get_salt_outcome(store, (GetSaltRequestView { email: request.email })) matches Err(e)
            && e.status == 400 && e.code == "INVALID_INPUT"@,
{
}

/// No two kinds of failure share a code, so a caller can tell them apart
/// by the code alone: a conflict from a storage failure, a failed
/// authentication from a record not found.
pub proof fn law_codes_tell_kinds_apart(a: ErrorKind, b: ErrorKind)
    ensures
        a.code_of() == b.code_of() <==> a == b,
{
    reveal_strlit("INVALID_INPUT");
    reveal_strlit("CONFLICT");
    reveal_strlit("USER_NOT_FOUND");
    reveal_strlit("AUTH_FAILED");
    reveal_strlit("DB_ERROR");
    if a != b && a.code_of() == b.code_of() {
        assert(a.code_of().len() == b.code_of().len());
        assert(a.code_of()[0] == b.code_of()[0]);
    }
}

} // verus!
