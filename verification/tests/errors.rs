use zk_vault::endpoints::auth::auth_response;
use zk_vault::endpoints::get_crypto_params::get_crypto_params_response;
use zk_vault::endpoints::get_salt::get_salt_response;
use zk_vault::endpoints::get_vault::get_vault_response;
use zk_vault::endpoints::register::register_response;
use zk_vault::errors::{
    creation_error, error_response, fail, lookup_error, ErrorKind, ErrorResponse, StoreError,
};
use zk_vault::models::User;

const KINDS: [ErrorKind; 5] = [
    ErrorKind::InvalidInput,
    ErrorKind::Conflict,
    ErrorKind::NotFound,
    ErrorKind::AuthenticationFailed,
    ErrorKind::StorageUnavailable,
];

fn user() -> User {
    User {
        id: 77,
        email: "a@x.com".to_string(),
        user_key: "the key".to_string(),
        salt: "the salt".to_string(),
        vault: "the vault".to_string(),
        iterations: 4096,
        vaultiv: "the iv".to_string(),
    }
}

fn parts(e: &ErrorResponse) -> (u16, &str, &str) {
    (e.status, e.code, e.error_msg.as_str())
}

#[test]
fn each_kind_has_its_status_and_code() {
    assert_eq!(ErrorKind::InvalidInput.status(), 400);
    assert_eq!(ErrorKind::InvalidInput.code(), "INVALID_INPUT");
    assert_eq!(ErrorKind::Conflict.status(), 409);
    assert_eq!(ErrorKind::Conflict.code(), "CONFLICT");
    assert_eq!(ErrorKind::NotFound.status(), 404);
    assert_eq!(ErrorKind::NotFound.code(), "USER_NOT_FOUND");
    assert_eq!(ErrorKind::AuthenticationFailed.status(), 401);
    assert_eq!(ErrorKind::AuthenticationFailed.code(), "AUTH_FAILED");
    assert_eq!(ErrorKind::StorageUnavailable.status(), 500);
    assert_eq!(ErrorKind::StorageUnavailable.code(), "DB_ERROR");
}

#[test]
fn no_two_kinds_share_a_code() {
    for a in KINDS {
        for b in KINDS {
            assert_eq!(a.code() == b.code(), a == b);
        }
    }
}

#[test]
fn error_response_keeps_its_three_parts() {
    let e = error_response(418, "short and stout", "TEAPOT");
    assert_eq!(parts(&e), (418, "TEAPOT", "short and stout"));
    let e = error_response(0, "", "");
    assert_eq!(parts(&e), (0, "", ""));
}

#[test]
fn fail_takes_status_and_code_from_the_kind() {
    for kind in KINDS {
        let e = fail(kind, "why");
        assert_eq!(parts(&e), (kind.status(), kind.code(), "why"));
    }
}

#[test]
fn creation_error_maps_each_storage_error() {
    assert_eq!(
        parts(&creation_error(StoreError::Conflict)),
        (409, "CONFLICT", "email already registered")
    );
    assert_eq!(
        parts(&creation_error(StoreError::Unavailable)),
        (500, "DB_ERROR", "database unavailable")
    );
    assert_eq!(
        parts(&creation_error(StoreError::Failed)),
        (500, "DB_ERROR", "failed to create user")
    );
    assert_eq!(
        parts(&creation_error(StoreError::NotFound)),
        (500, "DB_ERROR", "failed to create user")
    );
}

#[test]
fn lookup_error_maps_each_storage_error() {
    let missing = || fail(ErrorKind::NotFound, "gone");
    assert_eq!(parts(&lookup_error(StoreError::NotFound, missing())), (404, "USER_NOT_FOUND", "gone"));
    assert_eq!(
        parts(&lookup_error(StoreError::Unavailable, missing())),
        (500, "DB_ERROR", "database unavailable")
    );
    assert_eq!(
        parts(&lookup_error(StoreError::Failed, missing())),
        (500, "DB_ERROR", "failed to fetch user")
    );
    assert_eq!(
        parts(&lookup_error(StoreError::Conflict, missing())),
        (500, "DB_ERROR", "failed to fetch user")
    );
}

#[test]
fn register_response_for_each_storage_answer() {
    let body = register_response(Ok(user())).unwrap();
    assert_eq!(body.status(), 201);
    assert_eq!(body.user.id, 77);
    assert_eq!(body.user.email, "a@x.com");
    assert_eq!(body.salt, "the salt");
    assert_eq!(body.vault, "the vault");
    assert_eq!(body.vaultiv, "the iv");
    assert_eq!(body.iterations, 4096);

    let e = register_response(Err(StoreError::Conflict)).unwrap_err();
    assert_eq!(parts(&e), (409, "CONFLICT", "email already registered"));
    let e = register_response(Err(StoreError::Unavailable)).unwrap_err();
    assert_eq!(parts(&e), (500, "DB_ERROR", "database unavailable"));
    let e = register_response(Err(StoreError::Failed)).unwrap_err();
    assert_eq!(parts(&e), (500, "DB_ERROR", "failed to create user"));
    let e = register_response(Err(StoreError::NotFound)).unwrap_err();
    assert_eq!(parts(&e), (500, "DB_ERROR", "failed to create user"));
}

#[test]
fn auth_response_for_each_storage_answer() {
    let body = auth_response(Ok(user())).unwrap();
    assert_eq!(body.status(), 200);
    assert_eq!(body.user.id, 77);
    assert_eq!(body.user.email, "a@x.com");
    assert_eq!(body.vault, "the vault");
    assert_eq!(body.salt, "the salt");

    let e = auth_response(Err(StoreError::NotFound)).unwrap_err();
    assert_eq!(parts(&e), (401, "AUTH_FAILED", "invalid email or user_key"));
    let e = auth_response(Err(StoreError::Unavailable)).unwrap_err();
    assert_eq!(parts(&e), (500, "DB_ERROR", "database unavailable"));
    let e = auth_response(Err(StoreError::Failed)).unwrap_err();
    assert_eq!(parts(&e), (500, "DB_ERROR", "failed to fetch user"));
    let e = auth_response(Err(StoreError::Conflict)).unwrap_err();
    assert_eq!(parts(&e), (500, "DB_ERROR", "failed to fetch user"));
}

#[test]
fn get_vault_response_for_each_storage_answer() {
    let body = get_vault_response(Ok(user())).unwrap();
    assert_eq!(body.status(), 200);
    assert_eq!(body.user.id, 77);
    assert_eq!(body.user.email, "a@x.com");
    assert_eq!(body.vault, "the vault");
    assert_eq!(body.vaultiv, "the iv");
    assert_eq!(body.iterations, 4096);

    let e = get_vault_response(Err(StoreError::NotFound)).unwrap_err();
    assert_eq!(parts(&e), (404, "USER_NOT_FOUND", "user not found"));
    let e = get_vault_response(Err(StoreError::Unavailable)).unwrap_err();
    assert_eq!(parts(&e), (500, "DB_ERROR", "database unavailable"));
    let e = get_vault_response(Err(StoreError::Failed)).unwrap_err();
    assert_eq!(parts(&e), (500, "DB_ERROR", "failed to fetch user"));
}

#[test]
fn get_crypto_params_response_for_each_storage_answer() {
    let body = get_crypto_params_response(Ok(user())).unwrap();
    assert_eq!(body.status(), 200);
    assert_eq!(body.salt, "the salt");
    assert_eq!(body.iterations, 4096);

    let e = get_crypto_params_response(Err(StoreError::NotFound)).unwrap_err();
    assert_eq!(parts(&e), (404, "USER_NOT_FOUND", "user not found"));
    let e = get_crypto_params_response(Err(StoreError::Unavailable)).unwrap_err();
    assert_eq!(parts(&e), (500, "DB_ERROR", "database unavailable"));
    let e = get_crypto_params_response(Err(StoreError::Failed)).unwrap_err();
    assert_eq!(parts(&e), (500, "DB_ERROR", "failed to fetch user"));
}

#[test]
fn get_salt_response_for_each_storage_answer() {
    let body = get_salt_response(Ok(user())).unwrap();
    assert_eq!(body.status(), 200);
    assert_eq!(body.salt, "the salt");

    let e = get_salt_response(Err(StoreError::NotFound)).unwrap_err();
    assert_eq!(parts(&e), (404, "USER_NOT_FOUND", "user not found"));
    let e = get_salt_response(Err(StoreError::Unavailable)).unwrap_err();
    assert_eq!(parts(&e), (500, "DB_ERROR", "database unavailable"));
    let e = get_salt_response(Err(StoreError::Failed)).unwrap_err();
    assert_eq!(parts(&e), (500, "DB_ERROR", "failed to fetch user"));
}
