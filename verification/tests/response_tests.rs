use cobase::api_config::AppConfig;
use cobase::error::Error;
use cobase::group::command::CreateGroupCommand;
use cobase::response::{CommandResponse, MailboxFailure, Reply, ReplyBody, Response, ResponseError, Success};

fn failure(code: &str, message: &str) -> ReplyBody<Success> {
    ReplyBody::Failure(ResponseError { code: code.to_string(), message: message.to_string() })
}

#[test]
fn answer_is_sent_as_json() {
    let r = Response::<u32>(Ok(Ok(5))).into_reply();
    assert_eq!(r, Reply { status: 200, body: ReplyBody::Json(5) });
}

#[test]
fn unknown_failure_hides_details() {
    let r = CommandResponse(Ok(Err(Error::Unkown("db password wrong".to_string())))).into_reply();
    assert_eq!(r.status, 500);
    assert_eq!(
        r.body,
        failure("Internal Server Error", "Oops something went wrong, Please try again later.")
    );
}

#[test]
fn mailbox_failure_is_internal() {
    let r = CommandResponse(Err(MailboxFailure("Mailbox has closed".to_string()))).into_reply();
    assert_eq!(r.status, 500);
    assert_eq!(
        r.body,
        failure("Internal Server Error", "Oops something went wrong, Please try again later.")
    );
}

#[test]
fn validation_failure_is_bad_request() {
    let report = CreateGroupCommand { name: "ab".to_string() }.validate().unwrap_err();
    let r = CommandResponse(Ok(Err(Error::ValidationErrors(report)))).into_reply();
    assert_eq!(r.status, 400);
    assert_eq!(r.body, failure("Bad Request", "The field .name must be at least 3 characters long"));
}

#[test]
fn command_success() {
    let r = CommandResponse(Ok(Ok(()))).into_reply();
    assert_eq!(r, Reply { status: 200, body: ReplyBody::Json(Success { success: true }) });
}

fn config(pk: &str, cors: Option<bool>) -> AppConfig {
    AppConfig {
        port: 8080,
        cors,
        keycloak_pk: pk.to_string(),
        eventstore_url: "esdb://localhost:2113".to_string(),
        couchbase_url: "couchbase://localhost".to_string(),
        couchbase_username: "admin".to_string(),
        couchbase_password: "secret".to_string(),
        couchbase_bucket: "cobase".to_string(),
        sentry_dsn: String::new(),
    }
}

const PK: &str = "MIIBIjANBgkqhkiG9w0BAQEFAAOCAQ8AMIIBCgKCAQEAmvbk5bAB7Ep5rCJ2UIDdV6wKp/sCuyx9QU9Y1YIIpGh1UiUrCDeuh1ml+xnSLUoN7a8Z4EIwQU2T12ZNfeFkm1EnhSzXWtzcvqx9EG7VF+ZZ2aaUxlljASJtFkATegKktcbc/BiFz40xanHvAqyx4IQNEwmTv6sCJvEi7Pu6dg56YxyrI59oOQ12RFueek8JFxnfDDDP7NLHDVm7lBk3LLO5Hcu4MfKVyuPhvTy5qx2WTFmy2JYpSHYrmnJM/CrzVisQsd9js6Zn3VKEiArG4l546gRC+2W+HPt+d05DjeK7H8S1nljm80XlQJOSDbOVSaHDIB4Kq5vXERDK4vq6OwIDAQAB";

#[test]
fn keycloak_pem_wraps_key() {
    assert_eq!(
        config("ABC", None).keycloak_pem(),
        "-----BEGIN PUBLIC KEY-----\nABC\n-----END PUBLIC KEY-----"
    );
}

#[test]
fn keycloak_key_is_read() {
    assert!(config(PK, None).keycloak_oid_public_key().is_ok());
    assert!(config("not a key", None).keycloak_oid_public_key().is_err());
}

#[test]
fn cors_only_when_asked() {
    assert!(!config(PK, None).cors_enabled());
    assert!(!config(PK, Some(false)).cors_enabled());
    assert!(config(PK, Some(true)).cors_enabled());
}
