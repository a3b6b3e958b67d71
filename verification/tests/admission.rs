use blog_api::api_response::ApiResponse;
use blog_api::auth::{
    authorize_at, bearer_token, claims_from_context, guard, guard_at, rejection, Admission,
};
use blog_api::jwt::{generate_jwt, generate_jwt_at, AuthFailure, JwtClaims};

const SECRET: &str = "guard-secret";

fn is_the_one_rejection(reply: &ApiResponse<String>) -> bool {
    reply.status == 401 && reply.message == "Unauthorized" && reply.data == "Unauthorized"
}

#[test]
fn bearer_token_needs_the_scheme() {
    assert_eq!(bearer_token("Bearer abc.def.ghi"), Some("abc.def.ghi"));
    assert_eq!(bearer_token("Bearer "), Some(""));
    assert_eq!(bearer_token("abc.def.ghi"), None);
    assert_eq!(bearer_token("Basic dXNlcjpwYXNz"), None);
    assert_eq!(bearer_token("bearer abc"), None);
    assert_eq!(bearer_token("Bearer"), None);
    assert_eq!(bearer_token(""), None);
    assert_eq!(bearer_token(" Bearer abc"), None);
}

#[test]
fn bearer_token_takes_the_scheme_off_once() {
    assert_eq!(bearer_token("Bearer Bearer abc"), Some("Bearer abc"));
}

#[test]
fn bearer_token_counts_characters_not_bytes() {
    assert_eq!(bearer_token("Bearer zürich"), Some("zürich"));
    assert_eq!(bearer_token("Bäarer abc"), None);
}

#[test]
fn guard_rejects_missing_header() {
    assert_eq!(authorize_at(None, SECRET, 10).unwrap_err(), AuthFailure::HeaderMissing);
    match guard_at(None, SECRET, 10) {
        Admission::Reject(reply) => assert!(is_the_one_rejection(&reply)),
        Admission::Forward(_) => panic!("forwarded a request without a header"),
    }
}

#[test]
fn guard_rejects_header_without_bearer_scheme() {
    let token = generate_jwt_at(1, "a@b.c".to_string(), SECRET, 10).unwrap();
    assert_eq!(authorize_at(Some(&token), SECRET, 10).unwrap_err(), AuthFailure::HeaderMissing);
    let basic = format!("Basic {}", token);
    assert_eq!(authorize_at(Some(&basic), SECRET, 10).unwrap_err(), AuthFailure::HeaderMissing);
    match guard_at(Some(&token), SECRET, 10) {
        Admission::Reject(reply) => assert!(is_the_one_rejection(&reply)),
        Admission::Forward(_) => panic!("forwarded a request without the scheme"),
    }
}

#[test]
fn guard_rejects_expired_token() {
    let token = generate_jwt_at(1, "a@b.c".to_string(), SECRET, 10).unwrap();
    let header = format!("Bearer {}", token);
    assert_eq!(
        authorize_at(Some(&header), SECRET, 10 + 86_400).unwrap_err(),
        AuthFailure::Expired
    );
    match guard_at(Some(&header), SECRET, 10 + 86_400) {
        Admission::Reject(reply) => assert!(is_the_one_rejection(&reply)),
        Admission::Forward(_) => panic!("forwarded an expired token"),
    }
    match guard(Some(&header), SECRET) {
        Admission::Reject(reply) => assert!(is_the_one_rejection(&reply)),
        Admission::Forward(_) => panic!("forwarded a token of 1970"),
    }
}

#[test]
fn guard_rejects_token_of_another_secret() {
    let token = generate_jwt_at(1, "a@b.c".to_string(), "other", 10).unwrap();
    let header = format!("Bearer {}", token);
    assert_eq!(
        authorize_at(Some(&header), SECRET, 10).unwrap_err(),
        AuthFailure::InvalidSignature
    );
}

#[test]
fn guard_rejects_garbage_token() {
    assert_eq!(
        authorize_at(Some("Bearer garbage"), SECRET, 10).unwrap_err(),
        AuthFailure::MalformedToken
    );
    assert_eq!(
        authorize_at(Some("Bearer "), SECRET, 10).unwrap_err(),
        AuthFailure::MalformedToken
    );
}

#[test]
fn guard_forwards_fresh_token() {
    let token = generate_jwt_at(77, "fresh@example.com".to_string(), SECRET, 500).unwrap();
    let header = format!("Bearer {}", token);
    match guard_at(Some(&header), SECRET, 500) {
        Admission::Forward(claims) => {
            assert_eq!(claims.user_id, 77);
            assert_eq!(claims.email, "fresh@example.com");
            assert_eq!(claims.iat, 500);
            assert_eq!(claims.exp, 500 + 86_400);
        }
        Admission::Reject(_) => panic!("rejected a fresh token"),
    }
}

#[test]
fn guard_forwards_fresh_token_by_the_clock() {
    let token = generate_jwt(78, "now@example.com".to_string(), SECRET).unwrap();
    let header = format!("Bearer {}", token);
    match guard(Some(&header), SECRET) {
        Admission::Forward(claims) => {
            assert_eq!(claims.user_id, 78);
            assert_eq!(claims.email, "now@example.com");
        }
        Admission::Reject(_) => panic!("rejected a token issued just now"),
    }
}

#[test]
fn rejection_tells_nothing_of_the_reason() {
    for failure in [
        AuthFailure::HeaderMissing,
        AuthFailure::MalformedToken,
        AuthFailure::InvalidSignature,
        AuthFailure::Expired,
    ] {
        assert!(is_the_one_rejection(&rejection(failure)));
    }
}

#[test]
fn claims_come_out_of_the_context() {
    let claims = JwtClaims { user_id: 3, exp: 9, iat: 1, email: "c@d.e".to_string() };
    let found = claims_from_context(Some(&claims)).unwrap();
    assert_eq!((found.user_id, found.exp, found.iat), (3, 9, 1));
    assert_eq!(found.email, "c@d.e");
    let copy = claims.clone();
    assert_eq!(copy.email, claims.email);
    let refusal = claims_from_context(None).unwrap_err();
    assert_eq!(refusal.status, 400);
    assert_eq!(refusal.message, "Unauthorized");
    assert_eq!(refusal.data, "Unauthorized");
}
