use federation_core::signature::{
    digest_agrees, find_header, find_param, read_digest_claim, read_key_owner, read_param,
    verify_digest, Header, Method, Request, SignatureParams, SignedRequest, VerificationError,
};
use federation_core::text::{split_text, strip_prefix_text};

const BODY: &str = "{\"@context\":\"https://www.w3.org/ns/activitystreams\",\"type\":\"Create\",\"id\":\"https://remote.example/activities/1\",\"actor\":\"https://remote.example/u/bob\",\"object\":{\"type\":\"Note\",\"id\":\"https://remote.example/notes/1\",\"attributedTo\":\"https://remote.example/u/bob\",\"content\":\"Hello, Alice!\"}}";
const DIGEST: &str = "SHA-256=vPevGmomtWaaejlZUwIPpzvUyGe5Ew/wpw/u8kLcIx8=";
const SIGNATURE: &str = "ns1IEcpArJRvu/eqssLGJW9gvWAnkgMxyI4uWf0+svEFqNLsfIQ/5JN5zKnuyR5uAIXewUG8J3QVzaoDgBHRzYNae0s5hGNBFwCuzQYBBPGjAQGUUB0qn+EVbUW3WtQDLbCmKhCr/uEE1DkbyZmhnSKJ2RF8JZw6C6V75IbzINHbFkiV3PVndnD7T1bHj0kZS8khoGE1UxG76e1geG7ETAUlWvkhsiO+jMvW+RuwGGmCaWlT8bdy6XlZzp1tsCj8szeaeHLixnVCz4BJJjlWXdOgQrEfC6riTHnQBoGzs30lvKPY8w8byF5dgQt4lePBec2RAj4puDU9kIp0SYNE5Q==";
const PUBLIC_KEY: &str = "-----BEGIN PUBLIC KEY-----\nMIIBIjANBgkqhkiG9w0BAQEFAAOCAQ8AMIIBCgKCAQEA1o9/tr2LjmPNyQCEi/bt\nx5TDbDgApHU9tBdEhcRKjWov9hlIDXIga7N4Es4LYYdoz45fZpAxypOdAV1vz8o2\nd+Snlm/JMKw0yR3ssYlAfgBJiJwkYHOUbvUliTB+ilHt7D930iTeUQWKyIHVPu0y\nn1OS+lBqKkdwp6FgNLjFSDJCuipEB3ScUKULCdbz6brSZneOfFOPeiHLMkFEfp2a\nV9Gk9pIDEjAODtoAv98TAyXQV5IYGir2MQMsmw3MgbIMwiEpnjTkxoXEOq5GNer/\nnlTrpUHTfol0bCoGcwWogFz8riiwgw62Yx5R6LyohfHy4tWhSK2a+t39BxasA+YJ\nxQIDAQAB\n-----END PUBLIC KEY-----\n";
const SIGNING_TEXT: &str = "(request-target): post /u/alice/inbox\nhost: example.com\ndate: Tue, 20 Oct 2026 10:00:00 GMT\ndigest: SHA-256=vPevGmomtWaaejlZUwIPpzvUyGe5Ew/wpw/u8kLcIx8=";

fn header(name: &str, value: &str) -> Header {
    Header { name: name.to_string(), value: value.to_string() }
}

fn signature_header() -> String {
    format!(
        "keyId=\"https://remote.example/u/bob#main-key\",algorithm=\"rsa-sha256\",headers=\"(request-target) host date digest\",signature=\"{}\"",
        SIGNATURE
    )
}

fn request() -> Request {
    Request {
        method: Method::Post,
        path: "/u/alice/inbox".to_string(),
        headers: vec![
            header("host", "example.com"),
            header("date", "Tue, 20 Oct 2026 10:00:00 GMT"),
            header("digest", DIGEST),
            header("signature", &signature_header()),
        ],
        body: BODY.as_bytes().to_vec(),
    }
}

fn without(name: &str) -> Request {
    let mut r = request();
    r.headers.retain(|h| h.name != name);
    r
}

#[test]
fn digest_of_a_known_body_matches() {
    assert!(verify_digest("SHA-256=LPJNul+wow4m6DsqxbninhsWHlwfp0JecwQzYpOLmCQ=", b"hello"));
    assert!(verify_digest(DIGEST, BODY.as_bytes()));
}

#[test]
fn digest_of_another_body_does_not_match() {
    assert!(!verify_digest("SHA-256=LPJNul+wow4m6DsqxbninhsWHlwfp0JecwQzYpOLmCQ=", b"hellO"));
    assert!(!verify_digest(DIGEST, b""));
}

#[test]
fn digest_header_must_name_the_algorithm_and_be_base64() {
    assert!(!verify_digest("LPJNul+wow4m6DsqxbninhsWHlwfp0JecwQzYpOLmCQ=", b"hello"));
    assert!(!verify_digest("MD5=LPJNul+wow4m6DsqxbninhsWHlwfp0JecwQzYpOLmCQ=", b"hello"));
    assert!(!verify_digest("SHA-256=not base64!", b"hello"));
    assert!(!verify_digest("SHA-256=", b"hello"));
    assert!(!verify_digest("", b"hello"));
    // the digest itself is not its own base64 form
    assert!(!verify_digest("SHA-256=hello", b"hello"));
}

#[test]
fn digest_claim_is_what_follows_the_algorithm() {
    assert_eq!(read_digest_claim("SHA-256=abc="), Some("abc=".to_string()));
    assert_eq!(read_digest_claim("SHA-256="), Some(String::new()));
    assert_eq!(read_digest_claim("sha-256=abc"), None);
    assert_eq!(read_digest_claim("SHA-25"), None);
    assert_eq!(strip_prefix_text("héllo wörld", "héllo "), Some("wörld".to_string()));
}

#[test]
fn digest_agrees_only_with_the_same_bytes() {
    assert!(digest_agrees(&Some(vec![1, 2, 3]), &vec![1, 2, 3]));
    assert!(!digest_agrees(&Some(vec![1, 2, 3]), &vec![1, 2, 4]));
    assert!(!digest_agrees(&Some(vec![1, 2]), &vec![1, 2, 3]));
    assert!(!digest_agrees(&None, &vec![]));
    assert!(digest_agrees(&Some(vec![]), &vec![]));
}

#[test]
fn split_cuts_at_every_separator() {
    assert_eq!(split_text("a,b,c", ','), vec!["a", "b", "c"]);
    assert_eq!(split_text("abc", ','), vec!["abc"]);
    assert_eq!(split_text("", ','), vec![""]);
    assert_eq!(split_text(",a,,b,", ','), vec!["", "a", "", "b", ""]);
    assert_eq!(split_text("host date", ' '), vec!["host", "date"]);
}

#[test]
fn param_is_cut_at_the_first_equals_sign_and_unquoted() {
    assert_eq!(read_param("keyId=\"abc\""), Some(("keyId".to_string(), "abc".to_string())));
    assert_eq!(read_param("a=b=c"), Some(("a".to_string(), "b=c".to_string())));
    assert_eq!(read_param("a="), Some(("a".to_string(), String::new())));
    assert_eq!(read_param("a=\""), Some(("a".to_string(), "\"".to_string())));
    assert_eq!(read_param("a=\"\""), Some(("a".to_string(), String::new())));
    assert_eq!(read_param("a=\"x"), Some(("a".to_string(), "\"x".to_string())));
    assert_eq!(read_param("signature=\"QUJD==\""), Some(("signature".to_string(), "QUJD==".to_string())));
    assert_eq!(read_param("novalue"), None);
    assert_eq!(read_param(""), None);
}

#[test]
fn find_param_takes_the_first_of_a_name() {
    let parts = vec!["junk".to_string(), "a=\"1\"".to_string(), "b=2".to_string(), "a=3".to_string()];
    assert_eq!(find_param(&parts, "a"), Some("1".to_string()));
    assert_eq!(find_param(&parts, "b"), Some("2".to_string()));
    assert_eq!(find_param(&parts, "c"), None);
}

#[test]
fn signature_header_is_read() {
    let p = SignatureParams::parse(&signature_header()).unwrap();
    assert_eq!(p.key_id, "https://remote.example/u/bob#main-key");
    assert_eq!(p.headers, vec!["(request-target)", "host", "date", "digest"]);
    assert_eq!(p.signature, SIGNATURE);
}

#[test]
fn signature_header_defaults_to_the_date_header() {
    let p = SignatureParams::parse("keyId=\"k\",signature=\"QUJD\"").unwrap();
    assert_eq!(p.headers, vec!["date"]);
}

#[test]
fn signature_header_needs_key_and_signature() {
    assert_eq!(SignatureParams::parse("keyId=\"k\",headers=\"date\""), None);
    assert_eq!(SignatureParams::parse("signature=\"QUJD\""), None);
    assert_eq!(SignatureParams::parse(""), None);
}

#[test]
fn key_owner_is_the_key_id_without_its_fragment() {
    assert_eq!(read_key_owner("https://remote.example/u/bob#main-key"), "https://remote.example/u/bob");
    assert_eq!(read_key_owner("https://remote.example/u/bob"), "https://remote.example/u/bob");
    assert_eq!(read_key_owner("#x"), "");
    assert_eq!(read_key_owner("a#b#c"), "a");
}

#[test]
fn find_header_takes_the_first_of_a_name() {
    let headers = vec![header("host", "a"), header("date", "d"), header("host", "b")];
    assert_eq!(find_header(&headers, "host"), Some(&"a".to_string()));
    assert_eq!(find_header(&headers, "date"), Some(&"d".to_string()));
    assert_eq!(find_header(&headers, "Host"), None);
}

#[test]
fn signing_text_lists_the_lines_in_order() {
    let r = request();
    let names: Vec<String> =
        ["(request-target)", "host", "date", "digest"].iter().map(|s| s.to_string()).collect();
    assert_eq!(r.signing_text(&names), Some(SIGNING_TEXT.to_string()));
    assert_eq!(r.signing_text(&vec!["host".to_string()]), Some("host: example.com".to_string()));
    assert_eq!(r.signing_text(&vec![]), Some(String::new()));
    assert_eq!(r.signing_text(&vec!["host".to_string(), "missing".to_string()]), None);
    assert_eq!(r.target(), "post /u/alice/inbox");
    let mut get = request();
    get.method = Method::Get;
    assert_eq!(get.target(), "get /u/alice/inbox");
}

#[test]
fn authenticate_reads_a_well_formed_request() {
    let signed = request().authenticate().unwrap();
    assert_eq!(signed.key_id, "https://remote.example/u/bob#main-key");
    assert_eq!(signed.signer, "https://remote.example/u/bob");
    assert_eq!(signed.signing_text, SIGNING_TEXT);
    assert_eq!(signed.signature.len(), 256);
}

#[test]
fn authenticate_needs_the_digest_header() {
    assert_eq!(without("digest").authenticate(), Err(VerificationError::MissingHeader));
}

#[test]
fn authenticate_checks_the_digest_first() {
    let mut r = request();
    r.body.push(b' ');
    assert_eq!(r.authenticate(), Err(VerificationError::DigestMismatch));
    // also where the signature header is absent or broken
    let mut r = without("signature");
    r.body = b"{}".to_vec();
    assert_eq!(r.authenticate(), Err(VerificationError::DigestMismatch));
}

#[test]
fn authenticate_needs_the_signature_header() {
    assert_eq!(without("signature").authenticate(), Err(VerificationError::MissingHeader));
}

#[test]
fn authenticate_rejects_a_malformed_signature_header() {
    let mut r = without("signature");
    r.headers.push(header("signature", "keyId=\"k\""));
    assert_eq!(r.authenticate(), Err(VerificationError::BadSignature));
    let mut r = without("signature");
    r.headers.push(header("signature", "keyId=\"k\",signature=\"***\""));
    assert_eq!(r.authenticate(), Err(VerificationError::BadSignature));
}

#[test]
fn authenticate_needs_every_signed_header() {
    assert_eq!(without("date").authenticate(), Err(VerificationError::MissingHeader));
}

#[test]
fn a_valid_signature_verifies() {
    let signed = request().authenticate().unwrap();
    assert_eq!(signed.verify(PUBLIC_KEY), Ok("https://remote.example/u/bob#main-key".to_string()));
}

#[test]
fn a_signature_over_other_text_does_not_verify() {
    let mut signed = request().authenticate().unwrap();
    signed.signing_text.push('!');
    assert_eq!(signed.verify(PUBLIC_KEY), Err(VerificationError::BadSignature));
}

#[test]
fn a_changed_signature_does_not_verify() {
    let mut signed = request().authenticate().unwrap();
    signed.signature[10] ^= 1;
    assert_eq!(signed.verify(PUBLIC_KEY), Err(VerificationError::BadSignature));
    let short = SignedRequest { signature: vec![1, 2, 3], ..request().authenticate().unwrap() };
    assert_eq!(short.verify(PUBLIC_KEY), Err(VerificationError::BadSignature));
}

#[test]
fn a_text_that_holds_no_key_verifies_nothing() {
    let signed = request().authenticate().unwrap();
    assert_eq!(signed.verify("no key here"), Err(VerificationError::BadSignature));
    assert_eq!(signed.verify(""), Err(VerificationError::BadSignature));
}

#[test]
fn conclude_follows_the_validity() {
    let signed = request().authenticate().unwrap();
    assert_eq!(signed.conclude(true), Ok("https://remote.example/u/bob#main-key".to_string()));
    assert_eq!(signed.conclude(false), Err(VerificationError::BadSignature));
}
