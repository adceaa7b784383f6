//! Request authentication: body digest and HTTP signature.
//!
//! A request is authentic when its `digest` header matches the SHA-256 of
//! its body and its `signature` header holds an RSA-SHA256 signature, by
//! the key of the claimed actor, over the request line and the headers it
//! lists. The digest is checked first, and nothing that a message asks for
//! may be done before both checks have passed.
//!
//! Header names are compared as given; the embedding server hands them in
//! lower case.

use vstd::prelude::*;
use vstd::string::StringExecFns;
use crate::seq_lemmas::{first_index, lemma_first_index_is};
use crate::text::{
    find_char, is_char, same_bytes, slice_text, split, split_text, strip_prefix, strip_prefix_text,
    to_chars,
};

verus! {

/// The SHA-256 digest of `data`.
pub uninterp spec fn sha256_digest(data: Seq<u8>) -> Seq<u8>;

/// The bytes that `text` encodes in standard padded base64, if it is
/// well-formed.
pub uninterp spec fn base64_decoded(text: Seq<char>) -> Option<Seq<u8>>;

/// Whether `signature` is an RSASSA-PKCS1-v1_5 signature with SHA-256 of
/// the UTF-8 bytes of `message`, valid under the RSA public key that the
/// PEM text `public_key` holds as a SubjectPublicKeyInfo. False where the
/// text holds no such key.
pub uninterp spec fn signature_valid(
    public_key: Seq<char>,
    message: Seq<char>,
    signature: Seq<u8>,
) -> bool;

/// The bytes that a decoding gave, if it gave any.
pub open spec fn decoded_view(bytes: Option<Vec<u8>>) -> Option<Seq<u8>> {
    match bytes {
        Some(b) => Some(b@),
        None => None,
    }
}

/// Hashes with `sha2::Sha256::digest`. The contract names the digest: it
/// depends on the data alone.
#[verifier::external_body]
fn sha256(data: &[u8]) -> (digest: Vec<u8>)
    ensures
        digest@ == sha256_digest(data@),
{
    <sha2::Sha256 as sha2::Digest>::digest(data).to_vec()
}

/// Decodes with the `STANDARD` engine of `base64` (`Engine::decode`), and
/// maps a decoding error to `None`. The contract names the outcome: it
/// depends on the text alone.
#[verifier::external_body]
fn base64_decode(text: &str) -> (bytes: Option<Vec<u8>>)
    ensures
        decoded_view(bytes) == base64_decoded(text@),
{
    base64::Engine::decode(&base64::engine::general_purpose::STANDARD, text).ok()
}

/// Reads the key with `rsa::RsaPublicKey::from_public_key_pem`, the
/// signature with `rsa::pkcs1v15::Signature::try_from`, and checks it with
/// `rsa::pkcs1v15::VerifyingKey::<Sha256>::verify` over the UTF-8 bytes of
/// the message. An error at any step gives `false`. The contract names the
/// result: it depends on the three arguments alone.
#[verifier::external_body]
fn rsa_sha256_verify(public_key: &str, message: &str, signature: &[u8]) -> (valid: bool)
    ensures
        valid == signature_valid(public_key@, message@, signature@),
{
    let Ok(key) = <rsa::RsaPublicKey as rsa::pkcs8::DecodePublicKey>::from_public_key_pem(
        public_key,
    ) else {
        return false;
    };
    let Ok(signature) = rsa::pkcs1v15::Signature::try_from(signature) else {
        return false;
    };
    let verifier = rsa::pkcs1v15::VerifyingKey::<sha2::Sha256>::new(key);
    rsa::signature::Verifier::verify(&verifier, message.as_bytes(), &signature).is_ok()
}

/// One header of a request.
#[derive(Debug, PartialEq, Eq)]
pub struct Header {
    pub name: String,
    pub value: String,
}

pub struct HeaderView {
    pub name: Seq<char>,
    pub value: Seq<char>,
}

/// The request methods that the federation endpoints accept.
#[derive(Clone, Copy, Debug, PartialEq, Eq, Structural)]
pub enum Method {
    Get,
    Post,
}

/// What authentication reads of an inbound request.
#[derive(Debug, PartialEq, Eq)]
pub struct Request {
    pub method: Method,
    /// Path and query, as on the request line.
    pub path: String,
    pub headers: Vec<Header>,
    pub body: Vec<u8>,
}

pub struct RequestView {
    pub method: Method,
    pub path: Seq<char>,
    pub headers: Seq<HeaderView>,
    pub body: Seq<u8>,
}

/// Why a request is not authentic.
#[derive(Clone, Copy, Debug, PartialEq, Eq, Structural)]
pub enum VerificationError {
    /// The digest header, the signature header, or a header that the
    /// signature covers is absent.
    MissingHeader,
    /// The digest header does not match the body.
    DigestMismatch,
    /// The actor that owns the key could not be resolved.
    UnknownKey,
    /// The signature header is malformed, the signature does not verify, or
    /// its key does not vouch for what the request delivers.
    BadSignature,
}

/// The parameters of a signature header.
#[derive(Debug, PartialEq, Eq)]
pub struct SignatureParams {
    pub key_id: String,
    /// The names of the signed headers, in signing order.
    pub headers: Vec<String>,
    /// The signature, still in base64.
    pub signature: String,
}

pub struct SignatureParamsView {
    pub key_id: Seq<char>,
    pub headers: Seq<Seq<char>>,
    pub signature: Seq<char>,
}

impl View for Header {
    type V = HeaderView;

    open spec fn view(&self) -> HeaderView {
        HeaderView { name: self.name@, value: self.value@ }
    }
}

impl View for Request {
    type V = RequestView;

    open spec fn view(&self) -> RequestView {
        RequestView {
            method: self.method,
            path: self.path@,
            headers: self.headers@.map_values(|h: Header| h@),
            body: self.body@,
        }
    }
}

impl View for SignatureParams {
    type V = SignatureParamsView;

    open spec fn view(&self) -> SignatureParamsView {
        SignatureParamsView {
            key_id: self.key_id@,
            headers: self.headers.deep_view(),
            signature: self.signature@,
        }
    }
}

/// Test: the header is called `name`.
pub open spec fn named(name: Seq<char>) -> spec_fn(HeaderView) -> bool {
    |h: HeaderView| h.name == name
}

/// The value of the first header called `name`.
pub open spec fn header_value(headers: Seq<HeaderView>, name: Seq<char>) -> Option<Seq<char>> {
    let at = first_index(headers, named(name));
    if at < headers.len() {
        Some(headers[at].value)
    } else {
        None
    }
}

/// The digest that a digest header claims, still in base64: what follows
/// the algorithm name `SHA-256=`.
pub open spec fn digest_claim(header: Seq<char>) -> Option<Seq<char>> {
    strip_prefix(header, "SHA-256="@)
}

/// Whether the decoded claim is the digest that was computed.
pub open spec fn claim_agrees(claimed: Option<Seq<u8>>, actual: Seq<u8>) -> bool {
    claimed == Some(actual)
}

/// Whether a digest header matches a body.
pub open spec fn digest_matches(header: Seq<char>, body: Seq<u8>) -> bool {
    match digest_claim(header) {
        Some(claim) => claim_agrees(base64_decoded(claim), sha256_digest(body)),
        None => false,
    }
}

/// A value without the double quotes around it, if it has them.
pub open spec fn unquoted(value: Seq<char>) -> Seq<char> {
    if value.len() >= 2 && value.first() == '"' && value.last() == '"' {
        value.subrange(1, value.len() - 1)
    } else {
        value
    }
}

/// Name and value of one `name="value"` parameter: the text is cut at the
/// first `=`.
pub open spec fn param(part: Seq<char>) -> Option<(Seq<char>, Seq<char>)> {
    let eq = first_index(part, is_char('='));
    if 0 <= eq < part.len() {
        Some((part.take(eq), unquoted(part.skip(eq + 1))))
    } else {
        None
    }
}

/// Test: the text is a parameter called `name`.
pub open spec fn is_param(name: Seq<char>) -> spec_fn(Seq<char>) -> bool {
    |part: Seq<char>| param(part) matches Some(p) && p.0 == name
}

/// The value of the first parameter called `name`.
pub open spec fn param_value(parts: Seq<Seq<char>>, name: Seq<char>) -> Option<Seq<char>> {
    let at = first_index(parts, is_param(name));
    if at < parts.len() {
        match param(parts[at]) {
            Some((_, value)) => Some(value),
            None => None,
        }
    } else {
        None
    }
}

/// The parameters of a signature header: a comma-separated list that must
/// hold `keyId` and `signature`. The signed headers are those that
/// `headers` lists, separated by spaces, or `date` alone where it is absent.
pub open spec fn signature_params(header: Seq<char>) -> Option<SignatureParamsView> {
    let parts = split(header, ',');
    match (param_value(parts, "keyId"@), param_value(parts, "signature"@)) {
        (Some(key_id), Some(signature)) => Some(
            SignatureParamsView {
                key_id,
                headers: match param_value(parts, "headers"@) {
                    Some(list) => split(list, ' '),
                    None => seq!["date"@],
                },
                signature,
            },
        ),
        _ => None,
    }
}

/// The URL of the actor that owns a key: the key identifier up to its
/// fragment.
pub open spec fn key_owner(key_id: Seq<char>) -> Seq<char> {
    key_id.take(first_index(key_id, is_char('#')))
}

/// The value of the first header called `name`.
pub fn find_header<'a>(headers: &'a Vec<Header>, name: &str) -> (value: Option<&'a String>)
    ensures
        match value {
            Some(v) => header_value(headers@.map_values(|h: Header| h@), name@) == Some(v@),
            None => header_value(headers@.map_values(|h: Header| h@), name@) is None,
        },
{
    let wanted = String::from_str(name);
    let ghost views = headers@.map_values(|h: Header| h@);
    let mut i: usize = 0;
    while i < headers.len()
        invariant
            i <= headers.len(),
            wanted@ == name@,
            views == headers@.map_values(|h: Header| h@),
            forall|j: int| 0 <= j < i ==> !named(name@)(#[trigger] views[j]),
        decreases headers.len() - i,
    {
        if headers[i].name == wanted {
            proof {
                lemma_first_index_is(views, named(name@), i as int);
            }
            return Some(&headers[i].value);
        }
        i += 1;
    }
    proof {
        lemma_first_index_is(views, named(name@), i as int);
    }
    None
}

/// The digest that a digest header claims, still in base64.
pub fn read_digest_claim(header: &str) -> (claim: Option<String>)
    ensures
        claim.deep_view() == digest_claim(header@),
{
    strip_prefix_text(header, "SHA-256=")
}

/// Whether the decoded claim is the digest that was computed.
pub fn digest_agrees(claimed: &Option<Vec<u8>>, actual: &Vec<u8>) -> (agrees: bool)
    ensures
        agrees == claim_agrees(decoded_view(*claimed), actual@),
{
    match claimed {
        Some(bytes) => same_bytes(bytes, actual),
        None => false,
    }
}

/// Whether a digest header matches a body.
pub fn verify_digest(header: &str, body: &[u8]) -> (matches: bool)
    ensures
        matches == digest_matches(header@, body@),
{
    match read_digest_claim(header) {
        Some(claim) => {
            let claimed = base64_decode(claim.as_str());
            let actual = sha256(body);
            digest_agrees(&claimed, &actual)
        },
        None => false,
    }
}

/// Name and value of one `name="value"` parameter.
pub fn read_param(part: &str) -> (res: Option<(String, String)>)
    ensures
        match res {
            Some((name, value)) => param(part@) == Some((name@, value@)),
            None => param(part@) is None,
        },
{
    let chars = to_chars(part);
    let n = chars.len();
    let eq = find_char(&chars, '=', 0);
    assert(chars@.skip(0) =~= chars@);
    if eq >= n {
        return None;
    }
    let name = slice_text(part, 0, eq);
    assert(part@.subrange(0, eq as int) =~= part@.take(eq as int));
    let ghost raw = part@.skip(eq + 1);
    let value = if n - eq >= 3 && chars[eq + 1] == '"' && chars[n - 1] == '"' {
        assert(raw.subrange(1, raw.len() - 1) =~= part@.subrange(eq + 2, n - 1));
        slice_text(part, eq + 2, n - 1)
    } else {
        assert(part@.subrange(eq + 1, n as int) =~= raw);
        slice_text(part, eq + 1, n)
    };
    Some((name, value))
}

/// The value of the first parameter called `name`.
pub fn find_param(parts: &Vec<String>, name: &str) -> (value: Option<String>)
    ensures
        value.deep_view() == param_value(parts.deep_view(), name@),
{
    let wanted = String::from_str(name);
    let mut i: usize = 0;
    while i < parts.len()
        invariant
            i <= parts.len(),
            wanted@ == name@,
            forall|j: int| 0 <= j < i ==> !is_param(name@)(#[trigger] parts.deep_view()[j]),
        decreases parts.len() - i,
    {
        match read_param(parts[i].as_str()) {
            Some((found, value)) => {
                if found == wanted {
                    proof {
                        lemma_first_index_is(parts.deep_view(), is_param(name@), i as int);
                    }
                    return Some(value);
                }
            },
            None => {},
        }
        i += 1;
    }
    proof {
        lemma_first_index_is(parts.deep_view(), is_param(name@), i as int);
    }
    None
}

/// The URL of the actor that owns a key.
pub fn read_key_owner(key_id: &str) -> (owner: String)
    ensures
        owner@ == key_owner(key_id@),
{
    let chars = to_chars(key_id);
    let at = find_char(&chars, '#', 0);
    assert(chars@.skip(0) =~= chars@);
    assert(key_id@.subrange(0, at as int) =~= key_id@.take(at as int));
    slice_text(key_id, 0, at)
}

impl SignatureParams {
    /// Reads the parameters of a signature header.
    pub fn parse(header: &str) -> (res: Option<SignatureParams>)
        ensures
            match res {
                Some(p) => signature_params(header@) == Some(p@),
                None => signature_params(header@) is None,
            },
    {
        let parts = split_text(header, ',');
        let key_id = match find_param(&parts, "keyId") {
            Some(key_id) => key_id,
            None => { return None; },
        };
        let signature = match find_param(&parts, "signature") {
            Some(signature) => signature,
            None => { return None; },
        };
        let headers = match find_param(&parts, "headers") {
            Some(list) => split_text(list.as_str(), ' '),
            None => {
                let mut names: Vec<String> = Vec::new();
                names.push(String::from_str("date"));
                assert(names.deep_view() =~= seq!["date"@]);
                names
            },
        };
        Some(SignatureParams { key_id, headers, signature })
    }
}

/// A request whose digest has been checked and whose signature is ready
/// to be held against the signer's key.
#[derive(Debug, PartialEq, Eq)]
pub struct SignedRequest {
    /// The identifier of the key that the signature names.
    pub key_id: String,
    /// The URL of the actor that owns the key.
    pub signer: String,
    /// The text that was signed.
    pub signing_text: String,
    pub signature: Vec<u8>,
}

pub struct SignedRequestView {
    pub key_id: Seq<char>,
    pub signer: Seq<char>,
    pub signing_text: Seq<char>,
    pub signature: Seq<u8>,
}

impl View for SignedRequest {
    type V = SignedRequestView;

    open spec fn view(&self) -> SignedRequestView {
        SignedRequestView {
            key_id: self.key_id@,
            signer: self.signer@,
            signing_text: self.signing_text@,
            signature: self.signature@,
        }
    }
}

impl Method {
    /// The method as it stands in the signed request line.
    pub open spec fn token(self) -> Seq<char> {
        match self {
            Method::Get => "get"@,
            Method::Post => "post"@,
        }
    }

    /// The method as it stands in the signed request line.
    pub fn token_text(self) -> (token: &'static str)
        ensures
            token@ == self.token(),
    {
        match self {
            Method::Get => "get",
            Method::Post => "post",
        }
    }
}

impl RequestView {
    /// The request line as it is signed: method in lower case, a space,
    /// path and query.
    pub open spec fn target(self) -> Seq<char> {
        self.method.token() + " "@ + self.path
    }

    /// The signed line for `name`: the request line for the pseudo-header
    /// `(request-target)`, else the value of the header of that name.
    pub open spec fn signing_line(self, name: Seq<char>) -> Option<Seq<char>> {
        if name == "(request-target)"@ {
            Some(name + ": "@ + self.target())
        } else {
            match header_value(self.headers, name) {
                Some(value) => Some(name + ": "@ + value),
                None => None,
            }
        }
    }

    /// The signed text: the lines for `names`, in order, separated by line
    /// feeds. There is none if a named header is absent.
    pub open spec fn signing_text(self, names: Seq<Seq<char>>) -> Option<Seq<char>>
        decreases names.len(),
    {
        if names.len() == 0 {
            Some(Seq::empty())
        } else {
            match (self.signing_text(names.drop_last()), self.signing_line(names.last())) {
                (Some(text), Some(line)) => Some(
                    if names.len() == 1 {
                        line
                    } else {
                        text + "\n"@ + line
                    },
                ),
                _ => None,
            }
        }
    }

    /// What the parts of a signature header and the decoded signature
    /// make of a request.
    pub open spec fn assembled(
        self,
        params: SignatureParamsView,
        signature: Option<Seq<u8>>,
    ) -> Result<SignedRequestView, VerificationError> {
        match signature {
            None => Err(VerificationError::BadSignature),
            Some(bytes) => match self.signing_text(params.headers) {
                None => Err(VerificationError::MissingHeader),
                Some(text) => Ok(
                    SignedRequestView {
                        key_id: params.key_id,
                        signer: key_owner(params.key_id),
                        signing_text: text,
                        signature: bytes,
                    },
                ),
            },
        }
    }

    /// The first gate of authentication. The digest header must be there
    /// and match the body; then the signature header must be there, be
    /// well-formed, hold a base64 signature, and list only headers that
    /// the request carries.
    pub open spec fn authenticated(self) -> Result<SignedRequestView, VerificationError> {
        match header_value(self.headers, "digest"@) {
            None => Err(VerificationError::MissingHeader),
            Some(digest) => if !digest_matches(digest, self.body) {
                Err(VerificationError::DigestMismatch)
            } else {
                match header_value(self.headers, "signature"@) {
                    None => Err(VerificationError::MissingHeader),
                    Some(header) => match signature_params(header) {
                        None => Err(VerificationError::BadSignature),
                        Some(params) => self.assembled(params, base64_decoded(params.signature)),
                    },
                }
            },
        }
    }
}

impl SignedRequestView {
    /// What the second gate returns, given whether the signature is valid:
    /// the key identifier if it is.
    pub open spec fn concluded(self, valid: bool) -> Result<Seq<char>, VerificationError> {
        if valid {
            Ok(self.key_id)
        } else {
            Err(VerificationError::BadSignature)
        }
    }

    /// The second gate of authentication.
    pub open spec fn verified(self, public_key: Seq<char>) -> Result<Seq<char>, VerificationError> {
        self.concluded(signature_valid(public_key, self.signing_text, self.signature))
    }
}

/// A request whose body does not match its digest header fails with
/// `DigestMismatch`, whatever its signature header holds.
pub proof fn lemma_digest_gate(request: RequestView, digest: Seq<char>)
    requires
        header_value(request.headers, "digest"@) == Some(digest),
        !digest_matches(digest, request.body),
    ensures
        request.authenticated() == Err::<SignedRequestView, VerificationError>(
            VerificationError::DigestMismatch,
        ),
{
}

/// If a prefix of the signed headers has no signed text, the whole list
/// has none.
pub proof fn lemma_signing_text_prefix(request: RequestView, names: Seq<Seq<char>>, k: int)
    requires
        0 <= k <= names.len(),
        request.signing_text(names.take(k)) is None,
    ensures
        request.signing_text(names) is None,
    decreases names.len(),
{
    if k == names.len() {
        assert(names.take(k) =~= names);
    } else {
        assert(names.drop_last().take(k) =~= names.take(k));
        lemma_signing_text_prefix(request, names.drop_last(), k);
    }
}

impl Request {
    /// The request line as it is signed.
    pub fn target(&self) -> (target: String)
        ensures
            target@ == self@.target(),
    {
        let mut target = String::from_str(self.method.token_text());
        target.append(" ");
        target.append(self.path.as_str());
        target
    }

    /// The signed line for `name`.
    pub fn signing_line(&self, name: &String) -> (line: Option<String>)
        ensures
            line.deep_view() == self@.signing_line(name@),
    {
        let pseudo = String::from_str("(request-target)");
        if *name == pseudo {
            let mut line = name.clone();
            line.append(": ");
            let target = self.target();
            line.append(target.as_str());
            Some(line)
        } else {
            match find_header(&self.headers, name.as_str()) {
                Some(value) => {
                    let mut line = name.clone();
                    line.append(": ");
                    line.append(value.as_str());
                    Some(line)
                },
                None => None,
            }
        }
    }

    /// The signed text for the headers `names`.
    pub fn signing_text(&self, names: &Vec<String>) -> (text: Option<String>)
        ensures
            text.deep_view() == self@.signing_text(names.deep_view()),
    {
        let mut text = String::new();
        let mut i: usize = 0;
        let ghost all = names.deep_view();
        proof {
            assert(all.take(0) =~= Seq::<Seq<char>>::empty());
        }
        while i < names.len()
            invariant
                i <= names.len(),
                all == names.deep_view(),
                self@.signing_text(all.take(i as int)) == Some(text@),
            decreases names.len() - i,
        {
            proof {
                assert(all.take(i + 1).drop_last() =~= all.take(i as int));
                assert(all.take(i + 1).last() == names[i as int]@);
            }
            match self.signing_line(&names[i]) {
                Some(line) => {
                    if i > 0 {
                        text.append("\n");
                        text.append(line.as_str());
                    } else {
                        text = line;
                    }
                },
                None => {
                    proof {
                        lemma_signing_text_prefix(self@, all, i + 1);
                    }
                    return None;
                },
            }
            i += 1;
        }
        proof {
            assert(all.take(i as int) =~= all);
        }
        Some(text)
    }

    /// Puts together what the second gate needs, from the parts of the
    /// signature header and the decoded signature.
    pub fn assemble(&self, params: SignatureParams, signature: Option<Vec<u8>>) -> (res: Result<
        SignedRequest,
        VerificationError,
    >)
        ensures
            match res {
                Ok(signed) => self@.assembled(params@, decoded_view(signature)) == Ok::<
                    SignedRequestView,
                    VerificationError,
                >(signed@),
                Err(e) => self@.assembled(params@, decoded_view(signature)) == Err::<
                    SignedRequestView,
                    VerificationError,
                >(e),
            },
    {
        let bytes = match signature {
            Some(bytes) => bytes,
            None => { return Err(VerificationError::BadSignature); },
        };
        let text = match self.signing_text(&params.headers) {
            Some(text) => text,
            None => { return Err(VerificationError::MissingHeader); },
        };
        let signer = read_key_owner(params.key_id.as_str());
        Ok(SignedRequest { key_id: params.key_id, signer, signing_text: text, signature: bytes })
    }

    /// The first gate of authentication: checks the digest, then reads the
    /// signature header. Nothing but the request is read.
    pub fn authenticate(&self) -> (res: Result<SignedRequest, VerificationError>)
        ensures
            match res {
                Ok(signed) => self@.authenticated() == Ok::<SignedRequestView, VerificationError>(
                    signed@,
                ),
                Err(e) => self@.authenticated() == Err::<SignedRequestView, VerificationError>(e),
            },
    {
        let digest = match find_header(&self.headers, "digest") {
            Some(digest) => digest,
            None => { return Err(VerificationError::MissingHeader); },
        };
        if !verify_digest(digest.as_str(), self.body.as_slice()) {
            return Err(VerificationError::DigestMismatch);
        }
        let header = match find_header(&self.headers, "signature") {
            Some(header) => header,
            None => { return Err(VerificationError::MissingHeader); },
        };
        let params = match SignatureParams::parse(header.as_str()) {
            Some(params) => params,
            None => { return Err(VerificationError::BadSignature); },
        };
        let signature = base64_decode(params.signature.as_str());
        self.assemble(params, signature)
    }
}

impl SignedRequest {
    /// The result of the second gate, given whether the signature is valid.
    pub fn conclude(&self, valid: bool) -> (res: Result<String, VerificationError>)
        ensures
            match res {
                Ok(key_id) => self@.concluded(valid) == Ok::<Seq<char>, VerificationError>(key_id@),
                Err(e) => self@.concluded(valid) == Err::<Seq<char>, VerificationError>(e),
            },
    {
        if valid {
            Ok(self.key_id.clone())
        } else {
            Err(VerificationError::BadSignature)
        }
    }

    /// The second gate of authentication: holds the signature against the
    /// signer's public key, and returns the key identifier if it is valid.
    pub fn verify(&self, public_key: &str) -> (res: Result<String, VerificationError>)
        ensures
            match res {
                Ok(key_id) => self@.verified(public_key@) == Ok::<Seq<char>, VerificationError>(
                    key_id@,
                ),
                Err(e) => self@.verified(public_key@) == Err::<Seq<char>, VerificationError>(e),
            },
    {
        let valid = rsa_sha256_verify(
            public_key,
            self.signing_text.as_str(),
            self.signature.as_slice(),
        );
        self.conclude(valid)
    }
}

} // verus!
