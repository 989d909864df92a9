//! Identity and record construction: a private signing key plus the
//! listen configuration give the node's signed, serializable record.
//!
//! The cryptography lives in the `enr` crate (as re-exported by the
//! discovery engine's crate) and is reached only through the trusted
//! items below.  The record a build returns is modelled by the plain
//! values the rest of the supervisor reads: its base64 text, its node
//! identifier text and its declared endpoint.

use vstd::prelude::*;

use crate::addr::{Endpoint, ListenConfig};

verus! {

/// The signature scheme of the node's key.
#[derive(Clone, Copy, Debug, PartialEq, Eq)]
pub enum KeyScheme {
    Secp256k1,
    Ed25519,
}

/// Why a record could not be built.
#[derive(Clone, Copy, Debug, PartialEq, Eq)]
pub enum RecordBuildError {
    /// The key material is not exactly 32 bytes.
    WrongKeyLength,
    /// The key bytes do not form a key of the chosen scheme.
    KeyRejected,
    /// The record library refused to assemble or sign the record.
    BuildRejected,
}

impl RecordBuildError {
    /// A fixed description of the error.
    pub fn message(&self) -> (r: &'static str)
        ensures
            *self is WrongKeyLength ==> r@ == "the signing key must be exactly 32 bytes"@,
            *self is KeyRejected ==> r@ == "the bytes do not form a valid signing key"@,
            *self is BuildRejected ==> r@ == "the node record could not be assembled and signed"@,
    {
        match self {
            RecordBuildError::WrongKeyLength => "the signing key must be exactly 32 bytes",
            RecordBuildError::KeyRejected => "the bytes do not form a valid signing key",
            RecordBuildError::BuildRejected => "the node record could not be assembled and signed",
        }
    }
}

/// The node's identity: 32 bytes of private key material and the scheme
/// they belong to.  Immutable once made.
pub struct NodeIdentity {
    scheme: KeyScheme,
    secret: Vec<u8>,
}

impl NodeIdentity {
    pub closed spec fn wf(self) -> bool {
        self.secret@.len() == 32
    }

    pub closed spec fn spec_scheme(self) -> KeyScheme {
        self.scheme
    }

    pub closed spec fn spec_secret(self) -> Seq<u8> {
        self.secret@
    }

    /// Take ownership of externally loaded key material.
    pub fn new(scheme: KeyScheme, secret: Vec<u8>) -> (r: Result<NodeIdentity, RecordBuildError>)
        ensures
            r is Ok <==> secret@.len() == 32,
            r matches Ok(id) ==> id.wf() && id.spec_scheme() == scheme && id.spec_secret()
                == secret@,
            r matches Err(e) ==> e is WrongKeyLength,
    {
        if secret.len() == 32 {
            Ok(NodeIdentity { scheme, secret })
        } else {
            Err(RecordBuildError::WrongKeyLength)
        }
    }
}

/// An endpoint as the plain pair the record carries: address bits and port.
pub open spec fn ep_view(ep: Option<Endpoint>) -> Option<(u32, u16)> {
    match ep {
        Some(e) => Some((e.ip.bits, e.port)),
        None => None,
    }
}

/// Whether `CombinedKey::secp256k1_from_bytes` accepts these 32 bytes as
/// a secp256k1 secret key.
pub uninterp spec fn secp_key_accepted(secret: Seq<u8>) -> bool;

/// The node identifier text derived from a secp256k1 secret key.
pub uninterp spec fn secp_node_id(secret: Seq<u8>) -> Seq<char>;

/// The node identifier text derived from an ed25519 secret key.
pub uninterp spec fn ed_node_id(secret: Seq<u8>) -> Seq<char>;

/// The base64 record text built from an ed25519 secret key and an
/// endpoint.  Ed25519 signing is deterministic, so the text is a
/// function of these two values alone; no such function exists for
/// secp256k1, whose signatures are salted with fresh randomness.
pub uninterp spec fn ed_record_base64(secret: Seq<u8>, ep: Option<(u32, u16)>) -> Seq<char>;

/// Whether the text parses back as a record whose signature verifies.
pub uninterp spec fn record_parses(text: Seq<char>) -> bool;

/// The endpoint declared by the record that the text parses to.
pub uninterp spec fn parsed_endpoint(text: Seq<char>) -> Option<(u32, u16)>;

/// Whether the chosen scheme accepts the identity's key bytes.  An
/// ed25519 key is any 32 bytes; a secp256k1 key must be a valid scalar.
pub open spec fn key_accepted(id: NodeIdentity) -> bool {
    match id.spec_scheme() {
        KeyScheme::Secp256k1 => secp_key_accepted(id.spec_secret()),
        KeyScheme::Ed25519 => true,
    }
}

/// Relies on the `enr` crate, in the version the discovery engine
/// re-exports.  `CombinedKey::secp256k1_from_bytes` and
/// `CombinedKey::ed25519_from_bytes` accept exactly the 32-byte strings
/// that form a key of their scheme (every 32-byte string, for ed25519).
/// `Builder::build` signs the declared fields with that key — for
/// ed25519 deterministically, so the text is a function of secret and
/// endpoint — and succeeds for every valid ed25519 key, since signing
/// is infallible there and a record of these few fields stays under the
/// size bound.  `to_base64` serializes the signed record, `FromStr`
/// parses it back, verifying the signature, and `NodeId` is derived
/// from the public key alone, so it is a function of the secret bytes.
#[verifier::external_body]
fn build_signed(identity: &NodeIdentity, ep: &Option<Endpoint>) -> (r: Result<
    (String, String),
    RecordBuildError,
>)
    requires
        identity.wf(),
    ensures
        identity.spec_scheme() is Ed25519 ==> r is Ok,
        r is Ok ==> key_accepted(*identity),
        (r is Ok && identity.spec_scheme() is Secp256k1) ==> secp_key_accepted(
            identity.spec_secret(),
        ),
        r matches Err(e) ==> !(e is WrongKeyLength) && (e is KeyRejected <==> !key_accepted(
            *identity,
        )),
        r matches Ok(t) ==> record_parses(t.0@) && parsed_endpoint(t.0@) == ep_view(*ep),
        r matches Ok(t) ==> (identity.spec_scheme() is Secp256k1 ==> t.1@ == secp_node_id(
            identity.spec_secret(),
        )),
        r matches Ok(t) ==> (identity.spec_scheme() is Ed25519 ==> t.1@ == ed_node_id(
            identity.spec_secret(),
        ) && t.0@ == ed_record_base64(identity.spec_secret(), ep_view(*ep))),
{
    let mut secret = [0u8; 32];
    secret.copy_from_slice(&identity.secret);
    let key = match identity.scheme {
        KeyScheme::Secp256k1 => discv5::enr::CombinedKey::secp256k1_from_bytes(&mut secret),
        KeyScheme::Ed25519 => discv5::enr::CombinedKey::ed25519_from_bytes(&mut secret),
    }.map_err(|_| RecordBuildError::KeyRejected)?;
    let mut builder = discv5::Enr::builder();
    if let Some(e) = ep {
        builder.ip4(core::net::Ipv4Addr::from(e.ip.bits.to_be_bytes())).udp4(e.port);
    }
    let record = builder.build(&key).map_err(|_| RecordBuildError::BuildRejected)?;
    Ok((record.to_base64(), format!("{}", record.node_id())))
}

/// Relies on the `enr` crate's `FromStr`: decoding a record text checks
/// its signature, so parsing succeeds exactly for validly signed texts.
#[verifier::external_body]
fn parse_record_text(text: &str) -> (r: bool)
    ensures
        r == record_parses(text@),
{
    text.parse::<discv5::Enr>().is_ok()
}

/// Whether `text` is the base64 form of a validly signed node record.
pub fn verify_record_text(text: &str) -> (r: bool)
    ensures
        r == record_parses(text@),
{
    parse_record_text(text)
}

/// The node's signed record, modelled by the plain values the
/// supervisor reads: its base64 text, its node identifier text and its
/// declared endpoint.  Never mutated after signing; its text always
/// parses back as a validly signed record declaring exactly the stored
/// endpoint — the engine-facing record value is recovered from the text
/// by whoever starts the engine.
pub struct NodeRecord {
    base64: String,
    node_id: String,
    endpoint: Option<Endpoint>,
    identity: Ghost<(KeyScheme, Seq<u8>)>,
}

impl NodeRecord {
    pub closed spec fn spec_scheme(self) -> KeyScheme {
        self.identity@.0
    }

    pub closed spec fn spec_secret(self) -> Seq<u8> {
        self.identity@.1
    }

    pub closed spec fn spec_base64(self) -> Seq<char> {
        self.base64@
    }

    pub closed spec fn spec_node_id(self) -> Seq<char> {
        self.node_id@
    }

    pub closed spec fn spec_endpoint(self) -> Option<Endpoint> {
        self.endpoint
    }

    /// The record's invariant, established by `build` and kept for good:
    /// the text parses as a validly signed record, the record declares
    /// exactly the stored endpoint, the node identifier is the one the
    /// key derives, and an ed25519 record's text is the one function of
    /// secret and endpoint that deterministic signing allows.
    pub closed spec fn wf(self) -> bool {
        &&& record_parses(self.base64@)
        &&& parsed_endpoint(self.base64@) == ep_view(self.endpoint)
        &&& (self.identity@.0 is Secp256k1 ==> self.node_id@ == secp_node_id(self.identity@.1))
        &&& (self.identity@.0 is Ed25519 ==> self.node_id@ == ed_node_id(self.identity@.1))
        &&& (self.identity@.0 is Ed25519 ==> self.base64@ == ed_record_base64(
            self.identity@.1,
            ep_view(self.endpoint),
        ))
    }

    /// The record's base64 text, as served by the record responder.
    pub fn base64_text(&self) -> (r: &String)
        ensures
            r@ == self.spec_base64(),
    {
        &self.base64
    }

    /// The node identifier's text, as logged at startup.
    pub fn node_id_text(&self) -> (r: &String)
        ensures
            r@ == self.spec_node_id(),
    {
        &self.node_id
    }

    /// The endpoint the record declares, if any.
    pub fn endpoint(&self) -> (r: Option<Endpoint>)
        ensures
            r == self.spec_endpoint(),
    {
        self.endpoint
    }

}

/// Build the node's signed record from an identity and the listen
/// configuration.  Succeeds whenever the scheme accepts the key bytes —
/// always, for ed25519; a secp256k1 build may also be refused by the
/// signer, but an invalid key is reported as such, and only then.
pub fn build(identity: &NodeIdentity, cfg: &ListenConfig) -> (r: Result<
    NodeRecord,
    RecordBuildError,
>)
    requires
        identity.wf(),
    ensures
        identity.spec_scheme() is Ed25519 ==> r is Ok,
        r is Ok ==> key_accepted(*identity),
        r matches Err(e) ==> !(e is WrongKeyLength) && (e is KeyRejected <==> !key_accepted(
            *identity,
        )),
        r matches Ok(rec) ==> ({
            &&& rec.wf()
            &&& rec.spec_scheme() == identity.spec_scheme()
            &&& rec.spec_secret() == identity.spec_secret()
            &&& rec.spec_endpoint() == cfg.endpoint
        }),
{
    match build_signed(identity, &cfg.endpoint) {
        Ok((base64, node_id)) => Ok(
            NodeRecord {
                base64,
                node_id,
                endpoint: cfg.endpoint,
                identity: Ghost((identity.spec_scheme(), identity.spec_secret())),
            },
        ),
        Err(e) => Err(e),
    }
}

/// A record never fails its own signature check: a well-formed record's
/// text parses back, and parsing verifies the signature.
pub proof fn lemma_record_self_verifies(rec: NodeRecord)
    requires
        rec.wf(),
    ensures
        record_parses(rec.spec_base64()),
{
}

/// Building is deterministic for an ed25519 identity: any two
/// well-formed records from the same secret and the same endpoint carry
/// byte-identical text and the same node identifier.
pub proof fn lemma_build_deterministic(a: NodeRecord, b: NodeRecord)
    requires
        a.wf(),
        b.wf(),
        a.spec_scheme() is Ed25519,
        b.spec_scheme() is Ed25519,
        a.spec_secret() == b.spec_secret(),
        a.spec_endpoint() == b.spec_endpoint(),
    ensures
        a.spec_base64() == b.spec_base64(),
        a.spec_node_id() == b.spec_node_id(),
{
}

/// Whatever the scheme, two well-formed records from the same identity
/// and the same endpoint agree on their content: the node identifier,
/// and the endpoint their texts parse back to.
pub proof fn lemma_build_content_deterministic(a: NodeRecord, b: NodeRecord)
    requires
        a.wf(),
        b.wf(),
        a.spec_scheme() == b.spec_scheme(),
        a.spec_secret() == b.spec_secret(),
        a.spec_endpoint() == b.spec_endpoint(),
    ensures
        a.spec_node_id() == b.spec_node_id(),
        parsed_endpoint(a.spec_base64()) == parsed_endpoint(b.spec_base64()),
{
}

} // verus!
