use vstd::prelude::*;

verus! {

/// Whether `phrase` is a valid English BIP-39 mnemonic.
pub uninterp spec fn is_mnemonic(phrase: Seq<char>) -> bool;

/// The 64-byte BIP-39 seed of a valid mnemonic, with an empty passphrase.
pub uninterp spec fn mnemonic_seed(phrase: Seq<char>) -> Seq<u8>;

/// The unsigned integer that `bytes` holds, most significant byte first.
pub open spec fn be_value(bytes: Seq<u8>) -> nat
    decreases bytes.len(),
{
    if bytes.len() == 0 {
        0
    } else {
        be_value(bytes.drop_last()) * 256 + bytes.last() as nat
    }
}

/// The order of the secp256k1 group.
pub open spec fn curve_order() -> nat {
    let two_64: nat = 0x1_0000_0000_0000_0000;
    0xFFFF_FFFF_FFFF_FFFF_FFFF_FFFF_FFFF_FFFE * (two_64 * two_64)
        + 0xBAAE_DCE6_AF48_A03B_BFD2_5E8C_D036_4141
}

/// Whether `bytes` is a valid secp256k1 secret key: 32 bytes holding a
/// scalar from 1 to the group order minus one.
pub open spec fn is_secret_key(bytes: Seq<u8>) -> bool {
    bytes.len() == 32 && 0 < be_value(bytes) < curve_order()
}

/// The compressed secp256k1 public key of a secret key.
pub uninterp spec fn public_key_of(secret: Seq<u8>) -> Seq<u8>;

/// The compact ECDSA signature by `secret` over the 32-byte message `digest`.
pub uninterp spec fn ecdsa_signature_of(secret: Seq<u8>, digest: Seq<u8>) -> Seq<u8>;

/// The SHA-256 digest of `data`.
pub uninterp spec fn sha256_of(data: Seq<u8>) -> Seq<u8>;

/// The bytes of the self-authenticating principal of a public key.
pub uninterp spec fn principal_of(public_key: Seq<u8>) -> Seq<u8>;

/// Relies on bip39::Mnemonic::from_phrase (English word list) and
/// bip39::Seed::new with an empty passphrase: the seed is derived from the
/// phrase alone and is 64 bytes long.
#[verifier::external_body]
fn phrase_seed(phrase: &str) -> (r: Option<Vec<u8>>)
    ensures
        r is Some <==> is_mnemonic(phrase@),
        r matches Some(s) ==> s@ == mnemonic_seed(phrase@) && s@.len() == 64,
{
    match bip39::Mnemonic::from_phrase(phrase, bip39::Language::English) {
        Ok(m) => Some(bip39::Seed::new(&m, "").as_bytes().to_vec()),
        Err(_) => None,
    }
}

/// Relies on secp256k1::SecretKey::from_slice: it accepts exactly 32 bytes
/// that form a nonzero scalar below the group order.
#[verifier::external_body]
fn secret_key_accepted(bytes: &Vec<u8>) -> (r: bool)
    ensures
        r == is_secret_key(bytes@),
{
    secp256k1::SecretKey::from_slice(bytes).is_ok()
}

/// Relies on secp256k1::PublicKey::from_secret_key and `serialize`: the
/// 33-byte compressed public key of a valid secret key, whose first byte is
/// 2 or 3.
#[verifier::external_body]
fn derive_public_key(secret: &Vec<u8>) -> (r: Vec<u8>)
    requires
        is_secret_key(secret@),
    ensures
        r@ == public_key_of(secret@),
        r@.len() == 33,
        r@[0] == 2 || r@[0] == 3,
{
    match secp256k1::SecretKey::from_slice(secret) {
        Ok(sk) => {
            let secp = secp256k1::Secp256k1::new();
            secp256k1::PublicKey::from_secret_key(&secp, &sk).serialize().to_vec()
        },
        Err(_) => Vec::new(),
    }
}

/// Relies on secp256k1::Secp256k1::sign_ecdsa (RFC 6979 nonces) over the
/// message `Message::from_digest_slice` makes of a 32-byte digest, serialised
/// compactly: 64 bytes.
#[verifier::external_body]
fn ecdsa_sign(secret: &Vec<u8>, digest: &Vec<u8>) -> (r: Vec<u8>)
    requires
        is_secret_key(secret@),
        digest@.len() == 32,
    ensures
        r@ == ecdsa_signature_of(secret@, digest@),
        r@.len() == 64,
{
    match (secp256k1::SecretKey::from_slice(secret), secp256k1::Message::from_digest_slice(digest)) {
        (Ok(sk), Ok(msg)) => {
            let secp = secp256k1::Secp256k1::new();
            secp.sign_ecdsa(&msg, &sk).serialize_compact().to_vec()
        },
        _ => Vec::new(),
    }
}

/// Relies on sha2::Sha256: the 32-byte digest of the input.
#[verifier::external_body]
fn sha256(input: &Vec<u8>) -> (r: Vec<u8>)
    ensures
        r@ == sha256_of(input@),
        r@.len() == 32,
{
    <sha2::Sha256 as sha2::Digest>::digest(input).to_vec()
}

/// Relies on candid::Principal::self_authenticating and `as_slice`: the
/// 28-byte SHA-224 of the key followed by the tag byte 2.
#[verifier::external_body]
fn self_authenticating(public_key: &Vec<u8>) -> (r: Vec<u8>)
    ensures
        r@ == principal_of(public_key@),
        r@.len() == 29,
        r@[28] == 2,
{
    candid::Principal::self_authenticating(public_key).as_slice().to_vec()
}

/// Why an identity could not be derived.
#[derive(Debug, PartialEq, Eq, Structural)]
pub enum IdentityError {
    /// The phrase is no valid mnemonic, or its seed is no valid secret key.
    InvalidPhrase,
}

/// The secret key derived from a phrase: the first 32 bytes of its seed.
pub open spec fn phrase_secret(phrase: Seq<char>) -> Seq<u8> {
    mnemonic_seed(phrase).subrange(0, 32)
}

/// Whether an identity can be derived from `phrase`.
pub open spec fn phrase_derivable(phrase: Seq<char>) -> bool {
    is_mnemonic(phrase) && is_secret_key(phrase_secret(phrase))
}

/// A signature over a request, with the key that checks it.
#[derive(Debug, PartialEq, Eq)]
pub struct Signature {
    pub public_key: Vec<u8>,
    pub signature: Vec<u8>,
}

/// The signing identity of this service, held as its secp256k1 secret key.
pub struct AppIdentity {
    secret: Vec<u8>,
}

impl View for AppIdentity {
    type V = Seq<u8>;

    /// The secret key bytes.
    closed spec fn view(&self) -> Seq<u8> {
        self.secret@
    }
}

impl AppIdentity {
    /// The held bytes form a valid secret key.
    pub closed spec fn wf(&self) -> bool {
        is_secret_key(self.secret@)
    }

    /// The principal of this identity, as bytes.
    pub open spec fn principal_spec(&self) -> Seq<u8> {
        principal_of(public_key_of(self@))
    }

    /// Derives the identity from a BIP-39 mnemonic phrase: the secret key is
    /// the first 32 bytes of the phrase's seed.
    pub fn new(phrase: &str) -> (r: Result<AppIdentity, IdentityError>)
        ensures
            r is Ok <==> phrase_derivable(phrase@),
            r matches Ok(id) ==> id.wf() && id@ == phrase_secret(phrase@),
    {
        let seed = match phrase_seed(phrase) {
            Some(s) => s,
            None => {
                return Err(IdentityError::InvalidPhrase);
            },
        };
        let mut secret: Vec<u8> = Vec::new();
        let mut i: usize = 0;
        while i < 32
            invariant
                seed@.len() == 64,
                i <= 32,
                secret@ == seed@.subrange(0, i as int),
            decreases 32 - i,
        {
            secret.push(seed[i]);
            i = i + 1;
            assert(secret@ =~= seed@.subrange(0, i as int));
        }
        if secret_key_accepted(&secret) {
            Ok(AppIdentity { secret })
        } else {
            Err(IdentityError::InvalidPhrase)
        }
    }

    /// The compressed public key of this identity.
    pub fn public_key(&self) -> (r: Vec<u8>)
        requires
            self.wf(),
        ensures
            r@ == public_key_of(self@),
            r@.len() == 33,
            r@[0] == 2 || r@[0] == 3,
    {
        derive_public_key(&self.secret)
    }

    /// The self-authenticating principal of this identity, as bytes.
    pub fn sender(&self) -> (r: Vec<u8>)
        requires
            self.wf(),
        ensures
            r@ == self.principal_spec(),
    {
        let pk = self.public_key();
        self_authenticating(&pk)
    }

    /// Signs a request payload: the payload is hashed with SHA-256 and that
    /// hash is signed with ECDSA over secp256k1.
    pub fn sign(&self, content: &Vec<u8>) -> (r: Signature)
        requires
            self.wf(),
        ensures
            r.public_key@ == public_key_of(self@),
            r.public_key@.len() == 33,
            r.signature@ == ecdsa_signature_of(self@, sha256_of(content@)),
            r.signature@.len() == 64,
    {
        let hash = sha256(content);
        let signature = ecdsa_sign(&self.secret, &hash);
        Signature { public_key: self.public_key(), signature }
    }
}

/// Deriving an identity twice from the same phrase gives the same secret,
/// hence the same public key and the same principal, and signatures by
/// either are checked by that one public key.
pub proof fn lemma_identity_deterministic(phrase: Seq<char>, a: AppIdentity, b: AppIdentity)
    requires
        a@ == phrase_secret(phrase),
        b@ == phrase_secret(phrase),
    ensures
        a.principal_spec() == b.principal_spec(),
        public_key_of(a@) == public_key_of(b@),
        forall|data: Seq<u8>| #[trigger] ecdsa_signature_of(a@, data) == ecdsa_signature_of(b@, data),
{
}

} // verus!
