use sha2::Digest;
use tiny_keccak::Hasher;
use vstd::prelude::*;

verus! {

/// Why a public key could not be recovered from a signature.
#[derive(Clone, Copy, Debug, PartialEq, Eq, Structural)]
pub enum EcdsaVerifyError {
    /// The (r, s) part of the signature could not be parsed. The overflowing
    /// parser in use accepts any 64 bytes, so recovery never reports it.
    BadRS,
    /// The recovery id is not one of 0, 1, 27 and 28.
    BadV,
    /// No public key can be recovered from the signature and message.
    BadSignature,
}

/// The Keccak-256 digest of `data`.
pub uninterp spec fn keccak256_of(data: Seq<u8>) -> Seq<u8>;

/// The SHA-256 digest of `data`.
pub uninterp spec fn sha256_of(data: Seq<u8>) -> Seq<u8>;

/// The public key, in its 65-byte uncompressed form, that secp256k1 recovery
/// yields for the message hash `msg`, the 64-byte (r, s) pair `rs` and the
/// recovery id `id`; `None` where recovery fails.
pub uninterp spec fn secp256k1_recovered(msg: Seq<u8>, rs: Seq<u8>, id: u8) -> Option<Seq<u8>>;

/// Relies on tiny_keccak's `Keccak::v256` hasher (`update`, then `finalize`
/// into 32 bytes): the digest depends on the bytes alone.
#[verifier::external_body]
fn keccak_digest(data: &[u8]) -> (r: [u8; 32])
    ensures
        r@ == keccak256_of(data@),
{
    let mut keccak = tiny_keccak::Keccak::v256();
    keccak.update(data);
    let mut output = [0u8; 32];
    keccak.finalize(&mut output);
    output
}

/// Relies on sha2's `Sha256` hasher (`update`, then `finalize`): the digest
/// depends on the bytes alone.
#[verifier::external_body]
fn sha256_digest(data: &[u8]) -> (r: [u8; 32])
    ensures
        r@ == sha256_of(data@),
{
    let mut hasher = sha2::Sha256::new();
    hasher.update(data);
    let mut output = [0u8; 32];
    output.copy_from_slice(&hasher.finalize());
    output
}

/// Relies on libsecp256k1's `recover`, fed with `Message::parse` of `msg`,
/// `Signature::parse_overflowing_slice` of the first 64 bytes of `sig` (which
/// accepts any 64 bytes) and `RecoveryId::parse` of `id` (which accepts 0 to
/// 3); the key comes back in `PublicKey::serialize`'s 65-byte form.
#[verifier::external_body]
fn recover_serialized(msg: &[u8; 32], sig: &[u8; 65], id: u8) -> (r: Option<[u8; 65]>)
    requires
        id < 4,
    ensures
        r is Some <==> secp256k1_recovered(msg@, sig@.subrange(0, 64), id) is Some,
        r is Some ==> r->0@ == secp256k1_recovered(msg@, sig@.subrange(0, 64), id)->0,
{
    let message = libsecp256k1::Message::parse(msg);
    let signature = libsecp256k1::Signature::parse_overflowing_slice(&sig[0..64]).ok()?;
    let recovery_id = libsecp256k1::RecoveryId::parse(id).ok()?;
    let key = libsecp256k1::recover(&message, &signature, &recovery_id).ok()?;
    Some(key.serialize())
}

/// The recovery id that a raw last signature byte stands for: 27 and above are
/// taken in the Ethereum encoding and lowered by 27.
pub open spec fn normalized_recovery_id(raw: u8) -> int {
    if raw > 26 {
        raw - 27
    } else {
        raw as int
    }
}

/// What recovering a key from the 65-byte signature `sig` over the message hash
/// `msg` gives: the recovered key without its leading format byte.
pub open spec fn ecdsa_recover_outcome(sig: Seq<u8>, msg: Seq<u8>) -> Result<
    Seq<u8>,
    EcdsaVerifyError,
> {
    let v = normalized_recovery_id(sig[64]);
    if v < 0 || v > 1 {
        Err(EcdsaVerifyError::BadV)
    } else {
        match secp256k1_recovered(msg, sig.subrange(0, 64), v as u8) {
            Some(key) => Ok(key.subrange(1, 65)),
            None => Err(EcdsaVerifyError::BadSignature),
        }
    }
}

/// Recovers the 64-byte public key (x then y, format byte stripped) that signed
/// the message hash `msg`, from a signature of 64 bytes of (r, s) and one byte
/// of recovery id (0, 1, 27 or 28).
pub fn secp256k1_ecdsa_recover(sig: &[u8; 65], msg: &[u8; 32]) -> (r: Result<
    [u8; 64],
    EcdsaVerifyError,
>)
    ensures
        r is Ok <==> ecdsa_recover_outcome(sig@, msg@) is Ok,
        r is Ok ==> r->Ok_0@ == ecdsa_recover_outcome(sig@, msg@)->Ok_0,
        r is Err ==> r->Err_0 == ecdsa_recover_outcome(sig@, msg@)->Err_0,
{
    let raw: u8 = sig[64];
    let v: u8 = if raw > 26 {
        raw - 27
    } else {
        raw
    };
    if v > 1 {
        return Err(EcdsaVerifyError::BadV);
    }
    let key = match recover_serialized(msg, sig, v) {
        Some(key) => key,
        None => return Err(EcdsaVerifyError::BadSignature),
    };
    let mut res = [0u8; 64];
    let mut i: usize = 0;
    while i < 64
        invariant
            i <= 64,
            key@ == secp256k1_recovered(msg@, sig@.subrange(0, 64), v)->0,
            forall|j: int| 0 <= j < i ==> res@[j] == key@[j + 1],
        decreases 64 - i,
    {
        res[i] = key[i + 1];
        i = i + 1;
    }
    assert(res@ =~= key@.subrange(1, 65));
    Ok(res)
}

/// Hashing is a function of the input: equal inputs give equal digests, under
/// both hashes.
pub proof fn lemma_digests_are_deterministic(a: Seq<u8>, b: Seq<u8>)
    requires
        a == b,
    ensures
        keccak256_of(a) == keccak256_of(b),
        sha256_of(a) == sha256_of(b),
{
}

/// Recovery is a function of the signature and the message hash: equal inputs
/// give equal outcomes.
pub proof fn lemma_recovery_is_deterministic(sig1: Seq<u8>, msg1: Seq<u8>, sig2: Seq<u8>, msg2: Seq<u8>)
    requires
        sig1.len() == 65,
        msg1.len() == 32,
        sig1 == sig2,
        msg1 == msg2,
    ensures
        ecdsa_recover_outcome(sig1, msg1) == ecdsa_recover_outcome(sig2, msg2),
{
}

/// A recovery id in the Ethereum encoding (27 or 28) recovers the same key,
/// or fails in the same way, as the raw id 27 below it (0 or 1), for the same
/// (r, s) pair and message hash.
pub proof fn lemma_ethereum_recovery_id(raw: Seq<u8>, ethereum: Seq<u8>, msg: Seq<u8>)
    requires
        raw.len() == 65,
        ethereum.len() == 65,
        msg.len() == 32,
        raw.subrange(0, 64) == ethereum.subrange(0, 64),
        raw[64] <= 1,
        ethereum[64] == raw[64] + 27,
    ensures
        ecdsa_recover_outcome(raw, msg) == ecdsa_recover_outcome(ethereum, msg),
{
}

/// Every last signature byte other than 0, 1, 27 and 28 is refused as a bad
/// recovery id, whatever the rest of the signature and the message.
pub proof fn lemma_other_recovery_ids_refused(sig: Seq<u8>, msg: Seq<u8>)
    requires
        sig.len() == 65,
        msg.len() == 32,
        sig[64] != 0 && sig[64] != 1 && sig[64] != 27 && sig[64] != 28,
    ensures
        ecdsa_recover_outcome(sig, msg) == Err::<Seq<u8>, EcdsaVerifyError>(EcdsaVerifyError::BadV),
{
}

/// The Keccak-256 digest of `data`.
pub fn keccak_256(data: &[u8]) -> (r: [u8; 32])
    ensures
        r@ == keccak256_of(data@),
{
    keccak_digest(data)
}

/// The SHA-256 digest of `data`.
pub fn sha2_256(data: &[u8]) -> (r: [u8; 32])
    ensures
        r@ == sha256_of(data@),
{
    sha256_digest(data)
}

} // verus!
