//! Sealing and opening password packets with AES-256-GCM.
//!
//! A packet is the 12-byte nonce, then the encrypted password (as long as the
//! password), then the 16-byte authentication tag.
use vstd::prelude::*;
use aes_gcm::{Aes256Gcm, KeyInit};
use aes_gcm::aead::{AeadInPlace, OsRng};
use aes_gcm::aead::rand_core::RngCore;
use vstd::string::StringSliceAdditionalSpecFns;
use crate::bounded::{packet_bytes, packet_new, packet_extend, packet_as_slice};

verus! {

/// Length of the nonce at the head of a packet.
pub const NONCE_LEN: usize = 12;

/// Length of the authentication tag at the tail of a packet.
pub const TAG_LEN: usize = 16;

/// The shortest packet that can hold a nonce and a tag.
pub const MIN_PACKET_LEN: usize = 28;

/// The longest password, in bytes, whose packet fits in a packet buffer.
pub const MAX_PASSWORD_LEN: usize = 100;

/// Largest plaintext and associated-data length that AES-GCM accepts (2^36 bytes).
pub const AES_GCM_MAX_LEN: u64 = 0x10_0000_0000;

/// `aes_gcm::Error`, the cipher's opaque error, made known to Verus.
#[verifier::external_type_specification]
#[verifier::external_body]
pub struct ExAeadError(aes_gcm::Error);

/// Why a packet could not be made or opened.
#[derive(Debug, Clone, Copy, PartialEq, Eq, Structural)]
pub enum CryptoError {
    /// No nonce could be drawn, or the cipher refused to encrypt.
    EncryptionFailed,
    /// The packet is shorter than a nonce and a tag together.
    PacketTooShort,
    /// The tag does not authenticate the ciphertext under the nonce and the key.
    AuthenticationFailed,
}

/// What AES-256-GCM computes for a key, a nonce, associated data and a plaintext:
/// the ciphertext and the 16-byte authentication tag.
pub uninterp spec fn aes256gcm_seal(key: Seq<u8>, nonce: Seq<u8>, aad: Seq<u8>, plaintext: Seq<u8>) -> (Seq<u8>, Seq<u8>);

/// The 32-byte key under which every packet is sealed: every byte is 100.
pub open spec fn vault_key() -> Seq<u8> {
    Seq::new(32, |_i: int| 100u8)
}

/// The packet that seals `plaintext` under `nonce` and the vault key, with no
/// associated data.
pub open spec fn sealed_packet(nonce: Seq<u8>, plaintext: Seq<u8>) -> Seq<u8> {
    let sealed = aes256gcm_seal(vault_key(), nonce, Seq::empty(), plaintext);
    nonce + sealed.0 + sealed.1
}

/// The nonce at the head of a packet.
pub open spec fn packet_nonce(p: Seq<u8>) -> Seq<u8> {
    p.take(NONCE_LEN as int)
}

/// The encrypted bytes between the nonce and the tag.
pub open spec fn packet_ciphertext(p: Seq<u8>) -> Seq<u8> {
    p.subrange(NONCE_LEN as int, p.len() - TAG_LEN)
}

/// The tag at the tail of a packet.
pub open spec fn packet_tag(p: Seq<u8>) -> Seq<u8> {
    p.skip(p.len() - TAG_LEN)
}

/// `p` is a packet that authenticates and decrypts to `plaintext`.
pub open spec fn opens_to(p: Seq<u8>, plaintext: Seq<u8>) -> bool {
    &&& p.len() >= MIN_PACKET_LEN
    &&& aes256gcm_seal(vault_key(), packet_nonce(p), Seq::empty(), plaintext)
        == (packet_ciphertext(p), packet_tag(p))
}

/// `r` is what opening the packet `p` gives: the plaintext it opens to, or the
/// reason it opens to none.
pub open spec fn is_opening_of(p: Seq<u8>, r: Result<Seq<u8>, CryptoError>) -> bool {
    &&& p.len() < MIN_PACKET_LEN ==> r == Err::<Seq<u8>, CryptoError>(CryptoError::PacketTooShort)
    &&& p.len() >= MIN_PACKET_LEN ==> match r {
        Ok(pt) => opens_to(p, pt),
        Err(e) => e == CryptoError::AuthenticationFailed && forall|pt: Seq<u8>| !opens_to(p, pt),
    }
    &&& forall|pt: Seq<u8>| #[trigger] opens_to(p, pt) ==> r == Ok::<Seq<u8>, CryptoError>(pt)
}

/// The plain view of an opening's result.
pub open spec fn opened_view(r: Result<&[u8], CryptoError>) -> Result<Seq<u8>, CryptoError> {
    match r {
        Ok(v) => Ok(v@),
        Err(e) => Err(e),
    }
}

fn temporary_test_key() -> (k: [u8; 32])
    ensures
        k@ == vault_key(),
{
    let k = [100u8; 32];
    assert(k@ =~= vault_key());
    k
}

/// `RngCore::try_fill_bytes` of the operating system's random number generator
/// `OsRng`, on a 12-byte nonce: a fresh random nonce, or an error when the
/// system's random source reports one. Nothing is stated of the nonce's bytes.
#[verifier::external_body]
fn generate_nonce() -> (r: Result<[u8; 12], ()>) {
    let mut nonce = [0u8; 12];
    match OsRng.try_fill_bytes(&mut nonce) {
        Ok(()) => Ok(nonce),
        Err(_) => Err(()),
    }
}

/// `AeadInPlace::encrypt_in_place_detached` of `Aes256Gcm` under `key`, applied
/// to the bytes of the buffer from `start` on: replaces them with their
/// ciphertext and returns the tag, as `aes256gcm_seal` names them, and leaves
/// the bytes before `start` and the buffer's length as they were. It succeeds on
/// every buffer and associated data within the cipher's limits.
#[verifier::external_body]
fn aes256gcm_encrypt_in_place(
    key: &[u8; 32],
    nonce: &[u8; 12],
    aad: &[u8],
    buffer: &mut heapless::Vec<u8, 128>,
    start: usize,
) -> (r: Result<[u8; 16], aes_gcm::Error>)
    requires
        start <= packet_bytes(*old(buffer)).len(),
        aad@.len() <= AES_GCM_MAX_LEN,
    ensures
        r is Ok,
        packet_bytes(*final(buffer)).len() == packet_bytes(*old(buffer)).len(),
        packet_bytes(*final(buffer)).take(start as int) == packet_bytes(*old(buffer)).take(
            start as int,
        ),
        r matches Ok(tag) ==> aes256gcm_seal(
            key@,
            nonce@,
            aad@,
            packet_bytes(*old(buffer)).skip(start as int),
        ) == (packet_bytes(*final(buffer)).skip(start as int), tag@),
{
    let cipher = Aes256Gcm::new(key.into());
    match cipher.encrypt_in_place_detached(nonce.into(), aad, &mut buffer[start..]) {
        Ok(tag) => Ok(tag.into()),
        Err(e) => Err(e),
    }
}

/// `AeadInPlace::decrypt_in_place_detached` of `Aes256Gcm` under `key`, applied
/// to the bytes of the buffer from `start` to `end`: succeeds exactly when some
/// plaintext seals to those bytes and `tag`, and then puts that plaintext in
/// their place; on failure the buffer is left as it was. The bytes outside the
/// range and the buffer's length never change.
#[verifier::external_body]
fn aes256gcm_decrypt_in_place(
    key: &[u8; 32],
    nonce: &[u8; 12],
    aad: &[u8],
    buffer: &mut heapless::Vec<u8, 128>,
    start: usize,
    end: usize,
    tag: &[u8; 16],
) -> (r: Result<(), aes_gcm::Error>)
    requires
        start <= end <= packet_bytes(*old(buffer)).len(),
        aad@.len() <= AES_GCM_MAX_LEN,
    ensures
        packet_bytes(*final(buffer)).len() == packet_bytes(*old(buffer)).len(),
        packet_bytes(*final(buffer)).take(start as int) == packet_bytes(*old(buffer)).take(
            start as int,
        ),
        packet_bytes(*final(buffer)).skip(end as int) == packet_bytes(*old(buffer)).skip(
            end as int,
        ),
        r is Ok ==> aes256gcm_seal(
            key@,
            nonce@,
            aad@,
            packet_bytes(*final(buffer)).subrange(start as int, end as int),
        ) == (packet_bytes(*old(buffer)).subrange(start as int, end as int), tag@),
        r is Err ==> packet_bytes(*final(buffer)) == packet_bytes(*old(buffer)),
        forall|pt: Seq<u8>|
            #[trigger] aes256gcm_seal(key@, nonce@, aad@, pt) == (
                packet_bytes(*old(buffer)).subrange(start as int, end as int),
                tag@,
            ) ==> (r is Ok && packet_bytes(*final(buffer)).subrange(start as int, end as int)
                == pt),
{
    let cipher = Aes256Gcm::new(key.into());
    cipher.decrypt_in_place_detached(nonce.into(), aad, &mut buffer[start..end], tag.into())
}

/// Seals `password` under `nonce` into a packet: the nonce, the encrypted
/// password and the tag.
pub fn seal_password(nonce: &[u8; 12], password: &str) -> (r: Result<heapless::Vec<u8, 128>, CryptoError>)
    requires
        password.spec_bytes().len() <= MAX_PASSWORD_LEN,
    ensures
        r is Ok,
        r matches Ok(p) ==> packet_bytes(p) == sealed_packet(nonce@, password.spec_bytes()),
        r matches Ok(p) ==> opens_to(packet_bytes(p), password.spec_bytes()),
        r matches Ok(p) ==> packet_bytes(p).len() == password.spec_bytes().len() + MIN_PACKET_LEN,
{
    let key = temporary_test_key();
    let mut packet = packet_new();
    let _ = packet_extend(&mut packet, nonce.as_slice());
    let _ = packet_extend(&mut packet, password.as_bytes());
    let ghost plain = packet_bytes(packet);
    let empty: [u8; 0] = [];
    let tag = match aes256gcm_encrypt_in_place(&key, nonce, empty.as_slice(), &mut packet, NONCE_LEN) {
        Ok(tag) => tag,
        Err(_) => return Err(CryptoError::EncryptionFailed),
    };
    let ghost sealed_body = packet_bytes(packet);
    let _ = packet_extend(&mut packet, tag.as_slice());
    proof {
        let p = packet_bytes(packet);
        let pw = password.spec_bytes();
        assert(empty@ =~= Seq::<u8>::empty());
        assert(plain.skip(NONCE_LEN as int) =~= pw);
        assert(plain.take(NONCE_LEN as int) =~= nonce@);
        assert(packet_nonce(p) =~= nonce@);
        assert(packet_ciphertext(p) =~= sealed_body.skip(NONCE_LEN as int));
        assert(packet_tag(p) =~= tag@);
        assert(p =~= nonce@ + sealed_body.skip(NONCE_LEN as int) + tag@);
    }
    Ok(packet)
}

/// Seals `password` under the outcome of drawing a nonce: a failed draw is
/// reported as a failed encryption, and a drawn nonce always gives the packet
/// that seals the password under it.
pub fn seal_with_drawn_nonce(drawn: Result<[u8; 12], ()>, password: &str) -> (r: Result<
    heapless::Vec<u8, 128>,
    CryptoError,
>)
    requires
        password.spec_bytes().len() <= MAX_PASSWORD_LEN,
    ensures
        drawn is Err ==> r == Err::<heapless::Vec<u8, 128>, CryptoError>(
            CryptoError::EncryptionFailed,
        ),
        drawn is Ok ==> r is Ok,
        r matches Ok(p) ==> drawn matches Ok(nonce) && packet_bytes(p) == sealed_packet(
            nonce@,
            password.spec_bytes(),
        ),
        r matches Ok(p) ==> opens_to(packet_bytes(p), password.spec_bytes()),
        r matches Ok(p) ==> packet_bytes(p).len() == password.spec_bytes().len() + MIN_PACKET_LEN,
{
    match drawn {
        Ok(nonce) => seal_password(&nonce, password),
        Err(()) => Err(CryptoError::EncryptionFailed),
    }
}

/// Encrypts `password` under a fresh random nonce into a packet. It fails only
/// when the system's random source fails.
pub fn encrypt_password(password: &str) -> (r: Result<heapless::Vec<u8, 128>, CryptoError>)
    requires
        password.spec_bytes().len() <= MAX_PASSWORD_LEN,
    ensures
        r matches Err(e) ==> e == CryptoError::EncryptionFailed,
        r matches Ok(p) ==> packet_bytes(p) == sealed_packet(
            packet_nonce(packet_bytes(p)),
            password.spec_bytes(),
        ),
        r matches Ok(p) ==> opens_to(packet_bytes(p), password.spec_bytes()),
        r matches Ok(p) ==> packet_bytes(p).len() == password.spec_bytes().len() + MIN_PACKET_LEN,
{
    let drawn = generate_nonce();
    let r = seal_with_drawn_nonce(drawn, password);
    proof {
        if r is Ok {
            assert(packet_nonce(packet_bytes(r->Ok_0)) =~= drawn->Ok_0@);
        }
    }
    r
}

/// Authenticates and decrypts a packet in place: on success the encrypted part
/// of the packet is replaced by the password, which is returned as that part of
/// the packet; on failure the packet is left as it was.
pub fn decrypt_password(packet: &mut heapless::Vec<u8, 128>) -> (r: Result<&[u8], CryptoError>)
    ensures
        is_opening_of(packet_bytes(*old(packet)), opened_view(r)),
        r matches Ok(pt) ==> pt@.len() == packet_bytes(*old(packet)).len() - MIN_PACKET_LEN,
        r matches Ok(pt) ==> packet_bytes(*final(packet)) == packet_nonce(packet_bytes(*old(packet)))
            + pt@ + packet_tag(packet_bytes(*old(packet))),
        r is Err ==> packet_bytes(*final(packet)) == packet_bytes(*old(packet)),
{
    let ghost p = packet_bytes(*packet);
    let bytes = packet_as_slice(packet);
    let len = bytes.len();
    if len < MIN_PACKET_LEN {
        return Err(CryptoError::PacketTooShort);
    }
    let key = temporary_test_key();
    let tag_start = len - TAG_LEN;
    let mut nonce = [0u8; 12];
    let mut i: usize = 0;
    while i < NONCE_LEN
        invariant
            0 <= i <= NONCE_LEN,
            NONCE_LEN <= bytes@.len(),
            forall|j: int| 0 <= j < i ==> nonce@[j] == bytes@[j],
        decreases NONCE_LEN - i,
    {
        nonce[i] = bytes[i];
        i += 1;
    }
    let mut tag = [0u8; 16];
    let mut k: usize = 0;
    while k < TAG_LEN
        invariant
            0 <= k <= TAG_LEN,
            tag_start + TAG_LEN == bytes@.len(),
            bytes@.len() <= 128,
            forall|j: int| 0 <= j < k ==> tag@[j] == bytes@[tag_start + j],
        decreases TAG_LEN - k,
    {
        tag[k] = bytes[tag_start + k];
        k += 1;
    }
    let empty: [u8; 0] = [];
    proof {
        assert(empty@ =~= Seq::<u8>::empty());
        assert(nonce@ =~= packet_nonce(p));
        assert(tag@ =~= packet_tag(p));
    }
    let opened = aes256gcm_decrypt_in_place(
        &key,
        &nonce,
        empty.as_slice(),
        packet,
        NONCE_LEN,
        tag_start,
        &tag,
    );
    match opened {
        Ok(()) => {
            let decrypted = packet_as_slice(packet);
            let plain = &decrypted[NONCE_LEN..tag_start];
            proof {
                let q = packet_bytes(*packet);
                assert(plain@ =~= q.subrange(NONCE_LEN as int, tag_start as int));
                assert(q.take(NONCE_LEN as int) =~= packet_nonce(p));
                assert(q.skip(tag_start as int) =~= packet_tag(p));
                assert(q =~= q.take(NONCE_LEN as int) + q.subrange(NONCE_LEN as int, tag_start as int)
                    + q.skip(tag_start as int));
            }
            Ok(plain)
        },
        Err(_) => Err(CryptoError::AuthenticationFailed),
    }
}

/// Decrypting gives back what was encrypted: a packet that opens to a password,
/// as every packet that encryption makes for that password does, is opened to
/// exactly that password.
pub proof fn lemma_decrypt_gives_back_encrypted(
    packet: Seq<u8>,
    password: Seq<u8>,
    opened: Result<Seq<u8>, CryptoError>,
)
    requires
        opens_to(packet, password),
        is_opening_of(packet, opened),
    ensures
        opened == Ok::<Seq<u8>, CryptoError>(password),
{
}

} // verus!
