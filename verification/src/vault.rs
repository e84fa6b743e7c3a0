//! Stored settings: how they are encrypted with the key of the device.
use crate::errors;
use crate::errors::ResearchError;
use crate::text;
use base64::engine::general_purpose::STANDARD;
use base64::Engine;
use chacha20poly1305::aead::{Aead, KeyInit};
use chacha20poly1305::{ChaCha20Poly1305, Key, Nonce};
use sha2::{Digest, Sha256};
use vstd::prelude::*;
use vstd::slice::slice_subrange;
use vstd::utf8::*;

verus! {

/// The error of the operating system's random number source.
#[verifier::external_type_specification]
#[verifier::external_body]
pub struct ExRandomError(getrandom::Error);

/// The error of the cipher, which says nothing but that it failed.
#[verifier::external_type_specification]
#[verifier::external_body]
pub struct ExCipherError(chacha20poly1305::Error);

/// `getrandom::getrandom` fills `dest` with random bytes or fails. Nothing is
/// claimed of the bytes; their number does not change.
pub assume_specification[ getrandom::getrandom ](dest: &mut [u8]) -> (r: Result<
    (),
    getrandom::Error,
>)
    ensures
        final(dest)@.len() == old(dest)@.len(),
;

/// The SHA-256 digest of `data`.
pub uninterp spec fn sha256(data: Seq<u8>) -> Seq<u8>;

/// Calls `Sha256::digest`. The claim is that the digest depends on the data
/// alone and has 32 bytes.
#[verifier::external_body]
fn digest(data: &[u8]) -> (r: Vec<u8>)
    ensures
        r@ == sha256(data@),
        r@.len() == 32,
{
    Sha256::digest(data).to_vec()
}

/// The standard base64 encoding, with padding.
pub uninterp spec fn base64_text(bytes: Seq<u8>) -> Seq<char>;

/// What the standard base64 decoder makes of a text: bytes, or what it says is
/// wrong.
pub uninterp spec fn base64_bytes(text: Seq<char>) -> Result<Seq<u8>, Seq<char>>;

/// The length of the standard base64 encoding, with padding.
pub open spec fn base64_len(len: nat) -> nat {
    (len + 2) / 3 * 4
}

/// Calls `encode` of the standard base64 engine, which panics where the text
/// would not fit into memory. The claim is that the text depends on the bytes
/// alone, and that decoding it gives back the bytes.
#[verifier::external_body]
fn encode_base64(bytes: &[u8]) -> (r: String)
    requires
        base64_len(bytes@.len()) <= isize::MAX,
    ensures
        r@ == base64_text(bytes@),
        base64_bytes(r@) is Ok,
        base64_bytes(r@)->Ok_0 == bytes@,
{
    STANDARD.encode(bytes)
}

/// Calls `decode` of the standard base64 engine. The claim is that the outcome
/// depends on the text alone.
#[verifier::external_body]
fn decode_base64(data: &str) -> (r: Result<Vec<u8>, String>)
    ensures
        r is Ok <==> base64_bytes(data@) is Ok,
        r matches Ok(bytes) ==> bytes@ == base64_bytes(data@)->Ok_0,
        r matches Err(problem) ==> problem@ == base64_bytes(data@)->Err_0,
{
    STANDARD.decode(data).map_err(|e| e.to_string())
}

/// The most bytes that the cipher can encrypt with one nonce: its key stream
/// has that many.
pub const MAX_PLAINTEXT: u64 = 274_877_906_816;

/// Whether a message of that length is over the end of the key stream, while
/// the cipher takes it on nevertheless: it panics then.
pub open spec fn overruns(len: nat) -> bool {
    MAX_PLAINTEXT < len < MAX_PLAINTEXT + 64
}

/// What ChaCha20-Poly1305 makes of a plaintext: the ciphertext, followed by the
/// tag.
pub uninterp spec fn chacha_sealed(
    key: Seq<u8>,
    nonce: Seq<u8>,
    plaintext: Seq<u8>,
) -> Seq<u8>;

/// The plaintext that ChaCha20-Poly1305 finds in a ciphertext with its tag, or
/// `None` where the tag does not match.
pub uninterp spec fn chacha_opened(
    key: Seq<u8>,
    nonce: Seq<u8>,
    ciphertext: Seq<u8>,
) -> Option<Seq<u8>>;

/// Calls `encrypt` of `ChaCha20Poly1305`. The claim is that it fails exactly
/// where the plaintext is longer than the key stream; that else the result
/// depends on the arguments alone, is 16 bytes longer than the plaintext, and
/// is decrypted to it with the same key and nonce.
#[verifier::external_body]
fn seal(key: &[u8], nonce: &[u8], plaintext: &[u8]) -> (r: Result<
    Vec<u8>,
    chacha20poly1305::Error,
>)
    requires
        key@.len() == 32,
        nonce@.len() == 12,
        !overruns(plaintext@.len()),
        plaintext@.len() + 16 <= isize::MAX,
    ensures
        r is Ok <==> plaintext@.len() <= MAX_PLAINTEXT,
        r matches Ok(sealed) ==> sealed@ == chacha_sealed(key@, nonce@, plaintext@),
        r matches Ok(sealed) ==> sealed@.len() == plaintext@.len() + 16,
        r matches Ok(sealed) ==> chacha_opened(key@, nonce@, sealed@) == Some(plaintext@),
{
    ChaCha20Poly1305::new(Key::from_slice(key)).encrypt(Nonce::from_slice(nonce), plaintext)
}

/// Calls `decrypt` of `ChaCha20Poly1305`. The claim is that the outcome depends
/// on the arguments alone.
#[verifier::external_body]
fn open(key: &[u8], nonce: &[u8], ciphertext: &[u8]) -> (r: Result<
    Vec<u8>,
    chacha20poly1305::Error,
>)
    requires
        key@.len() == 32,
        nonce@.len() == 12,
        ciphertext@.len() >= 16,
        !overruns((ciphertext@.len() - 16) as nat),
    ensures
        match r {
            Ok(opened) => chacha_opened(key@, nonce@, ciphertext@) == Some(opened@),
            Err(_) => chacha_opened(key@, nonce@, ciphertext@) is None,
        },
{
    ChaCha20Poly1305::new(Key::from_slice(key)).decrypt(Nonce::from_slice(nonce), ciphertext)
}

/// The key that settings are encrypted with on the device with the given salt.
pub open spec fn settings_key(salt: Seq<char>) -> Seq<u8> {
    sha256(encode_utf8("research-assistant::"@ + salt))
}

/// The key for the device with the given salt.
pub fn derive_key(salt: &str) -> (r: Vec<u8>)
    ensures
        r@ == settings_key(salt@),
        r@.len() == 32,
{
    digest(text::join("research-assistant::", salt).as_str().as_bytes())
}

/// The blob that is stored: the nonce, followed by what the cipher made of the
/// plaintext.
pub fn join_blob(nonce: &[u8], sealed: &[u8]) -> (r: Vec<u8>)
    ensures
        r@ == nonce@ + sealed@,
{
    let mut blob: Vec<u8> = Vec::new();
    blob.extend_from_slice(nonce);
    blob.extend_from_slice(sealed);
    assert(blob@ =~= nonce@ + sealed@);
    blob
}

/// The nonce in a blob, and what the cipher made of the plaintext. A blob holds
/// a nonce and a tag at least.
pub open spec fn blob_parts(blob: Seq<u8>) -> Result<
    (Seq<u8>, Seq<u8>),
    errors::ResearchErrorView,
> {
    if blob.len() < 12 + 16 {
        Err(errors::ResearchErrorView::Crypto("settings are corrupted"@))
    } else {
        Ok((blob.take(12), blob.skip(12)))
    }
}

/// The nonce in a blob, and what the cipher made of the plaintext.
pub fn split_blob(blob: &[u8]) -> (r: Result<(&[u8], &[u8]), ResearchError>)
    ensures
        match r {
            Ok((nonce, sealed)) => blob_parts(blob@) == Ok::<_, errors::ResearchErrorView>(
                (nonce@, sealed@),
            ),
            Err(problem) => blob_parts(blob@) == Err::<(Seq<u8>, Seq<u8>), _>(problem.deep_view()),
        },
{
    if blob.len() < 12 + 16 {
        return Err(ResearchError::Crypto("settings are corrupted".to_owned()));
    }
    let nonce = slice_subrange(blob, 0, 12);
    let sealed = slice_subrange(blob, 12, blob.len());
    assert(nonce@ == blob@.take(12));
    assert(sealed@ == blob@.skip(12));
    Ok((nonce, sealed))
}

/// Splitting a blob gives back the nonce and the ciphertext that it was made
/// of.
pub proof fn splitting_undoes_joining(nonce: Seq<u8>, sealed: Seq<u8>)
    requires
        nonce.len() == 12,
        sealed.len() >= 16,
    ensures
        blob_parts(nonce + sealed) == Ok::<_, errors::ResearchErrorView>((nonce, sealed)),
{
    assert((nonce + sealed).take(12) == nonce);
    assert((nonce + sealed).skip(12) == sealed);
}

/// Settings as they are stored: the nonce, followed by what the cipher made of
/// the plaintext, in base64.
pub open spec fn sealed_settings(
    settings: Seq<u8>,
    salt: Seq<char>,
    nonce: Seq<u8>,
) -> Result<Seq<char>, errors::ResearchErrorView> {
    if settings.len() <= MAX_PLAINTEXT {
        Ok(base64_text(nonce + chacha_sealed(settings_key(salt), nonce, settings)))
    } else {
        Err(errors::ResearchErrorView::Crypto("aead::Error"@))
    }
}

/// The plaintext in a stored blob, where the cipher finds `opened` in it.
pub open spec fn plaintext_or_error(opened: Option<Seq<u8>>) -> Result<
    Seq<u8>,
    errors::ResearchErrorView,
> {
    match opened {
        Some(plaintext) => Ok(plaintext),
        None => Err(
            errors::ResearchErrorView::Crypto(
                "could not decrypt settings; re-enter your API key"@,
            ),
        ),
    }
}

/// The plaintext in a stored blob. It holds a nonce and a tag at least; one that
/// is longer than the key stream cannot be decrypted.
pub open spec fn opened_blob(blob: Seq<u8>, salt: Seq<char>) -> Result<
    Seq<u8>,
    errors::ResearchErrorView,
> {
    match blob_parts(blob) {
        Ok((nonce, sealed)) => if overruns((sealed.len() - 16) as nat) {
            plaintext_or_error(None)
        } else {
            plaintext_or_error(chacha_opened(settings_key(salt), nonce, sealed))
        },
        Err(problem) => Err(problem),
    }
}

/// The plaintext in stored settings, where decoding them from base64 gave
/// `decoded`.
pub open spec fn opened_decoded(decoded: Result<Seq<u8>, Seq<char>>, salt: Seq<char>) -> Result<
    Seq<u8>,
    errors::ResearchErrorView,
> {
    match decoded {
        Ok(blob) => opened_blob(blob, salt),
        Err(problem) => Err(errors::ResearchErrorView::Crypto(problem)),
    }
}

/// The plaintext in stored settings.
pub open spec fn opened_settings(data: Seq<char>, salt: Seq<char>) -> Result<
    Seq<u8>,
    errors::ResearchErrorView,
> {
    opened_decoded(base64_bytes(data), salt)
}

/// What the bytes of a result are, on either side.
pub open spec fn bytes_outcome(r: Result<Vec<u8>, ResearchError>) -> Result<
    Seq<u8>,
    errors::ResearchErrorView,
> {
    match r {
        Ok(bytes) => Ok(bytes@),
        Err(error) => Err(error.deep_view()),
    }
}

/// Encrypts serialized settings with the given nonce. What comes out is opened
/// to the same settings with the same salt.
pub fn seal_settings(settings: &[u8], device_salt: &str, nonce: &[u8]) -> (r: Result<
    String,
    ResearchError,
>)
    requires
        nonce@.len() == 12,
        !overruns(settings@.len()),
        base64_len(settings@.len() + 28) <= isize::MAX,
    ensures
        errors::outcome(r) == sealed_settings(settings@, device_salt@, nonce@),
        r matches Ok(data) ==> opened_settings(data@, device_salt@) == Ok::<
            _,
            errors::ResearchErrorView,
        >(settings@),
{
    let key = derive_key(device_salt);
    match seal(&key, nonce, settings) {
        Ok(sealed) => {
            let blob = join_blob(nonce, &sealed);
            proof {
                splitting_undoes_joining(nonce@, sealed@);
            }
            Ok(encode_base64(&blob))
        },
        Err(_) => Err(ResearchError::Crypto("aead::Error".to_owned())),
    }
}

/// Encrypts serialized settings with a random nonce. Where the random number
/// source fails, that is the error. What comes out is opened to the same
/// settings with the same salt.
pub fn encrypt_settings(settings: Vec<u8>, device_salt: String) -> (r: Result<
    String,
    ResearchError,
>)
    requires
        !overruns(settings@.len()),
        base64_len(settings@.len() + 28) <= isize::MAX,
    ensures
        r matches Ok(data) ==> exists|nonce: Seq<u8>|
            nonce.len() == 12 && #[trigger] sealed_settings(settings@, device_salt@, nonce) == Ok::<
                _,
                errors::ResearchErrorView,
            >(data@),
        r matches Ok(data) ==> opened_settings(data@, device_salt@) == Ok::<
            _,
            errors::ResearchErrorView,
        >(settings@),
        r matches Err(error) ==> error is Crypto,
        settings@.len() > MAX_PLAINTEXT ==> r is Err,
{
    let mut nonce: Vec<u8> = vec![0u8; 12];
    match getrandom::getrandom(nonce.as_mut_slice()) {
        Ok(_) => seal_settings(&settings, &device_salt, &nonce),
        Err(problem) => Err(ResearchError::Crypto(problem.to_string())),
    }
}

/// The plaintext, where the cipher found `opened`.
pub fn plaintext_of(opened: Option<Vec<u8>>) -> (r: Result<Vec<u8>, ResearchError>)
    ensures
        bytes_outcome(r) == plaintext_or_error(
            match opened {
                Some(bytes) => Some(bytes@),
                None => None,
            },
        ),
{
    match opened {
        Some(plaintext) => Ok(plaintext),
        None => Err(
            ResearchError::Crypto("could not decrypt settings; re-enter your API key".to_owned()),
        ),
    }
}

/// The plaintext in a stored blob.
pub fn open_blob(blob: &[u8], device_salt: &str) -> (r: Result<Vec<u8>, ResearchError>)
    ensures
        bytes_outcome(r) == opened_blob(blob@, device_salt@),
{
    let (nonce, sealed) = match split_blob(blob) {
        Ok(parts) => parts,
        Err(problem) => {
            return Err(problem);
        },
    };
    let len: u64 = (sealed.len() - 16) as u64;
    if MAX_PLAINTEXT < len && len < MAX_PLAINTEXT + 64 {
        return plaintext_of(None);
    }
    match open(&derive_key(device_salt), nonce, sealed) {
        Ok(plaintext) => plaintext_of(Some(plaintext)),
        Err(_) => plaintext_of(None),
    }
}

/// The plaintext in stored settings, where decoding them from base64 gave
/// `decoded`.
pub fn open_decoded(decoded: Result<Vec<u8>, String>, device_salt: &str) -> (r: Result<
    Vec<u8>,
    ResearchError,
>)
    ensures
        bytes_outcome(r) == opened_decoded(
            match decoded {
                Ok(blob) => Ok(blob@),
                Err(problem) => Err(problem@),
            },
            device_salt@,
        ),
{
    match decoded {
        Ok(blob) => open_blob(&blob, device_salt),
        Err(problem) => Err(ResearchError::Crypto(problem)),
    }
}

/// Decrypts stored settings.
pub fn decrypt_settings(data: String, device_salt: String) -> (r: Result<Vec<u8>, ResearchError>)
    ensures
        bytes_outcome(r) == opened_settings(data@, device_salt@),
{
    open_decoded(decode_base64(&data), &device_salt)
}

/// The key is the digest of the salt behind the name of the application.
pub proof fn the_key_is_the_digest_of_the_salt(salt: Seq<char>)
    ensures
        settings_key(salt) == sha256(encode_utf8("research-assistant::"@ + salt)),
{
}

/// Settings are stored with the nonce first, then what the cipher made of them
/// with the key of the salt; the cipher refuses what is too long.
pub proof fn settings_are_stored_behind_their_nonce(
    settings: Seq<u8>,
    salt: Seq<char>,
    nonce: Seq<u8>,
)
    ensures
        settings.len() <= 274_877_906_816 ==> sealed_settings(settings, salt, nonce) == Ok::<
            _,
            errors::ResearchErrorView,
        >(
            base64_text(
                nonce + chacha_sealed(
                    sha256(encode_utf8("research-assistant::"@ + salt)),
                    nonce,
                    settings,
                ),
            ),
        ),
        settings.len() > 274_877_906_816 ==> sealed_settings(settings, salt, nonce) == Err::<
            Seq<char>,
            _,
        >(errors::ResearchErrorView::Crypto("aead::Error"@)),
{
}

/// Stored settings are what the cipher finds behind the nonce with the key of
/// the salt. What is too short is corrupted; what the cipher does not accept
/// asks for the key again.
pub proof fn stored_settings_are_what_the_cipher_finds(
    nonce: Seq<u8>,
    sealed: Seq<u8>,
    salt: Seq<char>,
)
    requires
        nonce.len() == 12,
        sealed.len() >= 16,
        sealed.len() - 16 <= 274_877_906_816 || sealed.len() - 16 >= 274_877_906_880,
    ensures
        ({
            let opened = chacha_opened(
                sha256(encode_utf8("research-assistant::"@ + salt)),
                nonce,
                sealed,
            );
            &&& opened matches Some(settings) ==> opened_decoded(Ok(nonce + sealed), salt) == Ok::<
                _,
                errors::ResearchErrorView,
            >(settings)
            &&& opened is None ==> opened_decoded(Ok(nonce + sealed), salt) == Err::<Seq<u8>, _>(
                errors::ResearchErrorView::Crypto(
                    "could not decrypt settings; re-enter your API key"@,
                ),
            )
        }),
{
    splitting_undoes_joining(nonce, sealed);
}

/// What is no base64 is told as the decoder tells it; fewer bytes than a nonce
/// and a tag are corrupted settings.
pub proof fn broken_settings_are_told_apart(blob: Seq<u8>, problem: Seq<char>, salt: Seq<char>)
    ensures
        opened_decoded(Err(problem), salt) == Err::<Seq<u8>, _>(
            errors::ResearchErrorView::Crypto(problem),
        ),
        blob.len() < 28 ==> opened_decoded(Ok(blob), salt) == Err::<Seq<u8>, _>(
            errors::ResearchErrorView::Crypto("settings are corrupted"@),
        ),
{
}

/// The outcome of a result with bytes is what it holds, on its own side.
pub proof fn an_outcome_is_the_bytes_or_the_error(bytes: Vec<u8>, error: ResearchError)
    ensures
        bytes_outcome(Ok(bytes)) == Ok::<_, errors::ResearchErrorView>(bytes@),
        bytes_outcome(Err(error)) == Err::<Seq<u8>, _>(error.deep_view()),
{
}

/// The cipher overruns its key stream for 63 lengths only.
pub proof fn the_lengths_that_overrun(len: nat)
    ensures
        overruns(len) <==> 274_877_906_816 < len < 274_877_906_880,
{
}

} // verus!
