//! The save-file cipher: AES-128 in CBC mode under a fixed key and IV, with
//! PKCS#7 block padding.
//!
//! The block cipher itself is the work of the `aes` and `cbc` crates. The
//! padding scheme, the decision when a ciphertext is rejected, and the
//! relation between encryption and decryption are stated and proved here.

use crate::text::string_from_utf8;
use aes::cipher::block_padding::NoPadding;
use aes::cipher::{BlockDecryptMut, BlockEncryptMut, KeyIvInit};
use vstd::prelude::*;
use vstd::utf8::{decode_utf8, valid_utf8};

verus! {

/// Size in bytes of one cipher block.
pub const BLOCK_SIZE: usize = 16;

/// The key every save file is encrypted under.
pub const SAVEGAME_KEY: [u8; 16] = [
    186, 173, 240, 13, 0, 0, 0, 0, 32, 48, 68, 194, 19, 228, 31, 255,
];

/// The initialization vector every save file is encrypted under.
pub const SAVEGAME_IV: [u8; 16] = [
    229, 255, 255, 255, 229, 186, 7, 0, 186, 173, 240, 13, 255, 0, 255, 0,
];

/// Why a ciphertext was rejected.
#[derive(Clone, Copy, Debug, PartialEq, Eq, Structural)]
pub enum CipherError {
    /// The input is not a whole number of cipher blocks.
    Length,
    /// The decrypted final block does not end in valid padding.
    Padding,
}

/// Why the text of a save file could not be had.
#[derive(Clone, Copy, Debug, PartialEq, Eq, Structural)]
pub enum LoadError {
    /// The file is not a ciphertext of this cipher.
    Cipher(CipherError),
    /// The plaintext is not UTF-8.
    Utf8,
}

/// The ciphertext that AES-128-CBC produces for `blocks` under `key` and `iv`,
/// without any padding.
pub uninterp spec fn aes128_cbc_encrypt(key: Seq<u8>, iv: Seq<u8>, blocks: Seq<u8>) -> Seq<u8>;

/// The plaintext that AES-128-CBC recovers from `blocks` under `key` and `iv`,
/// without any unpadding.
pub uninterp spec fn aes128_cbc_decrypt(key: Seq<u8>, iv: Seq<u8>, blocks: Seq<u8>) -> Seq<u8>;

/// Number of padding bytes appended to a message of `len` bytes: always
/// between 1 and 16, bringing the length to a multiple of the block size.
pub open spec fn pad_len(len: nat) -> nat {
    (16 - len % 16) as nat
}

/// The message followed by its PKCS#7 padding: `pad_len` bytes, each equal
/// to `pad_len`.
pub open spec fn pkcs7_pad(msg: Seq<u8>) -> Seq<u8> {
    msg + Seq::new(pad_len(msg.len()), |i: int| pad_len(msg.len()) as u8)
}

/// Whether `padded` ends in valid PKCS#7 padding for 16-byte blocks: it is
/// a non-empty whole number of blocks, its last byte `n` lies in `1..=16`,
/// and each of the last `n` bytes equals `n`.
pub open spec fn pkcs7_valid(padded: Seq<u8>) -> bool {
    &&& padded.len() > 0
    &&& padded.len() % 16 == 0
    &&& 1 <= padded.last() <= 16
    &&& forall|i: int|
        padded.len() - padded.last() <= i < padded.len() ==> #[trigger] padded[i] == padded.last()
}

/// The message inside `padded`, or `None` where the padding is invalid.
pub open spec fn pkcs7_unpad(padded: Seq<u8>) -> Option<Seq<u8>> {
    if pkcs7_valid(padded) {
        Some(padded.take(padded.len() - padded.last()))
    } else {
        None
    }
}

/// Unpadding undoes padding, for every message.
pub proof fn lemma_unpad_pad(msg: Seq<u8>)
    ensures
        pkcs7_pad(msg).len() == msg.len() + pad_len(msg.len()),
        pkcs7_pad(msg).len() % 16 == 0,
        pkcs7_valid(pkcs7_pad(msg)),
        pkcs7_unpad(pkcs7_pad(msg)) == Some(msg),
{
    let n = pad_len(msg.len());
    let p = pkcs7_pad(msg);
    assert(1 <= n <= 16);
    assert(p.len() == msg.len() + n);
    assert(p.last() == n as u8);
    assert(p.take(p.len() - p.last()) =~= msg);
}

/// Runs `cbc::Encryptor<aes::Aes128>` over whole blocks with no padding
/// (`encrypt_padded_vec_mut::<NoPadding>`). The contract names the
/// ciphertext and claims that it is as long as the input; the input must be
/// a whole number of blocks, since the outside call panics otherwise.
#[verifier::external_body]
fn cbc_encrypt_blocks(key: &[u8; 16], iv: &[u8; 16], blocks: &[u8]) -> (out: Vec<u8>)
    requires
        blocks@.len() % 16 == 0,
        blocks@.len() + 16 <= usize::MAX,
    ensures
        out@ == aes128_cbc_encrypt(key@, iv@, blocks@),
        out@.len() == blocks@.len(),
{
    let cipher = cbc::Encryptor::<aes::Aes128>::new(key.into(), iv.into());
    cipher.encrypt_padded_vec_mut::<NoPadding>(blocks)
}

/// Runs `cbc::Decryptor<aes::Aes128>` over whole blocks with no unpadding
/// (`decrypt_padded_vec_mut::<NoPadding>`). The outside call fails exactly
/// when the input is not a whole number of blocks. Otherwise the contract
/// names the plaintext and claims that it is as long as the input. It also
/// claims that decryption inverts encryption under the same key and IV:
/// whatever whole blocks encrypt to the input are what comes back.
#[verifier::external_body]
fn cbc_decrypt_blocks(key: &[u8; 16], iv: &[u8; 16], blocks: &[u8]) -> (out: Option<Vec<u8>>)
    ensures
        out is Some <==> blocks@.len() % 16 == 0,
        out is Some ==> out.unwrap()@ == aes128_cbc_decrypt(key@, iv@, blocks@),
        out is Some ==> out.unwrap()@.len() == blocks@.len(),
        forall|plain: Seq<u8>|
            plain.len() % 16 == 0 && #[trigger] aes128_cbc_encrypt(key@, iv@, plain) == blocks@
                ==> out is Some && out.unwrap()@ == plain,
{
    let cipher = cbc::Decryptor::<aes::Aes128>::new(key.into(), iv.into());
    cipher.decrypt_padded_vec_mut::<NoPadding>(blocks).ok()
}

/// The ciphertext of a save file whose plaintext is `msg`.
pub open spec fn spec_encrypt(msg: Seq<u8>) -> Seq<u8> {
    aes128_cbc_encrypt(SAVEGAME_KEY@, SAVEGAME_IV@, pkcs7_pad(msg))
}

/// What decrypting `data` gives: the unpadded plaintext, or the reason for
/// rejecting `data`.
pub open spec fn spec_decrypt(data: Seq<u8>) -> Result<Seq<u8>, CipherError> {
    if data.len() % 16 != 0 {
        Err(CipherError::Length)
    } else {
        match pkcs7_unpad(aes128_cbc_decrypt(SAVEGAME_KEY@, SAVEGAME_IV@, data)) {
            Some(msg) => Ok(msg),
            None => Err(CipherError::Padding),
        }
    }
}

/// Appends PKCS#7 padding to `msg`.
pub fn pad(msg: &[u8]) -> (padded: Vec<u8>)
    requires
        msg@.len() + 16 <= usize::MAX,
    ensures
        padded@ == pkcs7_pad(msg@),
        padded@.len() == msg@.len() + pad_len(msg@.len()),
{
    let n: usize = BLOCK_SIZE - msg.len() % BLOCK_SIZE;
    let fill: u8 = n as u8;
    let mut padded: Vec<u8> = Vec::with_capacity(msg.len() + n);
    let mut i: usize = 0;
    while i < msg.len()
        invariant
            i <= msg@.len(),
            padded@ == msg@.take(i as int),
        decreases msg@.len() - i,
    {
        padded.push(msg[i]);
        i += 1;
        assert(padded@ =~= msg@.take(i as int));
    }
    assert(msg@.take(msg@.len() as int) =~= msg@);
    let mut k: usize = 0;
    while k < n
        invariant
            k <= n,
            n == pad_len(msg@.len()),
            fill == n as u8,
            padded@ == msg@ + Seq::new(k as nat, |j: int| fill),
        decreases n - k,
    {
        padded.push(fill);
        k += 1;
        assert(padded@ =~= msg@ + Seq::new(k as nat, |j: int| fill));
    }
    assert(padded@ =~= pkcs7_pad(msg@));
    padded
}

/// Checks the PKCS#7 padding of `padded` and strips it.
pub fn unpad(padded: Vec<u8>) -> (msg: Option<Vec<u8>>)
    ensures
        match msg {
            Some(m) => pkcs7_unpad(padded@) == Some(m@),
            None => pkcs7_unpad(padded@).is_none(),
        },
{
    let len: usize = padded.len();
    if len == 0 || len % BLOCK_SIZE != 0 {
        return None;
    }
    let last: u8 = padded[len - 1];
    if last == 0 || last as usize > BLOCK_SIZE {
        return None;
    }
    let n: usize = last as usize;
    let mut i: usize = len - n;
    while i < len
        invariant
            len == padded@.len(),
            len > 0,
            last == padded@.last(),
            n == last,
            len - n <= i <= len,
            n <= len,
            forall|j: int| len - n <= j < i ==> #[trigger] padded@[j] == last,
        decreases len - i,
    {
        if padded[i] != last {
            assert(padded@[i as int] != padded@.last());
            return None;
        }
        i += 1;
    }
    let mut msg = padded;
    msg.truncate(len - n);
    Some(msg)
}

/// Encrypts a plaintext save file. Succeeds on every input; the result is
/// the next whole number of blocks strictly longer than the input.
pub fn encrypt(data: &[u8]) -> (out: Vec<u8>)
    requires
        data@.len() + 32 <= usize::MAX,
    ensures
        out@ == spec_encrypt(data@),
        out@.len() == data@.len() + pad_len(data@.len()),
        out@.len() % 16 == 0,
        out@.len() > data@.len(),
{
    proof {
        lemma_unpad_pad(data@);
    }
    let padded = pad(data);
    cbc_encrypt_blocks(&SAVEGAME_KEY, &SAVEGAME_IV, padded.as_slice())
}

/// Decrypts an encrypted save file.
///
/// Fails with `CipherError::Length` exactly when the input is not a whole
/// number of blocks, and with `CipherError::Padding` exactly when it is but
/// the decrypted bytes do not end in valid padding. Every output of
/// `encrypt` decrypts to the bytes it was made from.
pub fn decrypt(data: &[u8]) -> (out: Result<Vec<u8>, CipherError>)
    ensures
        match out {
            Ok(msg) => spec_decrypt(data@) == Ok::<Seq<u8>, CipherError>(msg@),
            Err(e) => spec_decrypt(data@) == Err::<Seq<u8>, CipherError>(e),
        },
        forall|msg: Seq<u8>| #[trigger]
            spec_encrypt(msg) == data@ ==> (out matches Ok(m) && m@ == msg),
{
    proof {
        assert forall|msg: Seq<u8>| #[trigger] spec_encrypt(msg) == data@ implies pkcs7_pad(
            msg,
        ).len() % 16 == 0 && pkcs7_unpad(pkcs7_pad(msg)) == Some(msg) by {
            lemma_unpad_pad(msg);
        }
    }
    match cbc_decrypt_blocks(&SAVEGAME_KEY, &SAVEGAME_IV, data) {
        None => Err(CipherError::Length),
        Some(plain) => match unpad(plain) {
            Some(msg) => Ok(msg),
            None => Err(CipherError::Padding),
        },
    }
}

/// Decrypts the contents of an encrypted save file: `decrypt` on what was
/// read from the file.
pub fn decrypt_file(contents: &[u8]) -> (out: Result<Vec<u8>, CipherError>)
    ensures
        match out {
            Ok(msg) => spec_decrypt(contents@) == Ok::<Seq<u8>, CipherError>(msg@),
            Err(e) => spec_decrypt(contents@) == Err::<Seq<u8>, CipherError>(e),
        },
        forall|msg: Seq<u8>| #[trigger]
            spec_encrypt(msg) == contents@ ==> (out matches Ok(m) && m@ == msg),
{
    decrypt(contents)
}

/// Encrypts the contents of a plaintext save file: `encrypt` on what was
/// read from the file. The result is what is to be written out.
pub fn encrypt_file(contents: &[u8]) -> (out: Vec<u8>)
    requires
        contents@.len() + 32 <= usize::MAX,
    ensures
        out@ == spec_encrypt(contents@),
        out@.len() == contents@.len() + pad_len(contents@.len()),
        out@.len() % 16 == 0,
        out@.len() > contents@.len(),
{
    encrypt(contents)
}

/// The plaintext of a save file: the contents themselves where the file is
/// stored unencrypted, their decryption otherwise.
pub open spec fn spec_plaintext(contents: Seq<u8>, unencrypted: bool) -> Result<
    Seq<u8>,
    CipherError,
> {
    if unencrypted {
        Ok(contents)
    } else {
        spec_decrypt(contents)
    }
}

/// The plaintext of a save file. Files of the Steam release are encrypted;
/// for any other, `unencrypted` is set and the contents pass through
/// untouched.
pub fn plaintext(contents: Vec<u8>, unencrypted: bool) -> (out: Result<Vec<u8>, CipherError>)
    ensures
        match out {
            Ok(msg) => spec_plaintext(contents@, unencrypted) == Ok::<Seq<u8>, CipherError>(msg@),
            Err(e) => spec_plaintext(contents@, unencrypted) == Err::<Seq<u8>, CipherError>(e),
        },
{
    if unencrypted {
        Ok(contents)
    } else {
        decrypt_file(contents.as_slice())
    }
}

/// The text of a save file: its plaintext, decoded as UTF-8.
pub open spec fn spec_savegame_text(contents: Seq<u8>, unencrypted: bool) -> Result<
    Seq<char>,
    LoadError,
> {
    match spec_plaintext(contents, unencrypted) {
        Err(e) => Err(LoadError::Cipher(e)),
        Ok(bytes) => if valid_utf8(bytes) {
            Ok(decode_utf8(bytes))
        } else {
            Err(LoadError::Utf8)
        },
    }
}

/// The text of a save file, ready to be parsed as a document.
///
/// Fails with the cipher's error where the file is encrypted and does not
/// decrypt, and with `LoadError::Utf8` where the plaintext is not UTF-8.
pub fn savegame_text(contents: Vec<u8>, unencrypted: bool) -> (out: Result<String, LoadError>)
    ensures
        match out {
            Ok(text) => spec_savegame_text(contents@, unencrypted) == Ok::<Seq<char>, LoadError>(
                text@,
            ),
            Err(e) => spec_savegame_text(contents@, unencrypted) == Err::<Seq<char>, LoadError>(e),
        },
{
    match plaintext(contents, unencrypted) {
        Err(e) => Err(LoadError::Cipher(e)),
        Ok(bytes) => match string_from_utf8(bytes) {
            Some(text) => Ok(text),
            None => Err(LoadError::Utf8),
        },
    }
}

} // verus!
