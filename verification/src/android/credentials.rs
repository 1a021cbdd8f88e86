//! How credentials are kept: one file for each URL, named by a hash of it, that holds the
//! encrypted user name and password behind the initialisation vector of the cipher.

use crate::bytes;
use crate::bytes::{be_bytes, be_number, hex_text, text_from_utf8};
use std::hash::Hasher;
use vstd::prelude::*;
use vstd::slice::*;
use vstd::utf8::*;

verus! {

/// The hash that `seahash::SeaHasher` with its default seeds gives for bytes written at
/// once.
pub uninterp spec fn sea_hash(bytes: Seq<u8>) -> u64;

/// `seahash::SeaHasher`: a new hasher, one `write` of the bytes, then `finish`. The hash is
/// a function of the bytes alone, on every machine.
#[verifier::external_body]
fn hash_bytes(bytes: &[u8]) -> (hash: u64)
    ensures
        hash == sea_hash(bytes@),
{
    let mut hasher = seahash::SeaHasher::new();
    hasher.write(bytes);
    hasher.finish()
}

/// The name of the file for a hash: sixteen hexadecimal digits.
pub fn file_name(hash: u64) -> (name: String)
    ensures
        name@ == bytes::hex(hash as nat, 16),
{
    hex_text(hash, 16)
}

/// The name of the file that keeps the credentials for a URL.
pub fn credentials_file(url: &str) -> (name: String)
    ensures
        name@ == bytes::hex(sea_hash(encode_utf8(url@)) as nat, 16),
{
    file_name(hash_bytes(url.as_bytes()))
}

/// A user name and a password in one: the length of the name in four bytes, the name, the
/// password.
pub open spec fn credentials(username: Seq<char>, password: Seq<u8>) -> Seq<u8> {
    let name = encode_utf8(username);
    bytes::low_bytes(name.len(), 4) + name + password
}

pub fn encode_credentials(username: &str, password: &[u8]) -> (plaintext: Vec<u8>)
    ensures
        plaintext@ == credentials(username@, password@),
{
    let name = username.as_bytes();
    let mut plaintext: Vec<u8> = be_bytes(name.len() as u64, 4);
    let mut name_bytes: Vec<u8> = slice_to_vec(name);
    plaintext.append(&mut name_bytes);
    let mut secret: Vec<u8> = slice_to_vec(password);
    plaintext.append(&mut secret);
    plaintext
}

/// Why stored credentials cannot be read.
#[derive(Clone, Copy, Debug, PartialEq, Eq, Structural)]
pub enum CredentialsError {
    /// The file is empty.
    Empty,
    /// The file ends within the initialisation vector.
    Truncated,
    /// The decrypted bytes end within the length or the user name.
    Corrupt,
    /// The user name is no text.
    NotText,
}

/// What the decrypted bytes hold.
pub open spec fn stored(plaintext: Seq<u8>) -> Result<(Seq<char>, Seq<u8>), CredentialsError> {
    let length = bytes::big_endian(plaintext.take(4)) as int;
    if plaintext.len() < 4 || plaintext.len() - 4 < length {
        Err(CredentialsError::Corrupt)
    } else {
        let name = plaintext.subrange(4, 4 + length);
        if valid_utf8(name) {
            Ok((decode_utf8(name), plaintext.skip(4 + length)))
        } else {
            Err(CredentialsError::NotText)
        }
    }
}

pub open spec fn stored_view(result: Result<(String, Vec<u8>), CredentialsError>) -> Result<
    (Seq<char>, Seq<u8>),
    CredentialsError,
> {
    match result {
        Ok((username, password)) => Ok((username@, password@)),
        Err(error) => Err(error),
    }
}

/// Reads the user name and the password from decrypted bytes.
pub fn decode_credentials(plaintext: &[u8]) -> (result: Result<(String, Vec<u8>), CredentialsError>)
    ensures
        stored_view(result) == stored(plaintext@),
{
    let total: usize = plaintext.len();
    if total < 4 {
        return Err(CredentialsError::Corrupt);
    }
    let head = slice_subrange(plaintext, 0, 4);
    assert(head@ =~= plaintext@.take(4));
    let length: u64 = be_number(head);
    if ((total - 4) as u64) < length {
        return Err(CredentialsError::Corrupt);
    }
    let end: usize = 4 + length as usize;
    let name = slice_to_vec(slice_subrange(plaintext, 4, end));
    let password = slice_to_vec(slice_subrange(plaintext, end, total));
    assert(password@ =~= plaintext@.skip(end as int));
    match text_from_utf8(name) {
        Some(username) => Ok((username, password)),
        None => Err(CredentialsError::NotText),
    }
}

/// What is written to the file: the length of the initialisation vector in one byte, the
/// vector, the encrypted bytes.
pub open spec fn framed(iv: Seq<u8>, ciphertext: Seq<u8>) -> Seq<u8> {
    seq![(iv.len() % 256) as u8] + iv + ciphertext
}

pub fn frame_ciphertext(iv: &[u8], ciphertext: &[u8]) -> (data: Vec<u8>)
    ensures
        data@ == framed(iv@, ciphertext@),
{
    let mut data: Vec<u8> = Vec::new();
    data.push((iv.len() % 256) as u8);
    let mut vector: Vec<u8> = slice_to_vec(iv);
    data.append(&mut vector);
    let mut rest: Vec<u8> = slice_to_vec(ciphertext);
    data.append(&mut rest);
    data
}

/// The initialisation vector and the encrypted bytes of a file.
pub open spec fn unframed(data: Seq<u8>) -> Result<(Seq<u8>, Seq<u8>), CredentialsError> {
    if data.len() == 0 {
        Err(CredentialsError::Empty)
    } else if data.len() - 1 < data[0] {
        Err(CredentialsError::Truncated)
    } else {
        Ok((data.subrange(1, 1 + data[0]), data.skip(1 + data[0])))
    }
}

pub open spec fn unframed_view(result: Result<(Vec<u8>, Vec<u8>), CredentialsError>) -> Result<
    (Seq<u8>, Seq<u8>),
    CredentialsError,
> {
    match result {
        Ok((iv, ciphertext)) => Ok((iv@, ciphertext@)),
        Err(error) => Err(error),
    }
}

pub fn split_ciphertext(data: &[u8]) -> (result: Result<(Vec<u8>, Vec<u8>), CredentialsError>)
    ensures
        unframed_view(result) == unframed(data@),
{
    if data.len() == 0 {
        return Err(CredentialsError::Empty);
    }
    let length: usize = data[0] as usize;
    let total: usize = data.len();
    if total - 1 < length {
        return Err(CredentialsError::Truncated);
    }
    let iv = slice_to_vec(slice_subrange(data, 1, 1 + length));
    let ciphertext = slice_to_vec(slice_subrange(data, 1 + length, total));
    assert(ciphertext@ =~= data@.skip(1 + length));
    Ok((iv, ciphertext))
}

/// What is written is what is read: a user name and a password come back as they were.
/// The length of the name is kept in four bytes, so a longer name is left out.
pub proof fn law_credentials_read_back(username: Seq<char>, password: Seq<u8>)
    requires
        encode_utf8(username).len() < 0x1_0000_0000,
    ensures
        stored(credentials(username, password)) == Ok::<(Seq<char>, Seq<u8>), CredentialsError>(
            (username, password),
        ),
{
    let name = encode_utf8(username);
    let all = credentials(username, password);
    bytes::lemma_byte_powers();
    bytes::law_bytes_read_back(name.len(), 4);
    assert(all.take(4) =~= bytes::low_bytes(name.len(), 4));
    assert(all.subrange(4, 4 + name.len() as int) =~= name);
    assert(all.skip(4 + name.len() as int) =~= password);
    encode_utf8_valid_utf8(username);
    encode_utf8_decode_utf8(username);
}

/// An initialisation vector and encrypted bytes come back as they were. The length of the
/// vector is kept in one byte, so a longer one is left out.
pub proof fn law_ciphertext_reads_back(iv: Seq<u8>, ciphertext: Seq<u8>)
    requires
        iv.len() < 256,
    ensures
        unframed(framed(iv, ciphertext)) == Ok::<(Seq<u8>, Seq<u8>), CredentialsError>(
            (iv, ciphertext),
        ),
{
    let all = framed(iv, ciphertext);
    assert(all[0] == iv.len());
    assert(all.subrange(1, 1 + iv.len() as int) =~= iv);
    assert(all.skip(1 + iv.len() as int) =~= ciphertext);
}

} // verus!
