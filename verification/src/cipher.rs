//! AES-128 in CBC mode with PKCS#7 padding, as HLS uses it for segments.

use crate::error::DownloadError;
use aes::cipher::block_padding::{Pkcs7, UnpadError};
use aes::cipher::generic_array::GenericArray;
use aes::cipher::{BlockDecryptMut, KeyIvInit};
use vstd::prelude::*;

verus! {

/// `UnpadError`, the error of the cipher for a body that is no whole number
/// of blocks or is badly padded. Nothing of it is looked at.
#[verifier::external_type_specification]
#[verifier::external_body]
pub struct ExUnpadError(UnpadError);

/// The plaintext of `data` under AES-128-CBC with `key` and `iv`, its PKCS#7
/// padding removed; `None` where `data` is no whole number of blocks or the
/// padding is malformed.
pub uninterp spec fn aes128_cbc_plain(key: Seq<u8>, iv: Seq<u8>, data: Seq<u8>) -> Option<Seq<u8>>;

/// Whether a plaintext of `plain` bytes can be what is left of `data` bytes
/// of ciphertext once the padding is taken off: the ciphertext is a whole
/// number of 16-byte blocks, at least one, and the padding is 1 to 16 bytes.
pub open spec fn unpadded(data: nat, plain: nat) -> bool {
    data % 16 == 0 && data >= 16 && plain < data && data <= plain + 16
}

/// `cbc::Decryptor::<aes::Aes128>::new` on the given key and initialisation
/// vector, then `decrypt_padded_b2b_mut` with PKCS#7 padding into a buffer as
/// long as the input. The constructor needs 16 bytes for each of key and
/// vector; the result is a function of key, vector and data alone. It
/// succeeds only on a whole number of blocks, at least one, and takes 1 to 16
/// bytes of padding off the end.
#[verifier::external_body]
pub(crate) fn aes128_cbc_decrypt(key: &[u8], iv: &[u8], data: &[u8]) -> (r: Result<
    Vec<u8>,
    UnpadError,
>)
    requires
        key@.len() == 16,
        iv@.len() == 16,
    ensures
        r is Ok <==> aes128_cbc_plain(key@, iv@, data@) is Some,
        r matches Ok(plain) ==> aes128_cbc_plain(key@, iv@, data@) == Some(plain@) && unpadded(
            data@.len(),
            plain@.len(),
        ),
{
    let mut out = vec![0u8; data.len()];
    let cipher = cbc::Decryptor::<aes::Aes128>::new(
        GenericArray::from_slice(key),
        GenericArray::from_slice(iv),
    );
    cipher.decrypt_padded_b2b_mut::<Pkcs7>(data, &mut out).map(|plain| plain.to_vec())
}

/// Key and initialisation vector for a run of encrypted segments, each of
/// the 16 bytes that AES-128 asks for.
#[derive(Debug)]
pub struct AesKey {
    key: Vec<u8>,
    iv: Vec<u8>,
}

/// What an [`AesKey`] holds.
pub struct AesKeyView {
    pub key: Seq<u8>,
    pub iv: Seq<u8>,
}

impl View for AesKey {
    type V = AesKeyView;

    closed spec fn view(&self) -> AesKeyView {
        AesKeyView { key: self.key@, iv: self.iv@ }
    }
}

impl AesKeyView {
    /// Both parts have the 16 bytes that AES-128 asks for.
    pub open spec fn usable(self) -> bool {
        self.key.len() == 16 && self.iv.len() == 16
    }

    /// What decrypting `data` with this key gives: the plaintext, or nothing
    /// where `data` is no whole number of blocks or its padding is malformed.
    pub open spec fn plain(self, data: Seq<u8>) -> Option<Seq<u8>> {
        aes128_cbc_plain(self.key, self.iv, data)
    }
}

impl Clone for AesKey {
    fn clone(&self) -> (copy: Self)
        ensures
            copy@ == self@,
            copy@.usable(),
    {
        proof {
            use_type_invariant(self);
        }
        AesKey { key: self.key.clone(), iv: self.iv.clone() }
    }
}

impl AesKey {
    #[verifier::type_invariant]
    closed spec fn sized(&self) -> bool {
        self.key@.len() == 16 && self.iv@.len() == 16
    }

    /// A key from the body of the key resource and the vector that the
    /// playlist gave; none unless both have 16 bytes.
    pub fn new(key: Vec<u8>, iv: Vec<u8>) -> (k: Option<Self>)
        ensures
            k is Some <==> key@.len() == 16 && iv@.len() == 16,
            k matches Some(made) ==> made@ == (AesKeyView { key: key@, iv: iv@ }),
    {
        if key.len() == 16 && iv.len() == 16 {
            Some(AesKey { key, iv })
        } else {
            None
        }
    }

    /// The 16 bytes of the key.
    pub fn key(&self) -> (bytes: &Vec<u8>)
        ensures
            bytes@ == self@.key,
            self@.usable(),
    {
        proof {
            use_type_invariant(self);
        }
        &self.key
    }

    /// The 16 bytes of the initialisation vector.
    pub fn iv(&self) -> (bytes: &Vec<u8>)
        ensures
            bytes@ == self@.iv,
            self@.usable(),
    {
        proof {
            use_type_invariant(self);
        }
        &self.iv
    }

    /// Decrypts one segment body. Fails with `Decrypt` where the body is no
    /// whole number of blocks or its padding is malformed. The plaintext is
    /// shorter than the body by the padding, which is 1 to 16 bytes.
    pub fn decrypt(&self, data: &[u8]) -> (r: Result<Vec<u8>, DownloadError>)
        ensures
            r is Ok <==> self@.plain(data@) is Some,
            r matches Ok(plain) ==> self@.plain(data@) == Some(plain@) && unpadded(
                data@.len(),
                plain@.len(),
            ),
            r matches Err(e) ==> e is Decrypt,
    {
        proof {
            use_type_invariant(self);
        }
        match aes128_cbc_decrypt(self.key.as_slice(), self.iv.as_slice(), data) {
            Ok(plain) => Ok(plain),
            Err(_) => Err(DownloadError::Decrypt),
        }
    }
}

} // verus!
