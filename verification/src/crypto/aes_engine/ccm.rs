//! AES in CCM mode: counter mode with a CBC-MAC.

use crate::crypto::aes_engine::{
    spec_auth_crypt, spec_auth_length_commands, spec_iv_commands, spec_transfer_commands,
    AesControl, AesEngine, AuthCrypt,
};
use crate::crypto::regs::AesStep;
use crate::crypto::words::copy_bytes;
use crate::crypto::{Crypto, CryptoError};
use vstd::prelude::*;

verus! {

/// State of an AES engine that was selected for CCM.
pub struct AesCcm {}

/// Parameters of a CCM operation.
#[derive(Debug, Clone, Copy)]
pub struct AesCcmInfo<'a> {
    key_index: u32,
    len_field_size: u8,
    auth_field_size: u8,
    adata: Option<&'a [u8]>,
}

/// What an [`AesCcmInfo`] holds.
pub struct AesCcmInfoView {
    /// The area of the key store that holds the key.
    pub key_index: u32,
    /// Size of the length field in bytes.
    pub len_field_size: u8,
    /// Size of the authentication field in bytes.
    pub auth_field_size: u8,
    /// The associated data, if there is any.
    pub adata: Option<Seq<u8>>,
}

/// Number of bytes that the nonce and the length field take together.
pub const CCM_NONCE_LEN: usize = 15;

/// How the control register takes an authentication field of
/// `auth_field_size` bytes: half of what the size is above 2, and 0 for a
/// size below 2.
pub open spec fn spec_ccm_m(auth_field_size: u8) -> u8 {
    if auth_field_size <= 2 {
        0
    } else {
        ((auth_field_size - 2) / 2) as u8
    }
}

/// How the control register takes a length field of `len_field_size`
/// bytes: the size less one.
pub open spec fn spec_ccm_l(len_field_size: u8) -> u8 {
    (len_field_size - 1) as u8
}

/// The control of a CCM operation.
pub open spec fn spec_ccm_control(info: AesCcmInfoView, encrypt: bool) -> AesControl {
    AesControl::Ccm {
        m: spec_ccm_m(info.auth_field_size),
        l: spec_ccm_l(info.len_field_size),
        encrypt,
    }
}

/// The initialization vector of a CCM operation: the size of the length
/// field less one, the nonce, and zeros in place of the length field.
pub open spec fn spec_ccm_iv(len_field_size: u8, nonce: Seq<u8>) -> Seq<u8> {
    seq![(len_field_size - 1) as u8] + nonce + Seq::new(len_field_size as nat, |i: int| 0u8)
}

/// Number of bytes of the associated data of `info`.
pub open spec fn spec_ccm_auth_len(info: AesCcmInfoView) -> nat {
    match info.adata {
        Some(adata) => adata.len(),
        None => 0,
    }
}

impl<'a> View for AesCcmInfo<'a> {
    type V = AesCcmInfoView;

    closed spec fn view(&self) -> AesCcmInfoView {
        AesCcmInfoView {
            key_index: self.key_index,
            len_field_size: self.len_field_size,
            auth_field_size: self.auth_field_size,
            adata: match self.adata {
                Some(adata) => Some(adata@),
                None => None,
            },
        }
    }
}

impl<'a> AesCcmInfo<'a> {
    /// The parameters of an operation without associated data.
    pub fn new(key_index: u32, len_field_size: u8, auth_field_size: u8) -> (info: Self)
        ensures
            info@ == (AesCcmInfoView {
                key_index,
                len_field_size,
                auth_field_size,
                adata: None,
            }),
    {
        Self { key_index, len_field_size, auth_field_size, adata: None }
    }

    /// The area of the key store that holds the key.
    pub fn key_index(&self) -> (key_index: u32)
        ensures
            key_index == self@.key_index,
    {
        self.key_index
    }

    /// Size of the length field in bytes.
    pub fn len_field_size(&self) -> (size: u8)
        ensures
            size == self@.len_field_size,
    {
        self.len_field_size
    }

    /// Size of the authentication field in bytes.
    pub fn auth_field_size(&self) -> (size: u8)
        ensures
            size == self@.auth_field_size,
    {
        self.auth_field_size
    }

    /// The associated data, if there is any.
    pub fn adata(&self) -> (adata: Option<&'a [u8]>)
        ensures
            match adata {
                Some(adata) => self@.adata == Some(adata@),
                None => self@.adata is None,
            },
    {
        self.adata
    }

    /// The same parameters with the associated data `adata`.
    pub fn with_added_auth_data(self, adata: &'a [u8]) -> (info: Self)
        ensures
            info@ == (AesCcmInfoView { adata: Some(adata@), ..self@ }),
    {
        Self { adata: Some(adata), ..self }
    }
}

impl Crypto<AesEngine<AesCcm>> {
    /// Starts a CCM operation under `control`: prepares the initialization
    /// vector from the size of the length field and `nonce`, and starts the
    /// cipher with the key and the associated data of `ccm_info`.
    pub fn ccm_crypt(
        &mut self,
        alg_sel: u32,
        control: AesControl,
        ccm_info: &AesCcmInfo,
        nonce: &[u8],
        data_in: &[u8],
        data_out: &[u8],
    ) -> (r: Result<(AuthCrypt, AesStep), CryptoError>)
        requires
            alg_sel == 0 ==> 1 <= ccm_info@.len_field_size <= CCM_NONCE_LEN && nonce@.len()
                == CCM_NONCE_LEN - ccm_info@.len_field_size,
        ensures
            final(self)@ == old(self)@,
            spec_auth_crypt(
                r,
                alg_sel,
                control,
                ccm_info@.key_index,
                Some(spec_ccm_iv(ccm_info@.len_field_size, nonce@)),
                spec_ccm_auth_len(ccm_info@),
                data_in@.len(),
                data_out@.len(),
            ),
    {
        // Prepare the IV.
        // The first part is the length of the data minus 1.
        // The following part is the nonce.
        // And the rest is the counter.
        if self.is_aes_in_use(alg_sel) {
            return Err(CryptoError::AesBusy);
        }
        let mut iv = [0u8; 16];
        iv[0] = ccm_info.len_field_size - 1;
        copy_bytes(&mut iv, 1, nonce);
        assert(iv@ =~= spec_ccm_iv(ccm_info@.len_field_size, nonce@));
        self.auth_crypt(
            alg_sel,
            control,
            ccm_info.key_index,
            Some(iv.as_slice()),
            ccm_info.adata,
            data_in,
            data_out,
        )
    }

    /// Starts the encryption of `data_in` into `data_out` in CCM mode.
    ///
    /// The operation goes on through [`Crypto::auth_crypt_step`]. Its last
    /// step reads the four words of the authentication tag, which
    /// [`Crypto::read_tag`] turns into bytes.
    pub fn ccm_encrypt(
        &mut self,
        alg_sel: u32,
        ccm_info: &AesCcmInfo,
        nonce: &[u8],
        data_in: &[u8],
        data_out: &[u8],
    ) -> (r: Result<(AuthCrypt, AesStep), CryptoError>)
        requires
            alg_sel == 0 ==> 1 <= ccm_info@.len_field_size <= CCM_NONCE_LEN && nonce@.len()
                == CCM_NONCE_LEN - ccm_info@.len_field_size,
        ensures
            final(self)@ == old(self)@,
            spec_auth_crypt(
                r,
                alg_sel,
                spec_ccm_control(ccm_info@, true),
                ccm_info@.key_index,
                Some(spec_ccm_iv(ccm_info@.len_field_size, nonce@)),
                spec_ccm_auth_len(ccm_info@),
                data_in@.len(),
                data_out@.len(),
            ),
    {
        if self.is_aes_in_use(alg_sel) {
            return Err(CryptoError::AesBusy);
        }
        let m = ccm_m(ccm_info.auth_field_size);
        let l = ccm_info.len_field_size - 1;
        self.ccm_crypt(
            alg_sel,
            AesControl::Ccm { m, l, encrypt: true },
            ccm_info,
            nonce,
            data_in,
            data_out,
        )
    }

    /// Starts the decryption of `data_in` into `data_out` in CCM mode.
    ///
    /// The operation goes on through [`Crypto::auth_crypt_step`].
    pub fn ccm_decrypt(
        &mut self,
        alg_sel: u32,
        ccm_info: &AesCcmInfo,
        nonce: &[u8],
        data_in: &[u8],
        data_out: &[u8],
    ) -> (r: Result<(AuthCrypt, AesStep), CryptoError>)
        requires
            alg_sel == 0 ==> 1 <= ccm_info@.len_field_size <= CCM_NONCE_LEN && nonce@.len()
                == CCM_NONCE_LEN - ccm_info@.len_field_size,
        ensures
            final(self)@ == old(self)@,
            spec_auth_crypt(
                r,
                alg_sel,
                spec_ccm_control(ccm_info@, false),
                ccm_info@.key_index,
                Some(spec_ccm_iv(ccm_info@.len_field_size, nonce@)),
                spec_ccm_auth_len(ccm_info@),
                data_in@.len(),
                data_out@.len(),
            ),
    {
        if self.is_aes_in_use(alg_sel) {
            return Err(CryptoError::AesBusy);
        }
        let m = ccm_m(ccm_info.auth_field_size);
        let l = ccm_info.len_field_size - 1;
        self.ccm_crypt(
            alg_sel,
            AesControl::Ccm { m, l, encrypt: false },
            ccm_info,
            nonce,
            data_in,
            data_out,
        )
    }
}

/// How the control register takes an authentication field of
/// `auth_field_size` bytes.
fn ccm_m(auth_field_size: u8) -> (m: u8)
    ensures
        m == spec_ccm_m(auth_field_size),
{
    let size: u8 = if auth_field_size < 2 {
        2
    } else {
        auth_field_size
    };
    (size - 2) / 2
}

/// A decryption in CCM mode presents the engine with what the encryption
/// with the same parameters, nonce and lengths presented: the same
/// initialization vector, the same length of the associated data and the
/// same transfers of input and output.
pub proof fn lemma_ccm_decrypt_mirrors_encrypt(encrypt: AuthCrypt, decrypt: AuthCrypt, m: u8, l: u8)
    requires
        encrypt.control == (AesControl::Ccm { m, l, encrypt: true }),
        decrypt == (AuthCrypt { control: AesControl::Ccm { m, l, encrypt: false }, ..encrypt }),
    ensures
        spec_iv_commands(encrypt) == spec_iv_commands(decrypt),
        spec_auth_length_commands(encrypt) == spec_auth_length_commands(decrypt),
        spec_transfer_commands(encrypt) == spec_transfer_commands(decrypt),
{
}

} // verus!
