//! AES in counter mode.

use crate::crypto::aes_engine::{
    spec_auth_crypt, spec_control_command, spec_iv_commands, spec_payload_commands,
    spec_setup_commands, AesControl, AesEngine, AuthCrypt,
};
use crate::crypto::regs::{AesCommand, AesReg, AesStep, AES_CTRL_DIRECTION};
use crate::crypto::words::copy_bytes;
use crate::crypto::{Crypto, CryptoError};
use vstd::prelude::*;

verus! {

/// State of an AES engine that was selected for counter mode.
pub struct AesCtr {}

/// The value of the counter width field for a counter of `len` bytes: the
/// number of its words, less one.
pub open spec fn spec_ctr_width(len: nat) -> u8 {
    (len / 4 - 1) as u8
}

/// The control of a counter mode operation with a counter of `len` bytes.
pub open spec fn spec_ctr_control(len: nat, encrypt: bool) -> AesControl {
    AesControl::Ctr { width: spec_ctr_width(len), encrypt }
}

impl Crypto<AesEngine<AesCtr>> {
    /// Starts the operation of either direction.
    fn ctr_crypt(
        &mut self,
        alg_sel: u32,
        encrypt: bool,
        key_index: u32,
        nonce: &[u8],
        ctr: &[u8],
        mdata_in: &[u8],
        mdata_out: &[u8],
    ) -> (r: Result<(AuthCrypt, AesStep), CryptoError>)
        requires
            alg_sel == 0 ==> nonce@.len() + ctr@.len() == 16 && ctr@.len() >= 4,
        ensures
            final(self)@ == old(self)@,
            spec_auth_crypt(
                r,
                alg_sel,
                spec_ctr_control(ctr@.len(), encrypt),
                key_index,
                Some(nonce@ + ctr@),
                0,
                mdata_in@.len(),
                mdata_out@.len(),
            ),
    {
        if self.is_aes_in_use(alg_sel) {
            return Err(CryptoError::AesBusy);
        }
        let width: u8 = (ctr.len() / 4 - 1) as u8;
        let mut iv = [0u8; 16];
        let nonce_len = nonce.len();
        copy_bytes(&mut iv, 0, nonce);
        copy_bytes(&mut iv, nonce_len, ctr);
        assert(iv@ =~= nonce@ + ctr@);
        self.auth_crypt(
            alg_sel,
            AesControl::Ctr { width, encrypt },
            key_index,
            Some(iv.as_slice()),
            None,
            mdata_in,
            mdata_out,
        )
    }

    /// Starts the encryption of `mdata_in` into `mdata_out` in counter
    /// mode, with the key of area `key_index`.
    ///
    /// The initialization vector is `nonce` followed by `ctr`, 16 bytes
    /// together, of which the counter has 4 or more. An engine in use
    /// refuses the start with `AesBusy`. The operation goes on through
    /// [`Crypto::auth_crypt_step`].
    pub fn ctr_encrypt(
        &mut self,
        alg_sel: u32,
        key_index: u32,
        nonce: &[u8],
        ctr: &[u8],
        mdata_in: &[u8],
        mdata_out: &[u8],
    ) -> (r: Result<(AuthCrypt, AesStep), CryptoError>)
        requires
            alg_sel == 0 ==> nonce@.len() + ctr@.len() == 16 && ctr@.len() >= 4,
        ensures
            final(self)@ == old(self)@,
            spec_auth_crypt(
                r,
                alg_sel,
                spec_ctr_control(ctr@.len(), true),
                key_index,
                Some(nonce@ + ctr@),
                0,
                mdata_in@.len(),
                mdata_out@.len(),
            ),
    {
        self.ctr_crypt(alg_sel, true, key_index, nonce, ctr, mdata_in, mdata_out)
    }

    /// Starts the decryption of `mdata_in` into `mdata_out` in counter
    /// mode, with the key of area `key_index`.
    ///
    /// The initialization vector is `nonce` followed by `ctr`, 16 bytes
    /// together, of which the counter has 4 or more. An engine in use
    /// refuses the start with `AesBusy`. The operation goes on through
    /// [`Crypto::auth_crypt_step`].
    pub fn ctr_decrypt(
        &mut self,
        alg_sel: u32,
        key_index: u32,
        nonce: &[u8],
        ctr: &[u8],
        mdata_in: &[u8],
        mdata_out: &[u8],
    ) -> (r: Result<(AuthCrypt, AesStep), CryptoError>)
        requires
            alg_sel == 0 ==> nonce@.len() + ctr@.len() == 16 && ctr@.len() >= 4,
        ensures
            final(self)@ == old(self)@,
            spec_auth_crypt(
                r,
                alg_sel,
                spec_ctr_control(ctr@.len(), false),
                key_index,
                Some(nonce@ + ctr@),
                0,
                mdata_in@.len(),
                mdata_out@.len(),
            ),
    {
        self.ctr_crypt(alg_sel, false, key_index, nonce, ctr, mdata_in, mdata_out)
    }
}

/// A decryption in counter mode presents the engine with what the
/// encryption with the same key, nonce, counter and lengths presented,
/// but for the direction bit of the control register: the initialization
/// vector, the lengths and the transfers are the same, and the control
/// value of the encryption is that of the decryption with the direction
/// bit set.
pub proof fn lemma_ctr_decrypt_mirrors_encrypt(encrypt: AuthCrypt, decrypt: AuthCrypt, width: u8)
    requires
        encrypt.control == (AesControl::Ctr { width, encrypt: true }),
        decrypt == (AuthCrypt { control: AesControl::Ctr { width, encrypt: false }, ..encrypt }),
    ensures
        spec_iv_commands(encrypt) == spec_iv_commands(decrypt),
        spec_payload_commands(encrypt) == spec_payload_commands(decrypt),
        spec_setup_commands(encrypt).len() == spec_setup_commands(decrypt).len(),
        forall|i: int|
            0 <= i < spec_setup_commands(encrypt).len() && i != spec_iv_commands(encrypt).len()
                ==> spec_setup_commands(encrypt)[i] == spec_setup_commands(decrypt)[i],
        spec_setup_commands(encrypt)[spec_iv_commands(encrypt).len() as int]
            == spec_control_command(encrypt.control),
        spec_setup_commands(decrypt)[spec_iv_commands(decrypt).len() as int]
            == spec_control_command(decrypt.control),
        spec_control_command(encrypt.control) matches AesCommand::Write { reg: re, value: ve }
            && spec_control_command(decrypt.control) matches AesCommand::Write {
            reg: rd,
            value: vd,
        } && re == AesReg::AesCtrl && rd == AesReg::AesCtrl && ve == vd | AES_CTRL_DIRECTION && vd
            & AES_CTRL_DIRECTION == 0,
{
    let w: u32 = width as u32;
    assert(((w << 7) & 0x180u32 | 0x40u32 | 0x4u32) == ((w << 7) & 0x180u32 | 0x40u32 | 0u32)
        | 0x4u32) by (bit_vector);
    assert(((w << 7) & 0x180u32 | 0x40u32 | 0u32) & 0x4u32 == 0) by (bit_vector);
}

} // verus!
