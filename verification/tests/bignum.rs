use cc2538_hal::crypto::bignum::BigNum;
use cc2538_hal::crypto::regs::PKA_FUNCTION_RUN;
use cc2538_hal::crypto::{Crypto, CryptoError, NotSpecified};
use std::cmp::Ordering;

fn number<const N: usize>(words: &[u32]) -> BigNum<N> {
    let mut n = BigNum::<N>::new(words.len());
    n.inner_mut().copy_from_slice(words);
    n
}

fn engine_done(crypto: &mut Crypto<NotSpecified>, msw: u32, shift: u32, compare: u32) {
    let pka = crypto.pka_mut();
    pka.function &= !PKA_FUNCTION_RUN;
    pka.msw = msw;
    pka.shift = shift;
    pka.compare = compare;
}

#[test]
fn bignum_new_is_zero() {
    let n = BigNum::<16>::new(5);
    assert_eq!(n.inner(), &[0u32; 5]);
    let n = BigNum::<16>::new(0);
    assert_eq!(n.inner(), &[0u32; 0]);
    let n = BigNum::<16>::new(16);
    assert_eq!(n.inner().len(), 16);
}

#[test]
fn bignum_inner_mut_writes_through() {
    let mut n = BigNum::<16>::new(5);
    n.inner_mut()[..4].copy_from_slice(&[0xff; 4]);
    assert_eq!(n.inner(), &[0xff, 0xff, 0xff, 0xff, 0]);
    assert_eq!(n.inner_mut().len(), 5);
}

#[test]
fn bignum_set_size_keeps_the_words() {
    let mut n = number::<8>(&[1, 2, 3, 4]);
    n.set_size(2);
    assert_eq!(n.inner(), &[1, 2]);
    n.set_size(4);
    assert_eq!(n.inner(), &[1, 2, 3, 4]);
    n.set_size(8);
    assert_eq!(n.inner(), &[1, 2, 3, 4, 0, 0, 0, 0]);
    n.set_size(0);
    assert_eq!(n.inner().len(), 0);
}

#[test]
fn bignum_equality_compares_size_and_words() {
    assert_eq!(number::<8>(&[1, 2]), number::<8>(&[1, 2]));
    assert_ne!(number::<8>(&[1, 2]), number::<8>(&[1, 2, 0]));
    assert_ne!(number::<8>(&[1, 2]), number::<8>(&[1, 3]));
}

#[test]
fn bignum_add_starts_the_addition() {
    let mut crypto = Crypto::new();
    let a = number::<16>(&[4]);
    let b = number::<16>(&[0xff, 0xff, 0xff, 0xff, 0]);
    assert_eq!(a.add(&b, &mut crypto), Ok(()));
    let pka = crypto.pka();
    assert_eq!((pka.aptr, pka.bptr, pka.cptr), (0, 2, 8));
    assert_eq!((pka.alength, pka.blength), (1, 5));
    assert_eq!(pka.function, 0x8010);
    assert_eq!(pka.ram.word(0), 4);
    assert_eq!(pka.ram.word(2), 0xff);
    assert_eq!(pka.ram.word(5), 0xff);
    assert_eq!(pka.ram.word(6), 0);
}

#[test]
fn bignum_add_of_numbers_with_different_room() {
    let mut crypto = Crypto::new();
    let a = number::<4>(&[1, 2]);
    let b = number::<32>(&[3]);
    assert_eq!(a.add(&b, &mut crypto), Ok(()));
    assert_eq!(crypto.pka().blength, 1);
    crypto.pka_mut().ram.write_slice(&[4, 2], 16);
    engine_done(&mut crypto, 5, 0, 0);
    let sum: BigNum<4> = a.add_result(&b, &crypto).unwrap();
    assert_eq!(sum.inner(), &[4, 2]);
}

#[test]
fn bignum_add_result_has_the_length_that_the_engine_reports() {
    let mut crypto = Crypto::new();
    let a = number::<16>(&[0xffff_ffff, 0xffff_ffff]);
    let b = number::<16>(&[1]);
    a.add(&b, &mut crypto).unwrap();
    assert_eq!(crypto.pka().cptr, 4);
    crypto.pka_mut().ram.write_slice(&[0, 0, 1], 16);
    engine_done(&mut crypto, 6, 0, 0);
    let sum = a.add_result(&b, &crypto).unwrap();
    assert_eq!(sum.inner(), &[0, 0, 1]);
    assert_eq!(sum, number::<16>(&[0, 0, 1]));
}

#[test]
fn bignum_add_result_while_running_is_busy() {
    let mut crypto = Crypto::new();
    let a = number::<16>(&[1]);
    let b = number::<16>(&[1]);
    a.add(&b, &mut crypto).unwrap();
    assert_eq!(a.add_result(&b, &crypto), Err(CryptoError::PkaBusy));
    assert_eq!(a.add(&b, &mut crypto), Err(CryptoError::PkaBusy));
}

#[test]
fn bignum_add_result_longer_than_the_sum_can_be_is_a_failure() {
    let mut crypto = Crypto::new();
    let a = number::<16>(&[1, 1]);
    let b = number::<16>(&[1]);
    a.add(&b, &mut crypto).unwrap();
    // A sum of a number of two words has at most three words.
    engine_done(&mut crypto, 4 + 3, 0, 0);
    assert_eq!(a.add_result(&b, &crypto), Err(CryptoError::PkaFailure));
    engine_done(&mut crypto, 4 + 2, 0, 0);
    assert_eq!(a.add_result(&b, &crypto).unwrap().inner().len(), 3);
}

#[test]
fn bignum_sub_result_of_zero_is_empty() {
    let mut crypto = Crypto::new();
    let a = number::<16>(&[7, 7]);
    assert_eq!(a.sub(&a, &mut crypto), Ok(()));
    assert_eq!(crypto.pka().function, 0x8020);
    engine_done(&mut crypto, 0x8000, 0, 0);
    let difference = a.sub_result(&a, &crypto).unwrap();
    assert_eq!(difference.inner().len(), 0);
    assert_eq!(difference, BigNum::<16>::new(0));
}

#[test]
fn bignum_sub_result_reads_the_difference() {
    let mut crypto = Crypto::new();
    let a = number::<16>(&[0xff, 0xff, 0xff, 0xff, 0]);
    let b = number::<16>(&[4]);
    a.sub(&b, &mut crypto).unwrap();
    assert_eq!((crypto.pka().bptr, crypto.pka().cptr), (6, 8));
    crypto.pka_mut().ram.write_slice(&[0xfb, 0xff, 0xff, 0xff], 32);
    engine_done(&mut crypto, 11, 0, 0);
    assert_eq!(a.sub_result(&b, &crypto).unwrap().inner(), &[0xfb, 0xff, 0xff, 0xff]);
}

#[test]
fn bignum_add_sub_runs_on_three_numbers() {
    let mut crypto = Crypto::new();
    let a = number::<16>(&[0xff, 0xff, 0xff, 0xff, 0]);
    let c = number::<16>(&[42, 0, 0, 0, 0]);
    let b = number::<16>(&[4]);
    assert_eq!(a.add_sub(&c, &b, &mut crypto), Ok(()));
    let pka = crypto.pka();
    assert_eq!((pka.aptr, pka.bptr, pka.cptr, pka.dptr), (0, 6, 12, 18));
    assert_eq!(pka.alength, 5);
    assert_eq!(pka.function, 0x8002);
    assert_eq!(pka.ram.word(6), 4);
    assert_eq!(pka.ram.word(7), 0);
    assert_eq!(pka.ram.word(12), 42);
    crypto.pka_mut().ram.write_slice(&[0x125, 0xff, 0xff, 0xff], 72);
    engine_done(&mut crypto, 21, 0, 0);
    assert_eq!(
        a.add_sub_result(&c, &b, &crypto).unwrap().inner(),
        &[0x125, 0xff, 0xff, 0xff]
    );
}

#[test]
fn bignum_mul_result_reads_the_product() {
    let mut crypto = Crypto::new();
    let a = number::<16>(&[4]);
    let b = number::<16>(&[0xff, 0xff, 0xff, 0xff, 0]);
    assert_eq!(a.mul(&b, &mut crypto), Ok(()));
    assert_eq!(crypto.pka().function, 0x8001);
    crypto.pka_mut().ram.write_slice(&[0x3fc, 0x3fc, 0x3fc, 0x3fc], 32);
    engine_done(&mut crypto, 11, 0, 0);
    assert_eq!(a.mul_result(&b, &crypto).unwrap().inner(), &[0x3fc; 4]);
}

#[test]
fn bignum_modulo_result_has_one_word_more_than_the_modulus() {
    let mut crypto = Crypto::new();
    let a = number::<16>(&[0xff, 0xff, 0xff, 0xff, 0]);
    let b = number::<16>(&[4]);
    assert_eq!(a.modulo(&b, &mut crypto), Ok(()));
    assert_eq!(crypto.pka().function, 0x8200);
    assert_eq!(crypto.pka().cptr, 8);
    crypto.pka_mut().ram.write_slice(&[3, 0], 32);
    engine_done(&mut crypto, 8, 0, 0);
    let remainder = BigNum::<16>::modulo_result(&b, &crypto).unwrap();
    assert_eq!(remainder.inner(), &[3, 0]);
}

#[test]
fn bignum_inv_mod_reports_no_solution() {
    let mut crypto = Crypto::new();
    let a = number::<16>(&[4]);
    let m = number::<16>(&[8]);
    assert_eq!(a.inv_mod(&m, &mut crypto), Ok(()));
    assert_eq!(crypto.pka().function, 0xf000);
    engine_done(&mut crypto, 4, 7, 0);
    assert_eq!(BigNum::<16>::inv_mod_result(&m, &crypto), Err(CryptoError::NoSolution));
}

#[test]
fn bignum_inv_mod_result_keeps_one_word_more_than_the_modulus() {
    let mut crypto = Crypto::new();
    let a = number::<16>(&[3]);
    let m = number::<16>(&[7]);
    a.inv_mod(&m, &mut crypto).unwrap();
    assert_eq!(crypto.pka().cptr, 4);
    crypto.pka_mut().ram.set_word(4, 5);
    engine_done(&mut crypto, 4, 0, 0);
    let inverse = BigNum::<16>::inv_mod_result(&m, &crypto).unwrap();
    assert_eq!(inverse.inner(), &[5, 0]);
}

#[test]
fn bignum_inv_mod_failure_status() {
    let mut crypto = Crypto::new();
    let a = number::<16>(&[3]);
    let m = number::<16>(&[7]);
    a.inv_mod(&m, &mut crypto).unwrap();
    engine_done(&mut crypto, 4, 31, 0);
    assert_eq!(BigNum::<16>::inv_mod_result(&m, &crypto), Err(CryptoError::PkaFailure));
}

#[test]
fn bignum_exp_result_has_all_the_room() {
    let mut crypto = Crypto::new();
    let exponent = number::<16>(&[4]);
    let modulus = number::<16>(&[0xff, 0xff, 0xff, 0xff, 0]);
    let base = number::<16>(&[0x0f; 4]);
    assert_eq!(exponent.exp(&modulus, &base, &mut crypto), Ok(()));
    let pka = crypto.pka();
    assert_eq!((pka.bptr, pka.cptr, pka.dptr), (2, 8, 8));
    assert_eq!(pka.function, 0xa000);
    crypto.pka_mut().ram.write_slice(&[0x11, 0x22], 32);
    engine_done(&mut crypto, 9, 0, 0);
    let power = BigNum::<16>::exp_result(&crypto).unwrap();
    assert_eq!(power.inner().len(), 16);
    assert_eq!(&power.inner()[..3], &[0x11, 0x22, 0]);
}

#[test]
fn bignum_compare_reads_the_flags() {
    let mut crypto = Crypto::new();
    let a = number::<16>(&[4]);
    let b = number::<16>(&[0xff, 0xff, 0xff, 0xff, 0]);
    assert_eq!(a.compare(&b, &mut crypto), Ok(()));
    assert_eq!(crypto.pka().function, 0x8400);
    // Both numbers are laid out at five words.
    assert_eq!((crypto.pka().alength, crypto.pka().cptr), (5, 6));
    assert_eq!(crypto.pka().ram.word(0), 4);
    assert_eq!(crypto.pka().ram.word(6), 0xff);
    assert_eq!(a.compare_result(&crypto), Ok(None));
    engine_done(&mut crypto, 0, 0, 2);
    assert_eq!(a.compare_result(&crypto), Ok(Some(Ordering::Less)));
    engine_done(&mut crypto, 0, 0, 4);
    assert_eq!(a.compare_result(&crypto), Ok(Some(Ordering::Greater)));
    engine_done(&mut crypto, 0, 0, 1);
    assert_eq!(a.compare_result(&crypto), Ok(Some(Ordering::Equal)));
    engine_done(&mut crypto, 0, 0, 0);
    assert_eq!(a.compare_result(&crypto), Err(CryptoError::PkaFailure));
}

#[test]
fn bignum_set_size_brings_the_stored_words_back() {
    let mut n = number::<8>(&[1, 2, 3, 4, 5]);
    n.set_size(1);
    assert_eq!(n.inner(), &[1]);
    n.set_size(5);
    assert_eq!(n.inner(), &[1, 2, 3, 4, 5]);
    n.set_size(0);
    n.set_size(8);
    assert_eq!(n.inner(), &[1, 2, 3, 4, 5, 0, 0, 0]);
}

#[test]
fn bignum_add_then_sub_lay_the_added_number_out_alike() {
    // The sum and the number that was added go back to the engine as the
    // operands of the subtraction, word for word.
    let mut crypto = Crypto::new();
    let a = number::<16>(&[0xffff_ffff, 1]);
    let b = number::<16>(&[2, 3]);
    a.add(&b, &mut crypto).unwrap();
    crypto.pka_mut().ram.write_slice(&[1, 5], 16);
    engine_done(&mut crypto, 5, 0, 0);
    let sum = a.add_result(&b, &crypto).unwrap();
    assert_eq!(sum.inner(), &[1, 5]);
    sum.sub(&b, &mut crypto).unwrap();
    let pka = crypto.pka();
    assert_eq!((pka.ram.word(0), pka.ram.word(1)), (1, 5));
    assert_eq!((pka.ram.word(2), pka.ram.word(3)), (2, 3));
}

#[test]
fn bignum_built_by_the_library_is_valid() {
    assert!(BigNum::<4>::new(4).is_valid());
    assert!(BigNum::<4>::new(0).is_valid());
    let mut n = number::<4>(&[1, 2]);
    n.set_size(3);
    assert!(n.is_valid());
}
