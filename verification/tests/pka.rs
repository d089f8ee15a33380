use cc2538_hal::crypto::regs::{
    PKA_FUNCTION_ADD, PKA_FUNCTION_ADDSUB, PKA_FUNCTION_COMPARE, PKA_FUNCTION_MODULO,
    PKA_FUNCTION_MULTIPLY, PKA_FUNCTION_RUN, PKA_FUNCTION_SUBTRACT, PKA_SEQ_EXP, PKA_SEQ_INV_MOD,
};
use cc2538_hal::crypto::bignum::{fill_zeros, fits_three, fits_two};
use cc2538_hal::crypto::{Crypto, CryptoError, NotSpecified, Pka, PkaRam, PKA_RAM_SIZE};
use std::cmp::Ordering;

fn idle() -> Crypto<NotSpecified> {
    Crypto::new()
}

/// Lets the image look as the engine would leave it: not running, with the
/// given status registers.
fn finish(crypto: &mut Crypto<NotSpecified>, msw: u32, shift: u32, compare: u32) {
    let pka: &mut Pka = crypto.pka_mut();
    pka.function &= !PKA_FUNCTION_RUN;
    pka.msw = msw;
    pka.shift = shift;
    pka.compare = compare;
}

fn ram_words(crypto: &Crypto<NotSpecified>, from: usize, len: usize) -> Vec<u32> {
    (from..from + len).map(|i| crypto.pka().ram.word(i)).collect()
}

#[test]
fn ram_starts_with_zeros() {
    let ram = PkaRam::new();
    for i in 0..512 {
        assert_eq!(ram.word(i), 0);
    }
}

#[test]
fn ram_write_returns_bytes_rounded_up_to_eight() {
    let mut ram = PkaRam::new();
    assert_eq!(ram.write_slice(&[], 0), 0);
    assert_eq!(ram.write_slice(&[1], 0), 8);
    assert_eq!(ram.write_slice(&[1, 2], 0), 8);
    assert_eq!(ram.write_slice(&[1, 2, 3], 8), 16);
    assert_eq!(ram.write_slice(&[1, 2, 3, 4], 8), 16);
    assert_eq!(ram.write_slice(&[0; 6], 16), 24);
    assert_eq!(ram.write_slice(&[0; 8], 16), 32);
}

#[test]
fn ram_write_stores_words_at_the_offset() {
    let mut ram = PkaRam::new();
    ram.write_slice(&[0xaaaa_0001, 0xaaaa_0002, 0xaaaa_0003], 16);
    assert_eq!(ram.word(3), 0);
    assert_eq!(ram.word(4), 0xaaaa_0001);
    assert_eq!(ram.word(5), 0xaaaa_0002);
    assert_eq!(ram.word(6), 0xaaaa_0003);
    assert_eq!(ram.word(7), 0);
}

#[test]
fn ram_write_keeps_the_other_words() {
    let mut ram = PkaRam::new();
    ram.write_slice(&[1, 2, 3, 4], 0);
    ram.write_slice(&[9], 8);
    assert_eq!(ram.word(0), 1);
    assert_eq!(ram.word(1), 2);
    assert_eq!(ram.word(2), 9);
    assert_eq!(ram.word(3), 4);
}

#[test]
fn ram_read_copies_words_out() {
    let mut ram = PkaRam::new();
    ram.write_slice(&[10, 11, 12, 13, 14], 24);
    let mut dest = [0u32; 3];
    ram.read_slice(&mut dest, 28);
    assert_eq!(dest, [11, 12, 13]);
}

#[test]
fn ram_takes_the_longest_vector_that_the_bound_allows() {
    // 511 words at offset 0 end at byte 2044, just below the size.
    let mut ram = PkaRam::new();
    let data: Vec<u32> = (0..511).collect();
    assert!(data.len() * 4 < PKA_RAM_SIZE);
    assert_eq!(ram.write_slice(&data, 0), 2048);
    assert_eq!(ram.word(510), 510);
    let mut dest = vec![0u32; 511];
    ram.read_slice(&mut dest, 0);
    assert_eq!(dest, data);
}

#[test]
fn ram_set_word_changes_one_word() {
    let mut ram = PkaRam::new();
    ram.set_word(511, 7);
    assert_eq!(ram.word(511), 7);
    assert_eq!(ram.word(510), 0);
}

#[test]
fn new_engine_is_idle() {
    let crypto = idle();
    assert!(!crypto.is_pka_in_use());
    let pka = crypto.pka();
    assert_eq!(
        (pka.aptr, pka.bptr, pka.cptr, pka.dptr, pka.alength, pka.blength),
        (0, 0, 0, 0, 0, 0)
    );
    assert_eq!((pka.shift, pka.function, pka.compare, pka.msw), (0, 0, 0, 0));
}

#[test]
fn engine_is_in_use_while_the_run_bit_is_set() {
    let mut crypto = idle();
    crypto.pka_mut().function = PKA_FUNCTION_RUN;
    assert!(crypto.is_pka_in_use());
    crypto.pka_mut().function = PKA_FUNCTION_ADD;
    assert!(!crypto.is_pka_in_use());
}

#[test]
fn aes_is_in_use_while_an_algorithm_is_selected() {
    let crypto = idle();
    assert!(!crypto.is_aes_in_use(0));
    assert!(crypto.is_aes_in_use(2));
    assert!(crypto.is_aes_in_use(0x8000_0004));
}

#[test]
fn aes_is_completed_when_the_result_is_available() {
    let crypto = idle();
    assert!(crypto.is_aes_completed(1));
    assert!(crypto.is_aes_completed(0x8000_0003));
    assert!(!crypto.is_aes_completed(2));
}

#[test]
fn add_lays_out_both_operands() {
    let mut crypto = idle();
    assert_eq!(crypto.add(&[4, 0, 0, 0], &[0xff, 0xff, 0xff, 0xff]), Ok(()));
    let pka = crypto.pka();
    assert_eq!(pka.aptr, 0);
    assert_eq!(pka.bptr, 4);
    assert_eq!(pka.cptr, 8);
    assert_eq!(pka.alength, 4);
    assert_eq!(pka.blength, 4);
    assert_eq!(pka.function, 0x8010);
    assert_eq!(pka.function, PKA_FUNCTION_ADD | PKA_FUNCTION_RUN);
    assert_eq!(ram_words(&crypto, 0, 9), vec![4, 0, 0, 0, 0xff, 0xff, 0xff, 0xff, 0]);
}

#[test]
fn add_pads_an_odd_operand_to_an_even_word() {
    let mut crypto = idle();
    assert_eq!(crypto.add(&[1, 2, 3], &[9]), Ok(()));
    let pka = crypto.pka();
    assert_eq!((pka.aptr, pka.bptr, pka.cptr), (0, 4, 6));
    assert_eq!((pka.alength, pka.blength), (3, 1));
    assert_eq!(ram_words(&crypto, 0, 6), vec![1, 2, 3, 0, 9, 0]);
}

#[test]
fn add_leaves_the_status_registers() {
    let mut crypto = idle();
    {
        let pka = crypto.pka_mut();
        pka.dptr = 77;
        pka.msw = 0x1234;
        pka.shift = 5;
        pka.compare = 2;
    }
    assert_eq!(crypto.add(&[1], &[2]), Ok(()));
    let pka = crypto.pka();
    assert_eq!((pka.dptr, pka.msw, pka.shift, pka.compare), (77, 0x1234, 5, 2));
}

#[test]
fn start_on_a_running_engine_is_refused_and_changes_nothing() {
    let mut crypto = idle();
    assert_eq!(crypto.add(&[1, 2], &[3, 4]), Ok(()));
    assert!(crypto.is_pka_in_use());
    let before: Vec<u32> = ram_words(&crypto, 0, 512);
    let regs = {
        let p = crypto.pka();
        (p.aptr, p.bptr, p.cptr, p.dptr, p.alength, p.blength, p.shift, p.function, p.compare, p.msw)
    };

    assert_eq!(crypto.add(&[7; 5], &[8; 5]), Err(CryptoError::PkaBusy));
    assert_eq!(crypto.sub(&[7; 5], &[8; 5]), Err(CryptoError::PkaBusy));
    assert_eq!(crypto.mul(&[7; 5], &[8; 5]), Err(CryptoError::PkaBusy));
    assert_eq!(crypto.modulo(&[7; 5], &[8; 5]), Err(CryptoError::PkaBusy));
    assert_eq!(crypto.inv_modulo(&[7; 5], &[8; 5]), Err(CryptoError::PkaBusy));
    assert_eq!(crypto.add_sub(&[7; 5], &[8; 5], &[9; 5]), Err(CryptoError::PkaBusy));
    assert_eq!(crypto.exp(&[7; 5], &[8; 5], &[9; 5]), Err(CryptoError::PkaBusy));
    assert_eq!(crypto.cmp(&[7; 5], &[8; 5]), Err(CryptoError::PkaBusy));

    let after = {
        let p = crypto.pka();
        (p.aptr, p.bptr, p.cptr, p.dptr, p.alength, p.blength, p.shift, p.function, p.compare, p.msw)
    };
    assert_eq!(regs, after);
    assert_eq!(ram_words(&crypto, 0, 512), before);
}

#[test]
fn results_are_refused_while_the_engine_runs() {
    let mut crypto = idle();
    assert_eq!(crypto.add(&[1, 2], &[3, 4]), Ok(()));
    let mut result = [5u32; 4];
    assert_eq!(crypto.add_result(&mut result), Err(CryptoError::PkaBusy));
    assert_eq!(crypto.sub_result(&mut result), Err(CryptoError::PkaBusy));
    assert_eq!(crypto.mul_result(&mut result), Err(CryptoError::PkaBusy));
    assert_eq!(crypto.add_sub_result(&mut result), Err(CryptoError::PkaBusy));
    assert_eq!(crypto.modulo_result(&mut result), Err(CryptoError::PkaBusy));
    assert_eq!(crypto.inv_modulo_result(&mut result), Err(CryptoError::PkaBusy));
    assert_eq!(crypto.exp_result(&mut result), Err(CryptoError::PkaBusy));
    assert_eq!(crypto.cmp_result(), Ok(None));
    assert_eq!(result, [5; 4]);
}

#[test]
fn add_result_reads_up_to_the_most_significant_word() {
    let mut crypto = idle();
    crypto.add(&[0xffff_ffff, 0xffff_ffff], &[1]).unwrap();
    // The engine leaves 0, 0, 1 from vector C on, which starts at word 4.
    assert_eq!(crypto.pka().cptr, 4);
    crypto.pka_mut().ram.write_slice(&[0, 0, 1], 16);
    finish(&mut crypto, 6, 0, 0);
    let mut result = [0xdead_beefu32; 5];
    assert_eq!(crypto.add_result(&mut result), Ok(3));
    assert_eq!(result, [0, 0, 1, 0xdead_beef, 0xdead_beef]);
}

#[test]
fn add_result_of_one_word() {
    let mut crypto = idle();
    crypto.add(&[2], &[3]).unwrap();
    assert_eq!(crypto.pka().cptr, 4);
    crypto.pka_mut().ram.set_word(4, 5);
    finish(&mut crypto, 4, 0, 0);
    let mut result = [9u32; 2];
    assert_eq!(crypto.add_result(&mut result), Ok(1));
    assert_eq!(result, [5, 9]);
}

#[test]
fn result_of_zero_has_length_zero_and_clears_the_buffer() {
    let mut crypto = idle();
    crypto.sub(&[3, 1], &[3, 1]).unwrap();
    // A non-zero address together with the zero flag still means zero.
    finish(&mut crypto, 0x8000 | 5, 0, 0);
    let mut result = [7u32; 4];
    assert_eq!(crypto.sub_result(&mut result), Ok(0));
    assert_eq!(result, [0; 4]);
}

#[test]
fn result_that_ends_before_its_start_is_a_failure() {
    let mut crypto = idle();
    crypto.add(&[1, 2], &[3, 4]).unwrap();
    assert_eq!(crypto.pka().cptr, 4);
    finish(&mut crypto, 3, 0, 0);
    let mut result = [7u32; 4];
    assert_eq!(crypto.add_result(&mut result), Err(CryptoError::PkaFailure));
    assert_eq!(result, [7; 4]);
}

#[test]
fn result_that_does_not_fit_the_buffer_is_a_failure() {
    let mut crypto = idle();
    crypto.add(&[1, 2], &[3, 4]).unwrap();
    finish(&mut crypto, 4 + 4, 0, 0);
    let mut result = [7u32; 4];
    assert_eq!(crypto.add_result(&mut result), Err(CryptoError::PkaFailure));
    assert_eq!(result, [7; 4]);
    let mut result = [7u32; 5];
    assert_eq!(crypto.add_result(&mut result), Ok(5));
}

#[test]
fn result_that_reaches_the_end_of_the_memory_is_a_failure() {
    let mut crypto = idle();
    crypto.pka_mut().cptr = 500;
    // Words 500 to 511 would end at byte 2048, which is not below the size.
    finish(&mut crypto, 511, 0, 0);
    let mut result = [7u32; 16];
    assert_eq!(crypto.add_result(&mut result), Err(CryptoError::PkaFailure));
    // Words 500 to 510 end at byte 2044.
    finish(&mut crypto, 510, 0, 0);
    assert_eq!(crypto.add_result(&mut result), Ok(11));
}

#[test]
fn msw_address_is_taken_from_the_low_eleven_bits() {
    let mut crypto = idle();
    crypto.add(&[1], &[2]).unwrap();
    crypto.pka_mut().ram.set_word(4, 3);
    // Bits above the address field, but for the zero flag, do not count.
    finish(&mut crypto, 0x7000 | 4, 0, 0);
    let mut result = [0u32; 2];
    assert_eq!(crypto.add_result(&mut result), Ok(1));
    assert_eq!(result, [3, 0]);
}

#[test]
fn sub_starts_the_subtraction() {
    let mut crypto = idle();
    assert_eq!(crypto.sub(&[0xff; 4], &[4, 0, 0, 0]), Ok(()));
    let pka = crypto.pka();
    assert_eq!((pka.aptr, pka.bptr, pka.cptr), (0, 4, 8));
    assert_eq!((pka.alength, pka.blength), (4, 4));
    assert_eq!(pka.function, 0x8020);
    assert_eq!(pka.function, PKA_FUNCTION_SUBTRACT | PKA_FUNCTION_RUN);
    assert_eq!(ram_words(&crypto, 0, 8), vec![0xff, 0xff, 0xff, 0xff, 4, 0, 0, 0]);
}

#[test]
fn mul_starts_the_multiplication() {
    let mut crypto = idle();
    assert_eq!(crypto.mul(&[4], &[0xff; 5]), Ok(()));
    let pka = crypto.pka();
    assert_eq!((pka.aptr, pka.bptr, pka.cptr), (0, 2, 8));
    assert_eq!((pka.alength, pka.blength), (1, 5));
    assert_eq!(pka.function, 0x8001);
    assert_eq!(pka.function, PKA_FUNCTION_MULTIPLY | PKA_FUNCTION_RUN);
}

#[test]
fn mul_result_reads_from_vector_c() {
    let mut crypto = idle();
    crypto.mul(&[4], &[0xff; 5]).unwrap();
    crypto.pka_mut().ram.write_slice(&[0x3fc, 0x3fc, 0x3fc, 0x3fc, 0x3fc], 32);
    finish(&mut crypto, 12, 0, 0);
    let mut result = [0u32; 12];
    assert_eq!(crypto.mul_result(&mut result), Ok(5));
    assert_eq!(&result[..5], &[0x3fc; 5]);
    assert_eq!(&result[5..], &[0; 7]);
}

#[test]
fn add_sub_lays_out_three_operands() {
    let mut crypto = idle();
    // a + c - b, each at the length of the longest.
    assert_eq!(crypto.add_sub(&[1, 2, 3], &[7, 8], &[4, 5, 6, 0, 1]), Ok(()));
    let pka = crypto.pka();
    assert_eq!((pka.aptr, pka.bptr, pka.cptr, pka.dptr), (0, 6, 12, 18));
    assert_eq!(pka.alength, 5);
    assert_eq!(pka.blength, 0);
    assert_eq!(pka.function, 0x8002);
    assert_eq!(pka.function, PKA_FUNCTION_ADDSUB | PKA_FUNCTION_RUN);
    // b is vector B and c is vector C.
    assert_eq!(
        ram_words(&crypto, 0, 18),
        vec![1, 2, 3, 0, 0, 0, 4, 5, 6, 0, 1, 0, 7, 8, 0, 0, 0, 0]
    );
}

#[test]
fn add_sub_clears_the_words_above_a_shorter_operand() {
    let mut crypto = idle();
    crypto.pka_mut().ram.write_slice(&[0xdead_beef; 20], 0);
    assert_eq!(crypto.add_sub(&[1, 2, 3, 4], &[7], &[5, 6]), Ok(()));
    let pka = crypto.pka();
    assert_eq!((pka.aptr, pka.bptr, pka.cptr, pka.dptr), (0, 4, 8, 12));
    assert_eq!(pka.alength, 4);
    assert_eq!(
        ram_words(&crypto, 0, 13),
        vec![1, 2, 3, 4, 5, 6, 0, 0, 7, 0, 0, 0, 0xdead_beef]
    );
}

#[test]
fn add_sub_result_reads_from_vector_d() {
    let mut crypto = idle();
    crypto.add_sub(&[1, 2, 3], &[7, 8], &[4, 5, 6, 0, 1]).unwrap();
    crypto.pka_mut().ram.write_slice(&[21, 22, 23], 72);
    finish(&mut crypto, 20, 0, 0);
    let mut result = [0u32; 3];
    assert_eq!(crypto.add_sub_result(&mut result), Ok(3));
    assert_eq!(result, [21, 22, 23]);
}

#[test]
fn modulo_starts_the_remainder() {
    let mut crypto = idle();
    assert_eq!(crypto.modulo(&[0xff; 5], &[4]), Ok(()));
    let pka = crypto.pka();
    assert_eq!((pka.aptr, pka.bptr, pka.cptr), (0, 6, 8));
    assert_eq!((pka.alength, pka.blength), (5, 1));
    assert_eq!(pka.function, 0x8200);
    assert_eq!(pka.function, PKA_FUNCTION_MODULO | PKA_FUNCTION_RUN);
}

#[test]
fn modulo_result_has_one_word_more_than_the_modulus() {
    let mut crypto = idle();
    crypto.modulo(&[0xff; 5], &[4, 1]).unwrap();
    assert_eq!(crypto.pka().cptr, 8);
    crypto.pka_mut().ram.write_slice(&[3, 0, 0], 32);
    finish(&mut crypto, 8, 0, 0);
    let mut result = [9u32; 4];
    assert_eq!(crypto.modulo_result(&mut result), Ok(3));
    assert_eq!(result, [3, 0, 0, 9]);
}

#[test]
fn modulo_result_of_zero_clears_the_buffer() {
    let mut crypto = idle();
    crypto.modulo(&[8], &[4]).unwrap();
    finish(&mut crypto, 0x8000, 0, 0);
    let mut result = [9u32; 3];
    assert_eq!(crypto.modulo_result(&mut result), Ok(2));
    assert_eq!(result, [0, 0, 0]);
}

#[test]
fn modulo_result_that_does_not_fit_is_a_failure() {
    let mut crypto = idle();
    crypto.modulo(&[8, 8, 8], &[4, 4, 4]).unwrap();
    finish(&mut crypto, 10, 0, 0);
    let mut result = [9u32; 3];
    assert_eq!(crypto.modulo_result(&mut result), Err(CryptoError::PkaFailure));
    assert_eq!(result, [9; 3]);
}

#[test]
fn inv_modulo_starts_the_sequencer() {
    let mut crypto = idle();
    assert_eq!(crypto.inv_modulo(&[3, 0], &[7, 0, 0]), Ok(()));
    let pka = crypto.pka();
    assert_eq!((pka.aptr, pka.bptr, pka.cptr), (0, 2, 6));
    assert_eq!((pka.alength, pka.blength), (2, 3));
    assert_eq!(pka.function, 0xf000);
    assert_eq!(pka.function, PKA_SEQ_INV_MOD | PKA_FUNCTION_RUN);
}

#[test]
fn inv_modulo_result_has_the_length_of_the_number() {
    let mut crypto = idle();
    crypto.inv_modulo(&[3, 0], &[7, 0, 0]).unwrap();
    crypto.pka_mut().ram.write_slice(&[5, 0], 24);
    finish(&mut crypto, 6, 0, 0);
    let mut result = [9u32; 4];
    assert_eq!(crypto.inv_modulo_result(&mut result), Ok(()));
    assert_eq!(result, [5, 0, 9, 9]);
}

#[test]
fn inv_modulo_without_inverse_reports_no_solution() {
    let mut crypto = idle();
    crypto.inv_modulo(&[4], &[8]).unwrap();
    // Whatever the engine left in its memory is not handed out.
    crypto.pka_mut().ram.write_slice(&[0x1111, 0x2222], 16);
    finish(&mut crypto, 4, 7, 0);
    let mut result = [9u32; 2];
    assert_eq!(crypto.inv_modulo_result(&mut result), Err(CryptoError::NoSolution));
    assert_eq!(result, [9, 9]);
}

#[test]
fn inv_modulo_with_another_status_is_a_failure() {
    let mut crypto = idle();
    crypto.inv_modulo(&[4], &[8]).unwrap();
    for status in [31u32, 1, 6, 8, 0xffff_ffff] {
        finish(&mut crypto, 4, status, 0);
        let mut result = [9u32; 2];
        assert_eq!(crypto.inv_modulo_result(&mut result), Err(CryptoError::PkaFailure));
        assert_eq!(result, [9, 9]);
    }
}

#[test]
fn inv_modulo_result_that_does_not_fit_is_a_failure() {
    let mut crypto = idle();
    crypto.inv_modulo(&[4, 4, 4], &[8]).unwrap();
    finish(&mut crypto, 4, 0, 0);
    let mut result = [9u32; 2];
    assert_eq!(crypto.inv_modulo_result(&mut result), Err(CryptoError::PkaFailure));
    assert_eq!(result, [9, 9]);
}

#[test]
fn exp_lays_the_result_over_the_base() {
    let mut crypto = idle();
    assert_eq!(crypto.exp(&[4], &[0xff, 0xff, 0xff, 0xff, 0], &[0x0f; 4]), Ok(()));
    let pka = crypto.pka();
    assert_eq!((pka.aptr, pka.bptr, pka.cptr, pka.dptr), (0, 2, 8, 8));
    assert_eq!((pka.alength, pka.blength), (1, 5));
    assert_eq!(pka.function, 0xa000);
    assert_eq!(pka.function, PKA_SEQ_EXP | PKA_FUNCTION_RUN);
    assert_eq!(
        ram_words(&crypto, 0, 12),
        vec![4, 0, 0xff, 0xff, 0xff, 0xff, 0, 0, 0x0f, 0x0f, 0x0f, 0x0f]
    );
}

#[test]
fn exp_result_reaches_from_vector_d_to_the_most_significant_word() {
    let mut crypto = idle();
    crypto.exp(&[4], &[0xff, 0xff, 0xff, 0xff, 0], &[0x0f; 4]).unwrap();
    crypto.pka_mut().ram.write_slice(&[31, 32, 33], 32);
    finish(&mut crypto, 10, 0, 0);
    let mut result = [9u32; 5];
    assert_eq!(crypto.exp_result(&mut result), Ok(3));
    assert_eq!(result, [31, 32, 33, 9, 9]);
}

#[test]
fn exp_result_of_zero_reads_nothing() {
    let mut crypto = idle();
    crypto.exp(&[4], &[5], &[6]).unwrap();
    let mut result = [9u32; 3];
    finish(&mut crypto, 0, 0, 0);
    assert_eq!(crypto.exp_result(&mut result), Ok(0));
    assert_eq!(result, [9; 3]);
    finish(&mut crypto, 0x8000 | 6, 0, 0);
    assert_eq!(crypto.exp_result(&mut result), Ok(0));
    assert_eq!(result, [9; 3]);
}

#[test]
fn exp_result_before_vector_d_is_a_failure() {
    let mut crypto = idle();
    crypto.exp(&[4], &[0xff, 0xff, 0xff, 0xff, 0], &[0x0f; 4]).unwrap();
    assert_eq!(crypto.pka().dptr, 8);
    let mut result = [9u32; 3];
    finish(&mut crypto, 6, 0, 0);
    assert_eq!(crypto.exp_result(&mut result), Err(CryptoError::PkaFailure));
    // At the word before vector D the result has no word.
    finish(&mut crypto, 7, 0, 0);
    assert_eq!(crypto.exp_result(&mut result), Ok(0));
    assert_eq!(result, [9; 3]);
}

#[test]
fn cmp_lays_the_second_number_out_as_vector_c() {
    let mut crypto = idle();
    crypto.pka_mut().bptr = 99;
    assert_eq!(crypto.cmp(&[1, 2, 3], &[4, 5, 6]), Ok(()));
    let pka = crypto.pka();
    assert_eq!((pka.aptr, pka.bptr, pka.cptr), (0, 99, 4));
    assert_eq!((pka.alength, pka.blength), (3, 0));
    assert_eq!(pka.function, 0x8400);
    assert_eq!(pka.function, PKA_FUNCTION_COMPARE | PKA_FUNCTION_RUN);
    assert_eq!(ram_words(&crypto, 0, 7), vec![1, 2, 3, 0, 4, 5, 6]);
}

#[test]
fn cmp_lays_numbers_of_different_lengths_out_at_the_longer() {
    let mut crypto = idle();
    crypto.pka_mut().ram.write_slice(&[0xdead_beef; 8], 0);
    // 4 against 2^32 + 1.
    assert_eq!(crypto.cmp(&[4], &[1, 1]), Ok(()));
    let pka = crypto.pka();
    assert_eq!((pka.aptr, pka.cptr, pka.alength), (0, 2, 2));
    assert_eq!(ram_words(&crypto, 0, 5), vec![4, 0, 1, 1, 0xdead_beef]);
    let mut crypto = idle();
    crypto.pka_mut().ram.write_slice(&[0xdead_beef; 8], 0);
    assert_eq!(crypto.cmp(&[1, 2, 3], &[9]), Ok(()));
    let pka = crypto.pka();
    assert_eq!((pka.aptr, pka.cptr, pka.alength), (0, 4, 3));
    assert_eq!(ram_words(&crypto, 0, 8), vec![1, 2, 3, 0xdead_beef, 9, 0, 0, 0xdead_beef]);
}

#[test]
fn cmp_result_follows_the_flags() {
    let mut crypto = idle();
    crypto.cmp(&[1], &[2]).unwrap();
    assert_eq!(crypto.cmp_result(), Ok(None));
    finish(&mut crypto, 0, 0, 0b001);
    assert_eq!(crypto.cmp_result(), Ok(Some(Ordering::Equal)));
    finish(&mut crypto, 0, 0, 0b010);
    assert_eq!(crypto.cmp_result(), Ok(Some(Ordering::Less)));
    finish(&mut crypto, 0, 0, 0b100);
    assert_eq!(crypto.cmp_result(), Ok(Some(Ordering::Greater)));
}

#[test]
fn cmp_result_without_a_flag_is_a_failure() {
    let mut crypto = idle();
    crypto.cmp(&[1], &[2]).unwrap();
    finish(&mut crypto, 0, 0, 0);
    assert_eq!(crypto.cmp_result(), Err(CryptoError::PkaFailure));
    finish(&mut crypto, 0, 0, 0b1000);
    assert_eq!(crypto.cmp_result(), Err(CryptoError::PkaFailure));
}

#[test]
fn cmp_result_prefers_equal_then_less() {
    let mut crypto = idle();
    finish(&mut crypto, 0, 0, 0b111);
    assert_eq!(crypto.cmp_result(), Ok(Some(Ordering::Equal)));
    finish(&mut crypto, 0, 0, 0b110);
    assert_eq!(crypto.cmp_result(), Ok(Some(Ordering::Less)));
}

#[test]
fn handle_keeps_its_image_through_selections() {
    let mut crypto = idle();
    crypto.add(&[1, 2], &[3]).unwrap();
    let crypto = crypto.ecc_engine().release().sha256_engine().release().aes_engine().release();
    assert_eq!(crypto.pka().bptr, 2);
    assert_eq!(crypto.pka().ram.word(1), 2);
    let pka = crypto.free();
    assert_eq!(pka.function, PKA_FUNCTION_ADD | PKA_FUNCTION_RUN);
    assert_eq!(pka.ram.word(2), 3);
}

#[test]
fn two_vectors_fit_below_the_size_of_the_memory() {
    assert!(fits_two(0, 0));
    assert!(fits_two(4, 4));
    // 511 words end at byte 2044, and the next vector would start at the
    // size of the memory.
    assert!(fits_two(510, 0));
    assert!(!fits_two(511, 0));
    assert!(!fits_two(512, 0));
    // 255 words take 1024 bytes with their padding.
    assert!(fits_two(255, 255));
    assert!(!fits_two(255, 256));
    assert!(fits_two(256, 255));
    assert!(!fits_two(257, 255));
    assert!(!fits_two(usize::MAX, 1));
    assert!(!fits_two(1, usize::MAX));
}

#[test]
fn three_vectors_fit_below_the_size_of_the_memory() {
    assert!(fits_three(0, 0, 0));
    assert!(fits_three(1, 1, 1));
    assert!(fits_three(170, 170, 169));
    // 170 words take 680 bytes, and 171 more words would end at byte 2044.
    assert!(fits_three(170, 170, 171));
    assert!(!fits_three(170, 170, 172));
    assert!(!fits_three(511, 1, 0));
    assert!(!fits_three(0, 0, 512));
}

#[test]
fn fill_zeros_clears_every_word() {
    let mut words = [1u32, 2, 3];
    fill_zeros(&mut words);
    assert_eq!(words, [0, 0, 0]);
    let mut none: [u32; 0] = [];
    fill_zeros(&mut none);
}

#[test]
fn exp_lays_a_shorter_base_out_at_the_length_of_the_modulus() {
    let mut crypto = idle();
    crypto.pka_mut().ram.write_slice(&[0xdead_beef; 16], 0);
    assert_eq!(crypto.exp(&[4], &[5, 6, 7], &[9]), Ok(()));
    let pka = crypto.pka();
    assert_eq!((pka.aptr, pka.bptr, pka.cptr, pka.dptr), (0, 2, 6, 6));
    assert_eq!((pka.alength, pka.blength), (1, 3));
    assert_eq!(
        ram_words(&crypto, 0, 10),
        vec![4, 0xdead_beef, 5, 6, 7, 0xdead_beef, 9, 0, 0, 0xdead_beef]
    );
}

#[test]
fn start_on_a_running_engine_takes_operands_of_any_length() {
    let mut crypto = idle();
    assert_eq!(crypto.add(&[1], &[2]), Ok(()));
    let long = vec![0u32; 600];
    assert_eq!(crypto.add(&long, &long), Err(CryptoError::PkaBusy));
    assert_eq!(crypto.cmp(&long, &[1]), Err(CryptoError::PkaBusy));
    assert_eq!(crypto.add_sub(&long, &long, &long), Err(CryptoError::PkaBusy));
    assert_eq!(crypto.exp(&[1], &[2], &long), Err(CryptoError::PkaBusy));
    assert_eq!(crypto.pka().ram.word(0), 1);
}
