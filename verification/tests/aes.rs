use cc2538_hal::crypto::aes_engine::ccm::{AesCcm, AesCcmInfo};
use cc2538_hal::crypto::aes_engine::ctr::AesCtr;
use cc2538_hal::crypto::aes_engine::keys::{keys_fit, AesKey, AesKeySize, AesKeys};
use cc2538_hal::crypto::aes_engine::{AesControl, AesEngine, AuthStage, KeyLoadStage};
use cc2538_hal::crypto::regs::{AesCommand, AesReg, DmaBuffer, Progress};
use cc2538_hal::crypto::{Crypto, CryptoError, CryptoMode, CtrWidth};

fn w(reg: AesReg, value: u32) -> AesCommand {
    AesCommand::Write { reg, value }
}

fn m(reg: AesReg, clear: u32, set: u32) -> AesCommand {
    AesCommand::Modify { reg, clear, set }
}

fn point(reg: AesReg, buffer: DmaBuffer) -> AesCommand {
    AesCommand::Point { reg, buffer }
}

fn wait_set(reg: AesReg, mask: u32) -> AesCommand {
    AesCommand::WaitSet { reg, mask }
}

fn wait_clear(reg: AesReg, mask: u32) -> AesCommand {
    AesCommand::WaitClear { reg, mask }
}

fn read(reg: AesReg) -> AesCommand {
    AesCommand::Read { reg }
}

fn ctr_engine() -> Crypto<AesEngine<AesCtr>> {
    Crypto::new().aes_engine().ctr_mode()
}

fn ccm_engine() -> Crypto<AesEngine<AesCcm>> {
    Crypto::new().aes_engine().ccm_mode()
}

/// The accesses that start every operation of the cipher.
fn begin(key_index: u32) -> Vec<AesCommand> {
    vec![
        m(AesReg::CtrlAlgSel, 0, 0x2),
        w(AesReg::CtrlIntClr, 0x3),
        w(AesReg::KeyStoreReadArea, key_index),
        wait_clear(AesReg::KeyStoreReadArea, 0x8000_0000),
        read(AesReg::CtrlIntStat),
    ]
}

fn dma_in(buffer: DmaBuffer, len: u32) -> Vec<AesCommand> {
    vec![
        m(AesReg::DmacCh0Ctrl, 0, 1),
        point(AesReg::DmacCh0Extaddr, buffer),
        m(AesReg::DmacCh0Dmalength, 0xffff, len),
        wait_set(AesReg::CtrlIntStat, 0x2),
    ]
}

fn dma_out(buffer: DmaBuffer, len: u32) -> Vec<AesCommand> {
    vec![
        m(AesReg::DmacCh1Ctrl, 0, 1),
        point(AesReg::DmacCh1Extaddr, buffer),
        m(AesReg::DmacCh1Dmalength, 0xffff, len),
        wait_set(AesReg::CtrlIntStat, 0x2),
    ]
}

const KEY_128: [u8; 16] = [
    0x2b, 0x7e, 0x15, 0x16, 0x28, 0xae, 0xd2, 0xa6, 0xab, 0xf7, 0x15, 0x88, 0x09, 0xcf, 0x4f, 0x3c,
];

#[test]
fn keys_create_one_key_of_128_bits() {
    let keys = AesKeys::create(&[AesKey::Key128(KEY_128)], AesKeySize::Key128, 0);
    assert_eq!(keys.count, 1);
    assert_eq!(keys.start_area, 0);
    assert_eq!(keys.sizes, AesKeySize::Key128);
    assert_eq!(&keys.keys[..16], &KEY_128);
    assert_eq!(&keys.keys[16..], &[0u8; 112]);
    assert_eq!(keys.material(), &KEY_128);
}

#[test]
fn keys_create_without_keys() {
    let keys = AesKeys::create(&[], AesKeySize::Key256, 8);
    assert_eq!(keys.count, 0);
    assert_eq!(keys.start_area, 8);
    assert_eq!(keys.keys, [0u8; 128]);
    assert_eq!(keys.material().len(), 0);
}

#[test]
fn keys_create_pads_a_key_of_192_bits_to_two_areas() {
    let mut k192 = [0u8; 24];
    for (i, b) in k192.iter_mut().enumerate() {
        *b = 0xa0 + i as u8;
    }
    let k128 = [0x11u8; 16];
    let keys = AesKeys::create(
        &[AesKey::Key192(k192), AesKey::Key128(k128)],
        AesKeySize::Key192,
        2,
    );
    assert_eq!(keys.count, 3);
    assert_eq!(keys.start_area, 2);
    assert_eq!(&keys.keys[..24], &k192);
    assert_eq!(&keys.keys[24..32], &[0u8; 8]);
    assert_eq!(&keys.keys[32..48], &k128);
    assert_eq!(&keys.keys[48..], &[0u8; 80]);
    assert_eq!(keys.material().len(), 48);
}

#[test]
fn keys_create_fills_all_eight_areas() {
    let mut k = [[0u8; 32]; 4];
    for (i, key) in k.iter_mut().enumerate() {
        for (j, b) in key.iter_mut().enumerate() {
            *b = (32 * i + j) as u8;
        }
    }
    let keys = AesKeys::create(
        &[
            AesKey::Key256(k[0]),
            AesKey::Key256(k[1]),
            AesKey::Key256(k[2]),
            AesKey::Key256(k[3]),
        ],
        AesKeySize::Key256,
        0,
    );
    assert_eq!(keys.count, 8);
    let expected: Vec<u8> = (0..128).map(|i| i as u8).collect();
    assert_eq!(keys.keys.to_vec(), expected);
    assert_eq!(keys.material(), &expected[..]);
}

#[test]
fn key_size_bits() {
    assert_eq!(AesKeySize::Key128.bits(), 0b01);
    assert_eq!(AesKeySize::Key192.bits(), 0b10);
    assert_eq!(AesKeySize::Key256.bits(), 0b11);
}

#[test]
fn set_mode_selects_the_algorithm() {
    let mut crypto = ctr_engine();
    assert_eq!(crypto.set_mode(CryptoMode::StoreKeys), w(AesReg::CtrlAlgSel, 0x1));
    assert_eq!(crypto.set_mode(CryptoMode::Aes), w(AesReg::CtrlAlgSel, 0x2));
    assert_eq!(crypto.set_mode(CryptoMode::Hash), w(AesReg::CtrlAlgSel, 0x4));
    assert_eq!(crypto.set_mode(CryptoMode::Tag), w(AesReg::CtrlAlgSel, 0x8000_0000));
    assert_eq!(crypto.set_mode(CryptoMode::HashAndTag), w(AesReg::CtrlAlgSel, 0x8000_0004));
}

#[test]
fn workaround_sets_the_interrupts_up() {
    let mut crypto = ctr_engine();
    assert_eq!(
        crypto.workaround(),
        vec![w(AesReg::CtrlIntCfg, 1), w(AesReg::CtrlIntEn, 3)]
    );
}

#[test]
fn key_predicates_read_their_bits() {
    let crypto = ctr_engine();
    assert!(crypto.key_is_set(0));
    assert!(crypto.key_is_set(0x0000_000f));
    assert!(!crypto.key_is_set(0x8000_0000));
    assert!(crypto.key_load_error(0x2000_0000));
    assert!(!crypto.key_load_error(0xdfff_ffff));
}

#[test]
fn load_key_sends_one_key_to_the_first_area() {
    let keys = AesKeys::create(&[AesKey::Key128(KEY_128)], AesKeySize::Key128, 0);
    let mut crypto = ctr_engine();
    // The key store already holds keys of 128 bits.
    let (job, step) = crypto.load_key(0, 0b01, &keys).unwrap();
    assert_eq!(job.areas, 0b1);
    assert_eq!(job.stage, KeyLoadStage::Transfer);
    assert_eq!(step.progress, Progress::Pending);
    assert_eq!(
        step.commands,
        vec![
            w(AesReg::CtrlIntCfg, 1),
            w(AesReg::CtrlIntEn, 3),
            w(AesReg::CtrlAlgSel, 1),
            w(AesReg::CtrlIntClr, 1),
            w(AesReg::KeyStoreWrittenArea, 1),
            w(AesReg::KeyStoreWriteArea, 1),
            w(AesReg::DmacCh0Ctrl, 1),
            point(AesReg::DmacCh0Extaddr, DmaBuffer::Keys),
            w(AesReg::DmacCh0Dmalength, 16),
            wait_set(AesReg::CtrlIntStat, 1),
            read(AesReg::CtrlIntStat),
        ]
    );
}

#[test]
fn load_key_sets_the_key_size_where_it_differs() {
    let keys = AesKeys::create(
        &[AesKey::Key256([7; 32]), AesKey::Key256([8; 32])],
        AesKeySize::Key256,
        4,
    );
    let mut crypto = ccm_engine();
    let (job, step) = crypto.load_key(0, 0xffff_fff1, &keys).unwrap();
    assert_eq!(job.areas, 0b1111_0000);
    assert_eq!(
        step.commands,
        vec![
            w(AesReg::CtrlIntCfg, 1),
            w(AesReg::CtrlIntEn, 3),
            w(AesReg::CtrlAlgSel, 1),
            w(AesReg::CtrlIntClr, 1),
            m(AesReg::KeyStoreSize, 3, 3),
            w(AesReg::KeyStoreWrittenArea, 0xf0),
            w(AesReg::KeyStoreWriteArea, 0xf0),
            w(AesReg::DmacCh0Ctrl, 1),
            point(AesReg::DmacCh0Extaddr, DmaBuffer::Keys),
            w(AesReg::DmacCh0Dmalength, 64),
            wait_set(AesReg::CtrlIntStat, 1),
            read(AesReg::CtrlIntStat),
        ]
    );
}

#[test]
fn load_key_areas_span_start_to_start_plus_count() {
    let mut crypto = ctr_engine();
    let one = AesKey::Key128([0; 16]);
    let two = AesKey::Key192([0; 24]);
    let cases: [(&[AesKey], u8, u32); 6] = [
        (&[], 0, 0),
        (&[one], 7, 0b1000_0000),
        (&[one, one], 3, 0b0001_1000),
        (&[two], 0, 0b0000_0011),
        (&[two, one], 5, 0b1110_0000),
        (&[two, two, two, two], 0, 0b1111_1111),
    ];
    for (keys, start, areas) in cases {
        let keys = AesKeys::create(keys, AesKeySize::Key128, start);
        let (job, _) = crypto.load_key(0, 1, &keys).unwrap();
        assert_eq!(job.areas, areas);
    }
}

#[test]
fn load_key_on_an_engine_in_use_asks_nothing() {
    let keys = AesKeys::create(&[AesKey::Key128(KEY_128)], AesKeySize::Key128, 0);
    let mut crypto = ctr_engine();
    assert_eq!(crypto.load_key(0x4, 1, &keys).err(), Some(CryptoError::AesBusy));
    assert_eq!(crypto.load_key(0x8000_0000, 1, &keys).err(), Some(CryptoError::AesBusy));
    // Keys that do not fit are not looked at while the engine is in use.
    let mut wrong = keys;
    wrong.start_area = 9;
    assert_eq!(crypto.load_key(1, 1, &wrong).err(), Some(CryptoError::AesBusy));
}

#[test]
fn load_key_step_acknowledges_the_transfer_and_asks_for_the_written_areas() {
    let keys = AesKeys::create(&[AesKey::Key128(KEY_128)], AesKeySize::Key128, 2);
    let mut crypto = ctr_engine();
    let (mut job, _) = crypto.load_key(0, 1, &keys).unwrap();
    let step = crypto.load_key_step(&mut job, 0x3);
    assert_eq!(job.stage, KeyLoadStage::Verify);
    assert_eq!(job.areas, 0b100);
    assert_eq!(step.progress, Progress::Pending);
    assert_eq!(
        step.commands,
        vec![
            w(AesReg::CtrlIntClr, 3),
            w(AesReg::CtrlAlgSel, 0),
            read(AesReg::KeyStoreWrittenArea),
        ]
    );
    // Other areas may be written too.
    let step = crypto.load_key_step(&mut job, 0b1110);
    assert_eq!(job.stage, KeyLoadStage::Done);
    assert_eq!(step.progress, Progress::Done);
    assert_eq!(step.commands, vec![]);
}

#[test]
fn load_key_step_fails_where_an_area_is_not_written() {
    let keys = AesKeys::create(
        &[AesKey::Key128(KEY_128), AesKey::Key128(KEY_128)],
        AesKeySize::Key128,
        0,
    );
    let mut crypto = ctr_engine();
    let (mut job, _) = crypto.load_key(0, 1, &keys).unwrap();
    crypto.load_key_step(&mut job, 0x1);
    let step = crypto.load_key_step(&mut job, 0b01);
    assert_eq!(step.progress, Progress::Failed(CryptoError::KeyStoreError));
    assert_eq!(step.commands, vec![]);
    assert_eq!(job.stage, KeyLoadStage::Failed(CryptoError::KeyStoreError));
    // A later step reports the failure again.
    let step = crypto.load_key_step(&mut job, 0xffff_ffff);
    assert_eq!(step.progress, Progress::Failed(CryptoError::KeyStoreError));
    assert_eq!(step.commands, vec![]);
}

#[test]
fn load_key_step_clears_a_bus_error() {
    let keys = AesKeys::create(&[AesKey::Key128(KEY_128)], AesKeySize::Key128, 0);
    let mut crypto = ctr_engine();
    let (mut job, _) = crypto.load_key(0, 1, &keys).unwrap();
    // The bus error comes before the write error.
    let step = crypto.load_key_step(&mut job, 0xc000_0001);
    assert_eq!(step.progress, Progress::Failed(CryptoError::DmaError));
    assert_eq!(step.commands, vec![w(AesReg::CtrlIntClr, 0x8000_0000)]);
    assert_eq!(job.stage, KeyLoadStage::Failed(CryptoError::DmaError));
    let step = crypto.load_key_step(&mut job, 1);
    assert_eq!(step.progress, Progress::Failed(CryptoError::DmaError));
    assert_eq!(step.commands, vec![]);
}

#[test]
fn load_key_step_clears_a_write_error() {
    let keys = AesKeys::create(&[AesKey::Key128(KEY_128)], AesKeySize::Key128, 0);
    let mut crypto = ctr_engine();
    let (mut job, _) = crypto.load_key(0, 1, &keys).unwrap();
    let step = crypto.load_key_step(&mut job, 0x4000_0001);
    assert_eq!(step.progress, Progress::Failed(CryptoError::KeyStoreError));
    assert_eq!(step.commands, vec![w(AesReg::CtrlIntClr, 0x4000_0000)]);
    assert_eq!(job.stage, KeyLoadStage::Failed(CryptoError::KeyStoreError));
}

#[test]
fn write_iv_makes_four_words_least_significant_byte_first() {
    let mut crypto = ctr_engine();
    let iv: Vec<u8> = (0xf0..=0xff).collect();
    assert_eq!(
        crypto.write_iv(&iv),
        vec![
            w(AesReg::AesIv0, 0xf3f2_f1f0),
            w(AesReg::AesIv1, 0xf7f6_f5f4),
            w(AesReg::AesIv2, 0xfbfa_f9f8),
            w(AesReg::AesIv3, 0xfffe_fdfc),
        ]
    );
}

#[test]
fn read_tag_makes_sixteen_bytes_least_significant_byte_first() {
    let mut crypto = ccm_engine();
    let mut tag = [0u8; 16];
    crypto.read_tag([0x0403_0201, 0x0807_0605, 0x0c0b_0a09, 0x100f_0e0d], &mut tag);
    assert_eq!(tag, [1, 2, 3, 4, 5, 6, 7, 8, 9, 10, 11, 12, 13, 14, 15, 16]);
    crypto.read_tag([0xffff_ffff, 0, 0x8000_0000, 0x0000_0080], &mut tag);
    assert_eq!(
        tag,
        [0xff, 0xff, 0xff, 0xff, 0, 0, 0, 0, 0, 0, 0, 0x80, 0x80, 0, 0, 0]
    );
}

#[test]
fn write_dma_lists_the_transfer() {
    let mut crypto = ctr_engine();
    assert_eq!(crypto.write_dma0(DmaBuffer::Input, &[0; 20]), dma_in(DmaBuffer::Input, 20));
    assert_eq!(crypto.write_dma1(DmaBuffer::Output, &[0; 7]), dma_out(DmaBuffer::Output, 7));
}

#[test]
fn write_dma_length_keeps_sixteen_bits() {
    let mut crypto = ctr_engine();
    let data = vec![0u8; 0x1_0005];
    assert_eq!(crypto.write_dma0(DmaBuffer::Input, &data), dma_in(DmaBuffer::Input, 5));
}

#[test]
fn ctr_encrypt_of_the_nist_vector() {
    let mut crypto = ctr_engine();
    let nonce: [u8; 0] = [];
    let ctr: Vec<u8> = (0xf0..=0xff).collect();
    let input = [0u8; 64];
    let output = [0u8; 64];
    let (mut job, step) = crypto.ctr_encrypt(0, 0, &nonce, &ctr, &input, &output).unwrap();
    assert_eq!(step.progress, Progress::Pending);
    assert_eq!(step.commands, begin(0));
    assert_eq!(job.stage, AuthStage::KeyLoad);
    assert_eq!(job.control, AesControl::Ctr { width: 3, encrypt: true });
    assert_eq!(job.iv, Some([
        0xf0, 0xf1, 0xf2, 0xf3, 0xf4, 0xf5, 0xf6, 0xf7, 0xf8, 0xf9, 0xfa, 0xfb, 0xfc, 0xfd, 0xfe,
        0xff,
    ]));
    assert_eq!((job.auth_len, job.in_len, job.out_len), (0, 64, 64));

    let step = crypto.auth_crypt_step(&mut job, 0);
    assert_eq!(step.progress, Progress::Done);
    assert_eq!(job.stage, AuthStage::Done);
    let mut expected = vec![
        w(AesReg::AesIv0, 0xf3f2_f1f0),
        w(AesReg::AesIv1, 0xf7f6_f5f4),
        w(AesReg::AesIv2, 0xfbfa_f9f8),
        w(AesReg::AesIv3, 0xfffe_fdfc),
        w(AesReg::AesCtrl, 0x1c4),
        w(AesReg::AesCLength0, 64),
        w(AesReg::AesCLength1, 0),
    ];
    expected.extend(dma_in(DmaBuffer::Input, 64));
    expected.extend(dma_out(DmaBuffer::Output, 64));
    expected.push(wait_set(AesReg::CtrlIntStat, 0xe000_0001));
    assert_eq!(step.commands, expected);
    assert!(!job.gives_tag());

    // Nothing follows.
    let step = crypto.auth_crypt_step(&mut job, 0);
    assert_eq!(step.progress, Progress::Done);
    assert_eq!(step.commands, vec![]);
}

#[test]
fn ctr_decrypt_differs_in_the_direction_only() {
    let mut crypto = ctr_engine();
    let nonce = [1u8, 2, 3, 4, 5, 6, 7, 8];
    let ctr = [0u8, 0, 0, 0, 0, 0, 0, 1];
    let input = [0u8; 33];
    let output = [0u8; 33];
    let (mut enc, enc_first) = crypto.ctr_encrypt(0, 5, &nonce, &ctr, &input, &output).unwrap();
    let (mut dec, dec_first) = crypto.ctr_decrypt(0, 5, &nonce, &ctr, &input, &output).unwrap();
    assert_eq!(enc_first.commands, begin(5));
    assert_eq!(dec_first.commands, begin(5));
    assert_eq!(enc.iv, dec.iv);
    assert_eq!(enc.control, AesControl::Ctr { width: 1, encrypt: true });
    assert_eq!(dec.control, AesControl::Ctr { width: 1, encrypt: false });
    let enc_step = crypto.auth_crypt_step(&mut enc, 0).commands;
    let dec_step = crypto.auth_crypt_step(&mut dec, 0).commands;
    assert_eq!(enc_step.len(), dec_step.len());
    for (i, (e, d)) in enc_step.iter().zip(dec_step.iter()).enumerate() {
        if i == 4 {
            assert_eq!(*e, w(AesReg::AesCtrl, 0x0c4));
            assert_eq!(*d, w(AesReg::AesCtrl, 0x0c0));
        } else {
            assert_eq!(e, d);
        }
    }
    assert_eq!(enc_step[0], w(AesReg::AesIv0, 0x0403_0201));
    assert_eq!(enc_step[3], w(AesReg::AesIv3, 0x0100_0000));
}

#[test]
fn ctr_width_follows_the_length_of_the_counter() {
    let mut crypto = ctr_engine();
    let bytes = [0u8; 16];
    for (ctr_len, width) in [(4usize, 0u8), (5, 0), (7, 0), (8, 1), (11, 1), (12, 2), (15, 2), (16, 3)] {
        let (job, _) =
            crypto.ctr_encrypt(0, 0, &bytes[..16 - ctr_len], &bytes[..ctr_len], &[], &[]).unwrap();
        assert_eq!(job.control, AesControl::Ctr { width, encrypt: true });
    }
}

#[test]
fn ctr_on_an_engine_in_use_asks_nothing() {
    let mut crypto = ctr_engine();
    let started = crypto.ctr_encrypt(0x2, 0, &[], &[0; 16], &[1, 2, 3], &[0; 3]);
    assert_eq!(started.err(), Some(CryptoError::AesBusy));
    let started = crypto.ctr_decrypt(0x8000_0000, 0, &[], &[0; 16], &[1, 2, 3], &[0; 3]);
    assert_eq!(started.err(), Some(CryptoError::AesBusy));
    // A nonce and a counter of the wrong length are not looked at while
    // the engine is in use.
    let started = crypto.ctr_encrypt(1, 0, &[1, 2, 3], &[4], &[], &[]);
    assert_eq!(started.err(), Some(CryptoError::AesBusy));
    let started = crypto.auth_crypt(
        1,
        AesControl::Ctr { width: 0, encrypt: true },
        0,
        Some(&[1, 2, 3]),
        None,
        &[],
        &[],
    );
    assert_eq!(started.err(), Some(CryptoError::AesBusy));
}

#[test]
fn key_load_error_ends_the_operation() {
    let mut crypto = ctr_engine();
    let (mut job, _) = crypto.ctr_encrypt(0, 0, &[], &[0; 16], &[1, 2, 3], &[0; 3]).unwrap();
    let step = crypto.auth_crypt_step(&mut job, 0x2000_0000);
    assert_eq!(step.progress, Progress::Failed(CryptoError::KeyStoreError));
    assert_eq!(step.commands, vec![]);
    assert_eq!(job.stage, AuthStage::Failed(CryptoError::KeyStoreError));
    // A later step reports the failure again.
    let step = crypto.auth_crypt_step(&mut job, 0);
    assert_eq!(step.progress, Progress::Failed(CryptoError::KeyStoreError));
    assert_eq!(step.commands, vec![]);
}

#[test]
fn ctr_without_data_only_waits() {
    let mut crypto = ctr_engine();
    let (mut job, _) = crypto.ctr_encrypt(0, 1, &[], &[0; 16], &[], &[9; 4]).unwrap();
    let step = crypto.auth_crypt_step(&mut job, 0);
    assert_eq!(
        step.commands,
        vec![
            w(AesReg::AesIv0, 0),
            w(AesReg::AesIv1, 0),
            w(AesReg::AesIv2, 0),
            w(AesReg::AesIv3, 0),
            w(AesReg::AesCtrl, 0x1c4),
            w(AesReg::AesCLength0, 0),
            w(AesReg::AesCLength1, 0),
            wait_set(AesReg::CtrlIntStat, 0xe000_0001),
        ]
    );
}

#[test]
fn ctr_with_input_and_no_output_sends_the_input_only() {
    let mut crypto = ctr_engine();
    let (mut job, _) = crypto.ctr_decrypt(0, 1, &[], &[0; 16], &[1, 2], &[]).unwrap();
    let step = crypto.auth_crypt_step(&mut job, 0);
    let mut expected = vec![
        w(AesReg::AesIv0, 0),
        w(AesReg::AesIv1, 0),
        w(AesReg::AesIv2, 0),
        w(AesReg::AesIv3, 0),
        w(AesReg::AesCtrl, 0x1c0),
        w(AesReg::AesCLength0, 2),
        w(AesReg::AesCLength1, 0),
    ];
    expected.extend(dma_in(DmaBuffer::Input, 2));
    expected.push(wait_set(AesReg::CtrlIntStat, 0xe000_0001));
    assert_eq!(step.commands, expected);
}

#[test]
fn auth_crypt_without_iv_writes_none() {
    let mut crypto = ctr_engine();
    let (mut job, step) = crypto.auth_crypt(
        0,
        AesControl::Ctr { width: 0, encrypt: false },
        3,
        None,
        Some(&[1, 2, 3]),
        &[],
        &[],
    ).unwrap();
    assert_eq!(step.commands, begin(3));
    assert_eq!(job.iv, None);
    assert_eq!(job.auth_len, 3);
    // Counter mode takes no associated data.
    let step = crypto.auth_crypt_step(&mut job, 0);
    assert_eq!(
        step.commands,
        vec![
            w(AesReg::AesCtrl, 0x040),
            w(AesReg::AesCLength0, 0),
            w(AesReg::AesCLength1, 0),
            wait_set(AesReg::CtrlIntStat, 0xe000_0001),
        ]
    );
    assert_eq!(step.progress, Progress::Done);
}

#[test]
fn ccm_info_keeps_its_parameters() {
    let mut crypto = ccm_engine();
    let adata = [1u8, 2, 3];
    let info = AesCcmInfo::new(6, 3, 8);
    let (job, step) = crypto.ccm_encrypt(0, &info, &[0; 12], &[], &[]).unwrap();
    assert_eq!(step.commands, begin(6));
    assert_eq!(job.auth_len, 0);
    assert_eq!(job.control, AesControl::Ccm { m: 3, l: 2, encrypt: true });
    let info = info.with_added_auth_data(&adata);
    let (job, step) = crypto.ccm_encrypt(0, &info, &[0; 12], &[], &[]).unwrap();
    assert_eq!(step.commands, begin(6));
    assert_eq!(job.auth_len, 3);
    assert_eq!(job.control, AesControl::Ccm { m: 3, l: 2, encrypt: true });
}

#[test]
fn ccm_field_sizes() {
    let mut crypto = ccm_engine();
    for (auth, m) in [(0u8, 0u8), (1, 0), (2, 0), (3, 0), (4, 1), (6, 2), (8, 3), (10, 4), (12, 5), (14, 6), (16, 7), (255, 126)] {
        let info = AesCcmInfo::new(0, 2, auth);
        let (job, _) = crypto.ccm_decrypt(0, &info, &[0; 13], &[], &[]).unwrap();
        assert_eq!(job.control, AesControl::Ccm { m, l: 1, encrypt: false });
    }
    for len in 1u8..=15 {
        let info = AesCcmInfo::new(0, len, 4);
        let nonce = vec![0u8; 15 - len as usize];
        let (job, _) = crypto.ccm_encrypt(0, &info, &nonce, &[], &[]).unwrap();
        assert_eq!(job.control, AesControl::Ccm { m: 1, l: len - 1, encrypt: true });
    }
}

#[test]
fn ccm_iv_holds_the_length_field_size_and_the_nonce() {
    let mut crypto = ccm_engine();
    let info = AesCcmInfo::new(0, 2, 0);
    let nonce = [
        0x00, 0x00, 0xf0, 0xe0, 0xd0, 0xc0, 0xb0, 0xa0, 0x00, 0x00, 0x00, 0x00, 0x05,
    ];
    let (job, _) = crypto.ccm_encrypt(0, &info, &nonce, &[0; 20], &[0; 20]).unwrap();
    assert_eq!(
        job.iv,
        Some([
            0x01, 0x00, 0x00, 0xf0, 0xe0, 0xd0, 0xc0, 0xb0, 0xa0, 0x00, 0x00, 0x00, 0x00, 0x05,
            0x00, 0x00
        ])
    );
    let info = AesCcmInfo::new(0, 8, 0);
    let (job, _) = crypto.ccm_encrypt(0, &info, &[1, 2, 3, 4, 5, 6, 7], &[], &[]).unwrap();
    assert_eq!(job.iv, Some([7, 1, 2, 3, 4, 5, 6, 7, 0, 0, 0, 0, 0, 0, 0, 0]));
    let info = AesCcmInfo::new(0, 15, 0);
    let (job, _) = crypto.ccm_encrypt(0, &info, &[], &[], &[]).unwrap();
    assert_eq!(job.iv, Some([14, 0, 0, 0, 0, 0, 0, 0, 0, 0, 0, 0, 0, 0, 0, 0]));
    let info = AesCcmInfo::new(0, 1, 0);
    let (job, _) = crypto.ccm_encrypt(0, &info, &[9; 14], &[], &[]).unwrap();
    assert_eq!(job.iv, Some([0, 9, 9, 9, 9, 9, 9, 9, 9, 9, 9, 9, 9, 9, 9, 0]));
}

#[test]
fn ccm_encrypt_without_associated_data() {
    let mut crypto = ccm_engine();
    let adata: [u8; 0] = [];
    let info = AesCcmInfo::new(0, 2, 0).with_added_auth_data(&adata);
    let nonce = [
        0x00, 0x00, 0xf0, 0xe0, 0xd0, 0xc0, 0xb0, 0xa0, 0x00, 0x00, 0x00, 0x00, 0x05,
    ];
    let (mut job, step) = crypto.ccm_encrypt(0, &info, &nonce, &[0; 20], &[0; 20]).unwrap();
    assert_eq!(step.commands, begin(0));
    assert_eq!(step.progress, Progress::Pending);
    let step = crypto.auth_crypt_step(&mut job, 0);
    let mut expected = vec![
        w(AesReg::AesIv0, 0xf000_0001),
        w(AesReg::AesIv1, 0xb0c0_d0e0),
        w(AesReg::AesIv2, 0x0000_00a0),
        w(AesReg::AesIv3, 0x0000_0500),
        m(AesReg::AesCtrl, 0x21fc_01c4, 0x200c_0044),
        w(AesReg::AesCLength0, 20),
        w(AesReg::AesCLength1, 0),
        w(AesReg::AesAuthLength, 0),
    ];
    expected.extend(dma_in(DmaBuffer::Input, 20));
    expected.extend(dma_out(DmaBuffer::Output, 20));
    expected.push(wait_set(AesReg::CtrlIntStat, 0xe000_0001));
    expected.extend([
        read(AesReg::AesTagOut0),
        read(AesReg::AesTagOut1),
        read(AesReg::AesTagOut2),
        read(AesReg::AesTagOut3),
    ]);
    assert_eq!(step.commands, expected);
    assert_eq!(step.progress, Progress::Done);
    assert!(job.gives_tag());
}

#[test]
fn ccm_without_associated_data_still_tells_its_length() {
    let mut crypto = ccm_engine();
    let info = AesCcmInfo::new(0, 2, 4);
    let (mut job, _) = crypto.ccm_decrypt(0, &info, &[0; 13], &[], &[]).unwrap();
    let step = crypto.auth_crypt_step(&mut job, 0);
    assert_eq!(
        step.commands,
        vec![
            w(AesReg::AesIv0, 1),
            w(AesReg::AesIv1, 0),
            w(AesReg::AesIv2, 0),
            w(AesReg::AesIv3, 0),
            m(AesReg::AesCtrl, 0x21fc_01c4, 0x204c_0040),
            w(AesReg::AesCLength0, 0),
            w(AesReg::AesCLength1, 0),
            w(AesReg::AesAuthLength, 0),
            wait_set(AesReg::CtrlIntStat, 0xe000_0001),
        ]
    );
    assert!(!job.gives_tag());
}

#[test]
fn ccm_decrypt_with_associated_data_takes_three_steps() {
    let mut crypto = ccm_engine();
    let adata = [0xaau8; 8];
    let info = AesCcmInfo::new(2, 2, 8).with_added_auth_data(&adata);
    let (mut job, step) = crypto.ccm_decrypt(0, &info, &[3; 13], &[0; 24], &[0; 24]).unwrap();
    assert_eq!(step.commands, begin(2));

    let step = crypto.auth_crypt_step(&mut job, 0x1);
    assert_eq!(job.stage, AuthStage::AuthData);
    assert_eq!(step.progress, Progress::Pending);
    let mut expected = vec![
        w(AesReg::AesIv0, 0x0303_0301),
        w(AesReg::AesIv1, 0x0303_0303),
        w(AesReg::AesIv2, 0x0303_0303),
        w(AesReg::AesIv3, 0x0000_0303),
        m(AesReg::AesCtrl, 0x21fc_01c4, 0x20cc_0040),
        w(AesReg::AesCLength0, 24),
        w(AesReg::AesCLength1, 0),
        w(AesReg::AesAuthLength, 8),
    ];
    expected.extend(dma_in(DmaBuffer::AuthData, 8));
    expected.push(read(AesReg::CtrlIntStat));
    assert_eq!(step.commands, expected);

    let step = crypto.auth_crypt_step(&mut job, 0x2);
    assert_eq!(job.stage, AuthStage::Done);
    assert_eq!(step.progress, Progress::Done);
    let mut expected = vec![w(AesReg::CtrlIntClr, 0x2)];
    expected.extend(dma_in(DmaBuffer::Input, 24));
    expected.extend(dma_out(DmaBuffer::Output, 24));
    expected.push(wait_set(AesReg::CtrlIntStat, 0xe000_0001));
    assert_eq!(step.commands, expected);
}

#[test]
fn ccm_encrypt_with_associated_data_reads_the_tag_last() {
    let mut crypto = ccm_engine();
    let adata = [0xaau8; 3];
    let info = AesCcmInfo::new(0, 2, 16).with_added_auth_data(&adata);
    let (mut job, _) = crypto.ccm_encrypt(0, &info, &[3; 13], &[], &[]).unwrap();
    let step = crypto.auth_crypt_step(&mut job, 0);
    assert_eq!(step.commands[4], m(AesReg::AesCtrl, 0x21fc_01c4, 0x21cc_0044));
    assert_eq!(step.commands[7], w(AesReg::AesAuthLength, 3));
    assert_eq!(step.commands.len(), 13);
    let step = crypto.auth_crypt_step(&mut job, 0);
    assert_eq!(
        step.commands,
        vec![
            w(AesReg::CtrlIntClr, 0x2),
            wait_set(AesReg::CtrlIntStat, 0xe000_0001),
            read(AesReg::AesTagOut0),
            read(AesReg::AesTagOut1),
            read(AesReg::AesTagOut2),
            read(AesReg::AesTagOut3),
        ]
    );
    assert_eq!(step.progress, Progress::Done);
}

#[test]
fn bus_error_after_the_associated_data_ends_the_operation() {
    let mut crypto = ccm_engine();
    let adata = [0xaau8; 8];
    let info = AesCcmInfo::new(2, 2, 8).with_added_auth_data(&adata);
    let (mut job, _) = crypto.ccm_encrypt(0, &info, &[3; 13], &[0; 24], &[0; 24]).unwrap();
    crypto.auth_crypt_step(&mut job, 0);
    let step = crypto.auth_crypt_step(&mut job, 0x8000_0002);
    assert_eq!(step.progress, Progress::Failed(CryptoError::DmaError));
    assert_eq!(step.commands, vec![]);
    assert_eq!(job.stage, AuthStage::Failed(CryptoError::DmaError));
    let step = crypto.auth_crypt_step(&mut job, 0);
    assert_eq!(step.progress, Progress::Failed(CryptoError::DmaError));
    assert_eq!(step.commands, vec![]);
}

#[test]
fn ccm_on_an_engine_in_use_asks_nothing() {
    let mut crypto = ccm_engine();
    let info = AesCcmInfo::new(0, 2, 8);
    let started = crypto.ccm_encrypt(1, &info, &[3; 13], &[0; 24], &[0; 24]);
    assert_eq!(started.err(), Some(CryptoError::AesBusy));
    let started = crypto.ccm_decrypt(1, &info, &[3; 13], &[0; 24], &[0; 24]);
    assert_eq!(started.err(), Some(CryptoError::AesBusy));
    // Parameters that make no initialization vector are not looked at
    // while the engine is in use.
    let info = AesCcmInfo::new(0, 0, 8);
    let started = crypto.ccm_encrypt(1, &info, &[3; 2], &[], &[]);
    assert_eq!(started.err(), Some(CryptoError::AesBusy));
}

#[test]
fn ccm_steps_are_the_same_for_the_same_inputs() {
    let mut crypto = ccm_engine();
    let adata = [0x55u8; 5];
    let info = AesCcmInfo::new(1, 3, 6).with_added_auth_data(&adata);
    let run = |crypto: &mut Crypto<AesEngine<AesCcm>>| {
        let (mut job, first) = crypto.ccm_encrypt(0, &info, &[7; 12], &[0; 9], &[0; 9]).unwrap();
        let second = crypto.auth_crypt_step(&mut job, 0);
        let third = crypto.auth_crypt_step(&mut job, 0);
        (first.commands, second.commands, third.commands)
    };
    assert_eq!(run(&mut crypto), run(&mut crypto));
}

#[test]
fn modes_are_selected_from_the_aes_engine() {
    let crypto = Crypto::new().aes_engine();
    let crypto = crypto.cbc_mode().release().aes_engine();
    let crypto = crypto.cbc_mac_mode().release().aes_engine();
    let crypto = crypto.ecb_mode().release().aes_engine();
    let crypto = crypto.gcm_mode().release().aes_engine();
    let mut crypto = crypto.ctr_mode();
    let keys = AesKeys::create(&[AesKey::Key128(KEY_128)], AesKeySize::Key128, 0);
    let (_, step) = crypto.load_key(0, 0, &keys).unwrap();
    assert_eq!(step.commands.len(), 12);
}

#[test]
fn keys_fit_in_eight_areas() {
    let one = AesKey::Key128([0; 16]);
    let two = AesKey::Key256([0; 32]);
    assert_eq!(one.areas(), 1);
    assert_eq!(two.areas(), 2);
    assert_eq!(AesKey::Key192([0; 24]).areas(), 2);
    assert!(keys_fit(&[], 0));
    assert!(keys_fit(&[], 8));
    assert!(!keys_fit(&[], 9));
    assert!(keys_fit(&[one], 7));
    assert!(!keys_fit(&[one], 8));
    assert!(keys_fit(&[two, two, two, two], 0));
    assert!(!keys_fit(&[two, two, two, two], 1));
    assert!(!keys_fit(&[two, two, two, two, one], 0));
    assert!(keys_fit(&[two, one, two], 3));
    assert!(!keys_fit(&[one; 300], 0));
}

#[test]
fn keys_are_valid_within_the_key_store() {
    let mut keys = AesKeys::create(&[AesKey::Key128(KEY_128)], AesKeySize::Key128, 7);
    assert!(keys.is_valid());
    keys.start_area = 8;
    assert!(!keys.is_valid());
    keys.start_area = 0;
    keys.count = 8;
    assert!(keys.is_valid());
    keys.count = 255;
    keys.start_area = 255;
    assert!(!keys.is_valid());
}

#[test]
fn ccm_info_hands_its_parameters_out() {
    let adata = [1u8, 2, 3];
    let info = AesCcmInfo::new(6, 3, 8);
    assert_eq!(info.key_index(), 6);
    assert_eq!(info.len_field_size(), 3);
    assert_eq!(info.auth_field_size(), 8);
    assert_eq!(info.adata(), None);
    let info = info.with_added_auth_data(&adata);
    assert_eq!(info.key_index(), 6);
    assert_eq!(info.len_field_size(), 3);
    assert_eq!(info.auth_field_size(), 8);
    assert_eq!(info.adata(), Some(&adata[..]));
}

#[test]
fn counter_width_numbers() {
    assert_eq!(CtrWidth::Width128.bits(), 0);
    assert_eq!(CtrWidth::Width256.bits(), 1);
    assert_eq!(CtrWidth::default(), CtrWidth::Width128);
}

#[test]
fn registers_that_cannot_be_read_or_written() {
    for reg in [
        AesReg::AesCLength1,
        AesReg::AesAuthLength,
        AesReg::HashModeIn,
        AesReg::HashLengthInL,
        AesReg::HashLengthInH,
        AesReg::CtrlIntClr,
    ] {
        assert!(!reg.readable());
        assert!(reg.writable());
        assert!(w(reg, 0).is_valid());
        assert!(!read(reg).is_valid());
        assert!(!m(reg, 0, 0).is_valid());
        assert!(!wait_set(reg, 1).is_valid());
        assert!(!wait_clear(reg, 1).is_valid());
    }
    for reg in [
        AesReg::AesTagOut0,
        AesReg::AesTagOut1,
        AesReg::AesTagOut2,
        AesReg::AesTagOut3,
        AesReg::CtrlIntStat,
    ] {
        assert!(reg.readable());
        assert!(!reg.writable());
        assert!(read(reg).is_valid());
        assert!(wait_set(reg, 1).is_valid());
        assert!(!w(reg, 0).is_valid());
        assert!(!m(reg, 0, 0).is_valid());
        assert!(!point(reg, DmaBuffer::Input).is_valid());
    }
    for reg in [AesReg::AesCtrl, AesReg::CtrlAlgSel, AesReg::DmacCh0Dmalength, AesReg::HashDigestA] {
        assert!(reg.readable() && reg.writable());
        assert!(m(reg, 0, 0).is_valid());
    }
    assert!(AesCommand::Fetch { buffer: DmaBuffer::Digest, word: 7 }.is_valid());
    assert!(!AesCommand::Fetch { buffer: DmaBuffer::Digest, word: 8 }.is_valid());
    assert!(!AesCommand::Fetch { buffer: DmaBuffer::Input, word: 0 }.is_valid());
}

#[test]
fn cipher_operations_ask_what_the_engine_can_do() {
    let mut crypto = ccm_engine();
    let adata = [0xaau8; 8];
    let keys = AesKeys::create(&[AesKey::Key128(KEY_128)], AesKeySize::Key128, 0);
    let (mut load, step) = crypto.load_key(0, 3, &keys).unwrap();
    assert!(step.commands.iter().all(|c| c.is_valid()));
    for reading in [0x8000_0000u32, 0x4000_0000, 1] {
        let mut job = load;
        assert!(crypto.load_key_step(&mut job, reading).commands.iter().all(|c| c.is_valid()));
    }
    crypto.load_key_step(&mut load, 1);
    for info in [AesCcmInfo::new(0, 2, 8), AesCcmInfo::new(0, 2, 8).with_added_auth_data(&adata)] {
        let (mut job, step) = crypto.ccm_encrypt(0, &info, &[0; 13], &[1; 5], &[0; 5]).unwrap();
        assert!(step.commands.iter().all(|c| c.is_valid()));
        let step = crypto.auth_crypt_step(&mut job, 0);
        assert!(!step.commands.is_empty());
        assert!(step.commands.iter().all(|c| c.is_valid()));
        let step = crypto.auth_crypt_step(&mut job, 0);
        assert!(step.commands.iter().all(|c| c.is_valid()));
    }
}
