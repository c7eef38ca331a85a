use astra_emu_cmvs::error::CmvsError;
use astra_emu_cmvs::jbp::bitstream::JBitStream;
use astra_emu_cmvs::jbp::color::{apply_alpha, clamp, inverse_dct, wrap_i16};
use astra_emu_cmvs::jbp::huffman::{select_minimum, HuffmanTree};
use astra_emu_cmvs::jbp::{align, decode_jbp, JbpBounds};

#[test]
fn alpha_runs_fill_exactly_the_declared_pixels() {
    let mut pixels = vec![0_u8; 12];
    apply_alpha(&[0, 2, 0xff, 1], 0, 4, &mut pixels).unwrap();
    assert_eq!(pixels[3], 0);
    assert_eq!(pixels[7], 0);
    assert_eq!(pixels[11], 0xff);
}

#[test]
fn alpha_runs_cannot_exceed_the_image() {
    let mut pixels = vec![0_u8; 4];
    assert_eq!(
        apply_alpha(&[0, 2], 0, 2, &mut pixels).unwrap_err().code(),
        "ASTRA_EMU_CMVS_JBP_ALPHA"
    );
    assert_eq!(pixels, vec![0, 0, 0, 0]);
}

#[test]
fn a_refused_alpha_stream_keeps_the_runs_before_its_fault() {
    let mut pixels = vec![1_u8; 12];
    assert_eq!(apply_alpha(&[9, 0xff, 5], 0, 3, &mut pixels), Err(CmvsError::JbpAlpha));
    assert_eq!(pixels, vec![1, 1, 1, 9, 1, 1, 1, 1, 1, 1, 1, 1]);
    let mut pixels = vec![1_u8; 12];
    assert_eq!(apply_alpha(&[0, 2], 0, 2, &mut pixels), Err(CmvsError::JbpAlpha));
    assert_eq!(pixels, vec![1, 1, 1, 0, 1, 1, 1, 0, 1, 1, 1, 1]);
    let mut pixels = vec![1_u8; 4];
    assert_eq!(apply_alpha(&[3], 0, 2, &mut pixels), Err(CmvsError::JbpAlpha));
    assert_eq!(pixels, vec![1, 1, 1, 1]);
}

#[test]
fn bit_stream_reads_msb_first() {
    let mut bits = JBitStream::new(&[0b0000_0011], 0, 1, CmvsError::JbpDcBits).unwrap();
    assert_eq!(bits.get_bits(2).unwrap(), 0b00);
    assert_eq!(bits.get_bits(2).unwrap(), 0b00);
    assert_eq!(bits.get_bits(3).unwrap(), 0b001);
    assert_eq!(bits.get_bits(1).unwrap(), 1);
}

#[test]
fn bit_stream_spans_bytes_and_reports_truncation_with_its_code() {
    let mut bits = JBitStream::new(&[0xa5, 0x0f], 0, 2, CmvsError::JbpAcBits).unwrap();
    assert_eq!(bits.get_bits(4).unwrap(), 0xa);
    assert_eq!(bits.get_bits(8).unwrap(), 0x50);
    assert_eq!(bits.next_bit().unwrap(), 1);
    assert_eq!(bits.get_bits(4).unwrap_err(), CmvsError::JbpAcBits);
    let mut wide = JBitStream::new(&[0; 8], 0, 8, CmvsError::JbpDcBits).unwrap();
    assert_eq!(wide.get_bits(25).unwrap_err(), CmvsError::JbpDcBits);
    assert!(JBitStream::new(&[0; 2], 1, 2, CmvsError::JbpDcBits).is_err());
}

#[test]
fn alpha_single_values_and_truncated_runs() {
    let mut pixels = vec![0_u8; 8];
    apply_alpha(&[7, 9], 0, 2, &mut pixels).unwrap();
    assert_eq!(pixels, vec![0, 0, 0, 7, 0, 0, 0, 9]);
    let mut pixels = vec![0_u8; 8];
    assert_eq!(apply_alpha(&[0xff], 0, 1, &mut pixels).unwrap_err(), CmvsError::JbpAlpha);
    assert_eq!(apply_alpha(&[0xff, 0], 0, 2, &mut pixels).unwrap_err(), CmvsError::JbpAlpha);
    assert_eq!(apply_alpha(&[7], 1, 0, &mut pixels).unwrap_err(), CmvsError::JbpAlpha);
}

#[test]
fn clamp_and_wrap_follow_byte_and_word_limits() {
    assert_eq!(clamp(-5), 0);
    assert_eq!(clamp(300), 255);
    assert_eq!(clamp(17), 17);
    assert_eq!(wrap_i16(0x1_8000), -32768);
    assert_eq!(wrap_i16(-1), -1);
}

#[test]
fn align_rounds_up_to_the_block_size() {
    assert_eq!(align(1, 8).unwrap(), 8);
    assert_eq!(align(16, 16).unwrap(), 16);
    assert_eq!(align(33, 32).unwrap(), 64);
    assert_eq!(align(usize::MAX, 8).unwrap_err(), CmvsError::JbpDimensions);
}

#[test]
fn dc_only_block_transforms_to_a_flat_block() {
    let mut values = [0_i16; 64];
    values[0] = 16;
    let quantization = [1_i16; 64];
    inverse_dct(&mut values, &quantization).unwrap();
    assert!(values.iter().all(|v| *v == 2));
}

#[test]
fn select_minimum_prefers_the_first_least_frequency() {
    let mut frequency = [u32::MAX; 31];
    frequency[0] = 5;
    frequency[1] = 3;
    frequency[2] = 3;
    assert_eq!(select_minimum(&frequency, 16, None).unwrap(), 1);
    assert_eq!(select_minimum(&frequency, 16, Some(1)).unwrap(), 2);
    assert_eq!(select_minimum(&frequency, 1, Some(0)).unwrap_err(), CmvsError::JbpTree);
}

#[test]
fn huffman_tree_reads_leaves_by_bits() {
    let base: [u8; 16] = std::array::from_fn(|i| i as u8 + 1);
    let mut frequency = [0_u32; 31];
    for (i, f) in frequency.iter_mut().take(16).enumerate() {
        *f = 1 + i as u32;
    }
    let tree = HuffmanTree::new(base, frequency).unwrap();
    let mut bits = JBitStream::new(&[0xff, 0xff], 0, 2, CmvsError::JbpDcBits).unwrap();
    let leaf = tree.read(&mut bits).unwrap();
    assert!((1..=16).contains(&leaf));
    let overflow = {
        let mut f = [0_u32; 31];
        f[0] = u32::MAX - 2;
        f[1] = u32::MAX - 2;
        f
    };
    assert_eq!(HuffmanTree::new(base, overflow).err(), Some(CmvsError::JbpTree));
}

#[test]
fn jbp_rejects_bad_depth_and_short_headers() {
    let source = vec![0_u8; 0x40];
    let bounds = JbpBounds { payload_end: 0x40, alpha: None };
    assert_eq!(decode_jbp(&source, 0, 1, 1, 16, bounds).unwrap_err(), CmvsError::JbpBpp);
    assert_eq!(decode_jbp(&source, 0x30, 1, 1, 24, bounds).unwrap_err(), CmvsError::JbpHeader);
    let bad = JbpBounds { payload_end: 0x41, alpha: None };
    assert_eq!(decode_jbp(&source, 0, 1, 1, 24, bad).unwrap_err(), CmvsError::JbpLayout);
}
