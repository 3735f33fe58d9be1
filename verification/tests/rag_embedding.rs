use rebe_core::rag::embedding::{
    blob_to_vector, is_valid_embedding_blob, pseudo_char_count, pseudo_slot, vector_to_blob, EMBEDDING_DIM,
};

fn bits(v: &[f32]) -> Vec<u32> {
    v.iter().map(|x| x.to_bits()).collect()
}

fn floats(v: &[u32]) -> Vec<f32> {
    v.iter().map(|x| f32::from_bits(*x)).collect()
}

#[test]
fn test_blob_roundtrip() {
    let v = vec![1.0f32, -2.5, 3.14, 0.0];
    let blob = vector_to_blob(&bits(&v));
    let recovered = floats(&blob_to_vector(&blob));
    assert_eq!(v, recovered);
}

#[test]
fn blob_is_little_endian_float_bytes() {
    let v = vec![1.0f32, -2.5, 3.14, 0.0];
    let mut expected = Vec::new();
    for x in &v {
        expected.extend_from_slice(&x.to_le_bytes());
    }
    assert_eq!(vector_to_blob(&bits(&v)), expected);
    assert_eq!(vector_to_blob(&[0x0403_0201]), vec![1, 2, 3, 4]);
    assert_eq!(blob_to_vector(&[1, 2, 3, 4]), vec![0x0403_0201]);
    assert!(vector_to_blob(&[]).is_empty());
}

#[test]
fn bytes_that_fill_no_element_are_left_out() {
    assert_eq!(blob_to_vector(&[1, 2, 3, 4, 5, 6, 7]), vec![0x0403_0201]);
    assert!(blob_to_vector(&[1, 2, 3]).is_empty());
    assert!(blob_to_vector(&[]).is_empty());
}

#[test]
fn only_blobs_of_384_elements_are_valid() {
    assert_eq!(EMBEDDING_DIM, 384);
    assert!(is_valid_embedding_blob(&vec![0u8; 384 * 4]));
    assert!(!is_valid_embedding_blob(&vec![0u8; 384 * 4 - 1]));
    assert!(!is_valid_embedding_blob(&vec![0u8; 384 * 4 + 4]));
    assert!(!is_valid_embedding_blob(&[]));
    assert!(is_valid_embedding_blob(&vector_to_blob(&vec![7u32; 384])));
}

#[test]
fn pseudo_slot_is_the_hashed_index() {
    assert_eq!(pseudo_slot('a', 0, 0), (97 * 31) % 384);
    assert_eq!(pseudo_slot('a', 3, 5), (97 * 31 + 3 * 17 + 5 * 37) % 384);
    assert_eq!(pseudo_slot('예', 499, 383), (0xC608usize * 31 + 499 * 17 + 383 * 37) % 384);
    let top = char::from_u32(0x10FFFF).unwrap();
    assert_eq!(pseudo_slot(top, 499, 383), (0x10FFFFusize * 31 + 499 * 17 + 383 * 37) % 384);
    // The same as the wrapping 32-bit arithmetic masked to 31 bits.
    let code = '크' as u32;
    let expected = ((code.wrapping_mul(31).wrapping_add(7 * 17).wrapping_add(11 * 37)) & 0x7fffffff) as usize % 384;
    assert_eq!(pseudo_slot('크', 7, 11), expected);
}

#[test]
fn pseudo_embedding_reads_at_most_500_characters() {
    assert_eq!(pseudo_char_count(""), 0);
    assert_eq!(pseudo_char_count("hello world"), 11);
    assert_eq!(pseudo_char_count("예산 관련"), 5);
    assert_eq!(pseudo_char_count(&"가".repeat(500)), 500);
    assert_eq!(pseudo_char_count(&"가".repeat(501)), 500);
}
