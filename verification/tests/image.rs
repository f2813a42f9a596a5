use ec_slimloader::error::BootError;
use ec_slimloader::image::{
    certificate_block, image_rkhs, image_rkth, rkhs_in_bounds, CertificateBlockHeader,
};
use ec_slimloader::rkh::{Rkh, Rkth, HASH_LEN, RKH_COUNT, TABLE_LEN};

/// The bytes 0, 1, 2 and so on.
fn counting(len: usize) -> Vec<u8> {
    (0..len).map(|i| i as u8).collect()
}

/// Stands in for a hash function: shows the first and last byte, and the sum of all.
fn digest(table: &[u8]) -> [u8; 32] {
    let mut digest = [0u8; 32];
    digest[0] = table[0];
    digest[1] = table[table.len() - 1];
    digest[2] = table.iter().fold(0u8, |sum, byte| sum.wrapping_add(*byte));
    digest[3] = table.len() as u8;
    digest
}

const HEADER: CertificateBlockHeader =
    CertificateBlockHeader { header_length: 0x20, certificate_table_length: 10 };

#[test]
fn table_sizes_fit_together() {
    assert_eq!(HASH_LEN * RKH_COUNT, TABLE_LEN);
    assert_eq!(std::mem::size_of::<[Rkh; 4]>(), TABLE_LEN);
}

#[test]
fn table_is_read_off_the_start() {
    let data = counting(140);
    let rkhs = Rkh::read_all_from_slice(&data).unwrap();
    for (i, rkh) in rkhs.iter().enumerate() {
        assert_eq!(rkh.0[..], data[32 * i..32 * i + 32]);
    }
}

#[test]
fn short_data_holds_no_table() {
    assert!(Rkh::read_all_from_slice(&counting(127)).is_none());
    assert!(Rkh::read_all_from_slice(&[]).is_none());
    assert!(Rkh::read_all_from_slice(&counting(128)).is_some());
}

#[test]
fn whole_table_is_hashed_in_order() {
    let data = counting(128);
    let rkhs = Rkh::read_all_from_slice(&data).unwrap();
    let rkth = Rkh::to_rkth(&rkhs, |table: &[u8]| -> Result<[u8; 32], ()> {
        assert_eq!(table, &data[..]);
        Ok(digest(table))
    });
    assert_eq!(rkth, Ok(Rkth(digest(&data))));
}

#[test]
fn failing_hash_is_reported() {
    let rkhs = Rkh::read_all_from_slice(&counting(128)).unwrap();
    let rkth = Rkh::to_rkth(&rkhs, |_: &[u8]| -> Result<[u8; 32], &str> { Err("busy") });
    assert_eq!(rkth, Err(BootError::Hash));
    assert_eq!(Rkth::from_digest::<()>(Err(())), Err(BootError::Hash));
    assert_eq!(Rkth::from_digest::<()>(Ok([9; 32])), Ok(Rkth([9; 32])));
}

#[test]
fn hashes_are_compared_byte_for_byte() {
    let mut other = [7u8; 32];
    assert_eq!(Rkh([7; 32]), Rkh(other));
    assert_eq!(Rkth([7; 32]), Rkth(other));
    other[31] = 8;
    assert_ne!(Rkh([7; 32]), Rkh(other));
    assert_ne!(Rkth([7; 32]), Rkth(other));
}

#[test]
fn certificate_block_starts_at_its_offset() {
    let image = counting(50);
    assert_eq!(certificate_block(&image, 20), &image[20..]);
    assert!(certificate_block(&image, 50).is_empty());
}

#[test]
fn table_must_start_inside_the_image() {
    assert!(rkhs_in_bounds(142, 100, HEADER));
    assert!(!rkhs_in_bounds(141, 100, HEADER));
    let huge = CertificateBlockHeader { header_length: u32::MAX, certificate_table_length: u32::MAX };
    assert!(!rkhs_in_bounds(1000, u32::MAX, huge));
}

#[test]
fn root_keys_come_after_header_and_certificates() {
    let image = counting(300);
    let rkhs = image_rkhs(&image, 100, Some(HEADER)).unwrap();
    assert_eq!(rkhs[0].0[..], image[142..174]);
    assert_eq!(rkhs[3].0[..], image[238..270]);
    let rkth =
        image_rkth(&image, 100, Some(HEADER), |table: &[u8]| Ok::<_, ()>(digest(table)));
    assert_eq!(rkth, Ok(Rkth(digest(&image[142..270]))));
}

#[test]
fn image_that_ends_too_early_is_too_large() {
    let image = counting(270);
    assert!(image_rkhs(&image, 100, Some(HEADER)).is_ok());
    assert_eq!(image_rkhs(&image[..269], 100, Some(HEADER)).err(), Some(BootError::TooLarge));
    assert_eq!(image_rkhs(&image, 100, None).err(), Some(BootError::TooLarge));
}

#[test]
fn nothing_is_hashed_without_a_table() {
    let image = counting(200);
    let never = |_: &[u8]| -> Result<[u8; 32], ()> { panic!("there is no table") };
    assert_eq!(image_rkth(&image, 100, None, never), Err(BootError::TooLarge));
    assert_eq!(image_rkth(&image, 100, Some(HEADER), never), Err(BootError::TooLarge));
}

#[test]
fn hash_error_of_an_image_is_reported() {
    let image = counting(300);
    let fails = |_: &[u8]| -> Result<[u8; 32], ()> { Err(()) };
    assert_eq!(image_rkth(&image, 0, Some(HEADER), fails), Err(BootError::Hash));
}
