//! Where an image keeps its root key hashes.
use crate::error::BootError;
use crate::rkh::{Rkh, Rkth, TABLE_LEN};
#[allow(unused_imports)]
use crate::rkh::{rkth_of, table_bytes};
#[allow(unused_imports)]
use crate::rkh_laws::law_hashed_as_read;
use vstd::prelude::*;
use vstd::slice::slice_subrange;

verus! {

/// The part of an image's vector table that says where the image is, and where in it the
/// certificate block starts.
#[derive(Clone, Copy, Debug, PartialEq, Eq, Structural)]
pub struct Ivt {
    /// The address in memory at which the image starts.
    pub target_ptr: usize,
    /// The number of bytes in the image.
    pub image_len: usize,
    /// Where in the image the header of the certificate block starts.
    pub header_offset: u32,
}

/// The part of a certificate block's header that says how long the parts of the block are.
#[derive(Clone, Copy, Debug, PartialEq, Eq, Structural)]
pub struct CertificateBlockHeader {
    /// The number of bytes in the header itself.
    pub header_length: u32,
    /// The number of bytes in the certificate table, which comes after the header.
    pub certificate_table_length: u32,
}

/// Where in an image the table of root key hashes starts: after the header of the
/// certificate block and the certificate table.
pub open spec fn rkhs_offset(header_offset: u32, header: CertificateBlockHeader) -> int {
    header_offset + header.header_length + header.certificate_table_length
}

/// The bytes of an image from the certificate block on.
pub fn certificate_block(image: &[u8], header_offset: u32) -> (block: &[u8])
    requires
        header_offset <= image@.len(),
    ensures
        block@ == image@.skip(header_offset as int),
{
    let block = slice_subrange(image, header_offset as usize, image.len());
    assert(block@ =~= image@.skip(header_offset as int));
    block
}

/// Whether the table of root key hashes starts inside an image of `image_len` bytes, or
/// right behind it.
pub fn rkhs_in_bounds(
    image_len: usize,
    header_offset: u32,
    header: CertificateBlockHeader,
) -> (inside: bool)
    ensures
        inside == (rkhs_offset(header_offset, header) <= image_len),
        inside == (header_offset + header.header_length + header.certificate_table_length
            <= image_len),
{
    let offset: u64 = header_offset as u64 + header.header_length as u64
        + header.certificate_table_length as u64;
    offset <= image_len as u64
}

/// Whether `result` is what there is to say of the root key hashes of an image.
///
/// They stand right behind the certificate table. It is [`BootError::TooLarge`] where the
/// certificate block has no header, or the image ends before the table of hashes does.
pub open spec fn finds_rkhs(
    image: Seq<u8>,
    header_offset: u32,
    header: Option<CertificateBlockHeader>,
    result: Result<[Rkh; 4], BootError>,
) -> bool {
    match header {
        None => result == Err::<[Rkh; 4], _>(BootError::TooLarge),
        Some(header) => {
            let at = rkhs_offset(header_offset, header);
            if at + TABLE_LEN > image.len() {
                result == Err::<[Rkh; 4], _>(BootError::TooLarge)
            } else {
                result matches Ok(rkhs) && table_bytes(rkhs) == image.subrange(at, at + TABLE_LEN)
            }
        },
    }
}

/// The root key hashes of an image.
///
/// It is [`BootError::TooLarge`] where the certificate block has no header, or the image
/// ends before the table does.
pub fn image_rkhs(
    image: &[u8],
    header_offset: u32,
    header: Option<CertificateBlockHeader>,
) -> (result: Result<[Rkh; 4], BootError>)
    requires
        header matches Some(header) ==> rkhs_offset(header_offset, header) <= image@.len(),
    ensures
        finds_rkhs(image@, header_offset, header, result),
        header is None ==> result is Err,
        result matches Err(error) ==> error == BootError::TooLarge,
        header matches Some(header) ==> {
            let at = header_offset + header.header_length + header.certificate_table_length;
            &&& result is Ok <==> at + 128 <= image@.len()
            &&& result matches Ok(rkhs) ==> forall|i: int, j: int|
                0 <= i < 4 && 0 <= j < 32 ==> #[trigger] rkhs@[i].0@[j] == image@[at + 32 * i + j]
        },
{
    let header = match header {
        Some(header) => header,
        None => {
            return Err(BootError::TooLarge);
        },
    };
    let image_len = image.len();
    let at: usize = header_offset as usize + header.header_length as usize
        + header.certificate_table_length as usize;
    let table = slice_subrange(image, at, image_len);
    match Rkh::read_all_from_slice(table) {
        Some(rkhs) => {
            proof {
                law_hashed_as_read(table@, rkhs);
                assert(table@.take(TABLE_LEN as int) =~= image@.subrange(
                    at as int,
                    at + TABLE_LEN,
                ));
            }
            Ok(rkhs)
        },
        None => Err(BootError::TooLarge),
    }
}

/// Whether `result` can be the root key table hash of an image under the given hash
/// function.
///
/// It is [`BootError::TooLarge`] where there is no table, and the function is not called.
/// Otherwise it is what the function makes of the table, as it stands in the image.
pub open spec fn hashes_to<E, H: FnOnce(&[u8]) -> Result<[u8; 32], E>>(
    image: Seq<u8>,
    header_offset: u32,
    header: Option<CertificateBlockHeader>,
    sha256: H,
    result: Result<Rkth, BootError>,
) -> bool {
    match header {
        None => result == Err::<Rkth, _>(BootError::TooLarge),
        Some(header) => {
            let at = rkhs_offset(header_offset, header);
            if at + TABLE_LEN > image.len() {
                result == Err::<Rkth, _>(BootError::TooLarge)
            } else {
                exists|table: &[u8], digest: Result<[u8; 32], E>|
                    {
                        &&& table@ == image.subrange(at, at + TABLE_LEN)
                        &&& #[trigger] call_ensures(sha256, (table,), digest)
                        &&& result == rkth_of(digest)
                    }
            }
        },
    }
}

/// The root key table hash of an image, under the given hash function.
pub fn image_rkth<E, H: FnOnce(&[u8]) -> Result<[u8; 32], E>>(
    image: &[u8],
    header_offset: u32,
    header: Option<CertificateBlockHeader>,
    sha256: H,
) -> (result: Result<Rkth, BootError>)
    requires
        header matches Some(header) ==> rkhs_offset(header_offset, header) <= image@.len(),
        forall|table: &[u8]|
            table@.len() == TABLE_LEN ==> #[trigger] call_requires(sha256, (table,)),
    ensures
        hashes_to(image@, header_offset, header, sha256, result),
        header is None ==> result == Err::<Rkth, _>(BootError::TooLarge),
        header matches Some(header) ==> {
            let at = header_offset + header.header_length + header.certificate_table_length;
            if at + 128 > image@.len() {
                result == Err::<Rkth, _>(BootError::TooLarge)
            } else {
                exists|table: &[u8], digest: Result<[u8; 32], E>|
                    {
                        &&& table@ == image@.subrange(at, at + 128)
                        &&& #[trigger] call_ensures(sha256, (table,), digest)
                        &&& digest matches Ok(bytes) ==> (result matches Ok(rkth) && rkth.0@
                            == bytes@)
                        &&& digest is Err ==> result == Err::<Rkth, _>(BootError::Hash)
                    }
            }
        },
{
    match image_rkhs(image, header_offset, header) {
        Ok(rkhs) => Rkh::to_rkth(&rkhs, sha256),
        Err(error) => Err(error),
    }
}

} // verus!
