//! What holds of every image.
#[allow(unused_imports)]
use crate::error::BootError;
#[allow(unused_imports)]
use crate::image::{finds_rkhs, hashes_to, rkhs_offset, CertificateBlockHeader};
#[allow(unused_imports)]
use crate::rkh::{rkth_of, table_bytes, Rkh, Rkth};
#[allow(unused_imports)]
use crate::rkh_laws::{law_bytes_in_place, law_digest_is_kept};
use vstd::prelude::*;

verus! {

/// Whether an image is laid out as its header says: `before` comes before the certificate
/// block, then come the header and the certificates, then `table`, then whatever is `after`.
pub open spec fn laid_out(
    image: Seq<u8>,
    header_offset: u32,
    header: CertificateBlockHeader,
    before: Seq<u8>,
    head: Seq<u8>,
    certificates: Seq<u8>,
    table: Seq<u8>,
    after: Seq<u8>,
) -> bool {
    &&& before.len() == header_offset
    &&& head.len() == header.header_length
    &&& certificates.len() == header.certificate_table_length
    &&& image == before + head + certificates + table + after
}

/// The table of root key hashes starts right behind the certificates, which start right
/// behind the header: each of the three lengths counts in full.
pub proof fn law_table_is_behind_the_certificates(
    header_offset: u32,
    header: CertificateBlockHeader,
)
    ensures
        rkhs_offset(header_offset, header) - header_offset - header.header_length
            == header.certificate_table_length,
{
}

/// An image gives back the very table of root key hashes that was put behind its
/// certificates, whatever stands around it.
pub proof fn law_table_is_found(
    image: Seq<u8>,
    header_offset: u32,
    header: CertificateBlockHeader,
    before: Seq<u8>,
    head: Seq<u8>,
    certificates: Seq<u8>,
    rkhs: [Rkh; 4],
    after: Seq<u8>,
    result: Result<[Rkh; 4], BootError>,
)
    requires
        laid_out(
            image,
            header_offset,
            header,
            before,
            head,
            certificates,
            table_bytes(rkhs),
            after,
        ),
        finds_rkhs(image, header_offset, Some(header), result),
    ensures
        result matches Ok(found) && forall|i: int, j: int|
            0 <= i < 4 && 0 <= j < 32 ==> #[trigger] found@[i].0@[j] == rkhs@[i].0@[j],
{
    law_table_is_behind_the_certificates(header_offset, header);
    law_bytes_in_place(rkhs, 0, 0);
    let at = rkhs_offset(header_offset, header);
    assert(image.subrange(at, at + 128) =~= table_bytes(rkhs));
    let found = result->Ok_0;
    assert forall|i: int, j: int| 0 <= i < 4 && 0 <= j < 32 implies #[trigger] found@[i].0@[j]
        == rkhs@[i].0@[j] by {
        law_bytes_in_place(found, i, j);
        law_bytes_in_place(rkhs, i, j);
    }
}

/// An image has root key hashes exactly where its certificate block has a header, and all
/// 128 bytes of the table are inside. It is too large otherwise, and never anything else.
pub proof fn law_table_must_be_inside(
    image: Seq<u8>,
    header_offset: u32,
    header: Option<CertificateBlockHeader>,
    result: Result<[Rkh; 4], BootError>,
)
    requires
        finds_rkhs(image, header_offset, header, result),
    ensures
        result is Ok <==> {
            &&& header matches Some(header)
            &&& header_offset + header.header_length + header.certificate_table_length + 128
                <= image.len()
        },
        result matches Err(error) ==> error == BootError::TooLarge,
{
}

/// The root key table hash of an image is what the hash function makes of the very table
/// that was put behind its certificates, and the hash error where that function fails.
pub proof fn law_table_is_hashed<E, H: FnOnce(&[u8]) -> Result<[u8; 32], E>>(
    image: Seq<u8>,
    header_offset: u32,
    header: CertificateBlockHeader,
    before: Seq<u8>,
    head: Seq<u8>,
    certificates: Seq<u8>,
    table: Seq<u8>,
    after: Seq<u8>,
    sha256: H,
    result: Result<Rkth, BootError>,
)
    requires
        laid_out(image, header_offset, header, before, head, certificates, table, after),
        table.len() == 128,
        hashes_to(image, header_offset, Some(header), sha256, result),
    ensures
        exists|hashed: &[u8], digest: Result<[u8; 32], E>|
            {
                &&& hashed@ == table
                &&& #[trigger] call_ensures(sha256, (hashed,), digest)
                &&& digest matches Ok(bytes) ==> (result matches Ok(rkth) && rkth.0@ == bytes@)
                &&& digest is Err ==> result == Err::<Rkth, _>(BootError::Hash)
            },
{
    law_table_is_behind_the_certificates(header_offset, header);
    let at = rkhs_offset(header_offset, header);
    assert(image.subrange(at, at + 128) =~= table);
    let (hashed, digest): (&[u8], Result<[u8; 32], E>) = choose|
        hashed: &[u8],
        digest: Result<[u8; 32], E>,
    |
        {
            &&& hashed@ == image.subrange(at, at + 128)
            &&& #[trigger] call_ensures(sha256, (hashed,), digest)
            &&& result == rkth_of(digest)
        };
    law_digest_is_kept(digest);
    assert(call_ensures(sha256, (hashed,), digest));
}

/// An image whose table is not inside has no root key table hash: it is too large, whatever
/// the hash function would say.
pub proof fn law_nothing_hashed_without_table<E, H: FnOnce(&[u8]) -> Result<[u8; 32], E>>(
    image: Seq<u8>,
    header_offset: u32,
    header: Option<CertificateBlockHeader>,
    sha256: H,
    result: Result<Rkth, BootError>,
)
    requires
        hashes_to(image, header_offset, header, sha256, result),
        header matches Some(header) ==> image.len() < header_offset + header.header_length
            + header.certificate_table_length + 128,
    ensures
        result == Err::<Rkth, _>(BootError::TooLarge),
{
}

} // verus!
