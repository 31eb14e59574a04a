//! The packaging core of the pipeline: from the ordered tile payloads and
//! the palette payload, produced by the image component, to the bytes of
//! the one distributable artifact. The surrounding stages (argument
//! handling, reading the image, writing the artifact) are I/O and stay
//! outside the library.

use vstd::prelude::*;

use crate::archive::{assemble, container_entries, distinct_names, tar_unpack, ArchiveError};
use crate::compress::{compress, gunzip};
use crate::payload::{valid_payload_name, views_of, Payload};

verus! {

/// Assembles the container over all payloads and compresses it: the bytes
/// of the final artifact. Round trip: decompressing the result yields the
/// assembled container, and reading that container back yields one entry
/// per tile payload, in the given order, then the palette entry, each with
/// its exact name, recorded length and bytes.
pub fn package(tiles: &Vec<Payload>, palette: &Payload) -> (r: Result<Vec<u8>, ArchiveError>)
    requires
        forall|i: int| 0 <= i < tiles@.len() ==> valid_payload_name(tiles@[i]@.name),
        valid_payload_name(palette@.name),
        distinct_names(views_of(tiles@), palette@),
    ensures
        r is Ok,
        gunzip(r.unwrap()@) is Some,
        tar_unpack(gunzip(r.unwrap()@).unwrap()) == Some(
            container_entries(views_of(tiles@), palette@),
        ),
{
    let container = match assemble(tiles, palette) {
        Ok(c) => c,
        Err(e) => {
            return Err(e);
        },
    };
    compress(&container)
}

} // verus!
