//! Container assembly: each payload becomes one framed entry (name with a
//! fixed suffix, recorded length, fixed permission mode, header checksum)
//! of an in-memory archive, tiles first in the order given, the palette
//! entry always last, closed by the format's end-of-archive trailer.
//!
//! The framing itself is done by the `tar` crate behind the trusted items
//! below; everything stated about an assembled container is stated over
//! the entry model [`ArchiveEntry`].

use vstd::prelude::*;

use crate::payload::{
    tar_name_char, valid_payload_name, views_of, Payload, PayloadModel,
};

verus! {

/// One framed entry of the container: its stored name, the length recorded
/// in its header, and the payload bytes that follow the header.
pub ghost struct ArchiveEntry {
    pub name: Seq<char>,
    pub size: nat,
    pub data: Seq<u8>,
}

/// The error of the assembler: an underlying write into the container
/// stream failed. With the in-memory container this is never produced,
/// which the contracts state.
#[derive(Clone, Copy, Debug, PartialEq, Eq, Structural)]
pub enum ArchiveError {
    Io,
}

#[verifier::external_type_specification]
#[verifier::external_body]
pub struct ExIoError(std::io::Error);

/// The append-only container stream: a `tar` archive builder writing into
/// an in-memory buffer. Verus sees the builder only through
/// [`archive_entries`] and [`archive_open`] and the functions below.
#[verifier::external_body]
pub struct ContainerStream {
    inner: tar::Builder<Vec<u8>>,
}

/// The entries appended so far to an in-memory archive builder.
pub uninterp spec fn archive_entries(b: ContainerStream) -> Seq<ArchiveEntry>;

/// Whether the builder still accepts entries: true until the end-of-archive
/// trailer has been written.
pub uninterp spec fn archive_open(b: ContainerStream) -> bool;

/// The entries that reading a byte buffer as an archive yields, or `None`
/// where the bytes are not a complete archive.
pub uninterp spec fn tar_unpack(bytes: Seq<u8>) -> Option<Seq<ArchiveEntry>>;

/// An entry name the container format stores verbatim in its fixed-width
/// name field: non-empty, at most the field's width, made of plain
/// characters, and not one of the two relative-path components the format
/// rejects.
pub open spec fn valid_entry_name(s: Seq<char>) -> bool {
    1 <= s.len() <= 100 && (forall|i: int| 0 <= i < s.len() ==> tar_name_char(s[i])) && s != "."@
        && s != ".."@
}

/// Relies on `tar::Builder::new`: a fresh builder holds no entries and has
/// not written its end-of-archive trailer.
#[verifier::external_body]
fn tar_new() -> (b: ContainerStream)
    ensures
        archive_entries(b) == Seq::<ArchiveEntry>::empty(),
        archive_open(b),
{
    ContainerStream { inner: tar::Builder::new(Vec::new()) }
}

/// Relies on `tar::Builder::append_data` with a GNU header whose size is the
/// payload length, mode 0o644 and a checksum set after all other fields: it
/// appends exactly one entry with the given name and bytes. A name accepted
/// by [`valid_entry_name`] fits the header's name field and is stored as
/// given, and every write goes to the in-memory `Vec<u8>`, which never
/// fails, so the call returns `Ok`.
#[verifier::external_body]
fn tar_append(b: &mut ContainerStream, name: &str, data: &Vec<u8>) -> (r: Result<
    (),
    std::io::Error,
>)
    requires
        archive_open(*old(b)),
        valid_entry_name(name@),
    ensures
        r is Ok,
        archive_open(*final(b)),
        archive_entries(*final(b)) == archive_entries(*old(b)).push(
            ArchiveEntry { name: name@, size: data@.len(), data: data@ },
        ),
{
    let mut header = tar::Header::new_gnu();
    header.set_size(data.len() as u64);
    header.set_mode(0o644);
    header.set_cksum();
    b.inner.append_data(&mut header, name, data.as_slice())
}

/// Relies on `tar::Builder::into_inner`: it writes the end-of-archive
/// trailer into the in-memory `Vec<u8>` (which never fails) and returns the
/// buffer, and reading that buffer back as an archive yields exactly the
/// entries that were appended, in order.
#[verifier::external_body]
fn tar_into_bytes(b: ContainerStream) -> (r: Result<Vec<u8>, std::io::Error>)
    requires
        archive_open(b),
    ensures
        r is Ok,
        tar_unpack(r.unwrap()@) == Some(archive_entries(b)),
{
    b.inner.into_inner()
}

/// The fixed suffix appended to every payload name to form its entry name.
pub open spec fn appvar_suffix() -> Seq<char> {
    ".8xv"@
}

/// The entry a payload becomes: name with the fixed suffix, recorded length
/// equal to the payload's byte length, and the payload bytes themselves.
pub open spec fn entry_of(p: PayloadModel) -> ArchiveEntry {
    ArchiveEntry { name: p.name + appvar_suffix(), size: p.bytes.len(), data: p.bytes }
}

/// The entries of the containers this assembler builds: one entry per tile,
/// in the order the tiles were given, and the palette entry last.
pub open spec fn container_entries(tiles: Seq<PayloadModel>, palette: PayloadModel) -> Seq<
    ArchiveEntry,
> {
    tiles.map_values(|p: PayloadModel| entry_of(p)).push(entry_of(palette))
}

/// Pairwise distinct payload names: no tile repeats another tile's name or
/// the palette's. The container invariant that no two entries share an
/// entry name follows from this (see [`lemma_unique_entry_names`]).
pub open spec fn distinct_names(tiles: Seq<PayloadModel>, palette: PayloadModel) -> bool {
    (forall|i: int, j: int|
        0 <= i < j < tiles.len() ==> tiles[i].name != tiles[j].name) && (forall|i: int|
        0 <= i < tiles.len() ==> tiles[i].name != palette.name)
}

/// Appending the fixed suffix keeps names apart: equal entry names can only
/// come from equal payload names.
proof fn lemma_append_suffix_injective(a: Seq<char>, b: Seq<char>)
    requires
        a + appvar_suffix() == b + appvar_suffix(),
    ensures
        a == b,
{
    assert((a + appvar_suffix()).len() == a.len() + appvar_suffix().len());
    assert((b + appvar_suffix()).len() == b.len() + appvar_suffix().len());
    assert(a.len() == b.len());
    assert forall|i: int| 0 <= i < a.len() implies a[i] == b[i] by {
        assert(a[i] == (a + appvar_suffix())[i]);
        assert(b[i] == (b + appvar_suffix())[i]);
    }
    assert(a =~= b);
}

/// Container name invariant: with pairwise distinct payload names, no two
/// entries of the assembled container share an entry name.
pub proof fn lemma_unique_entry_names(tiles: Seq<PayloadModel>, palette: PayloadModel)
    requires
        distinct_names(tiles, palette),
    ensures
        forall|i: int, j: int|
            0 <= i < j < container_entries(tiles, palette).len() ==> container_entries(
                tiles,
                palette,
            )[i].name != container_entries(tiles, palette)[j].name,
{
    let c = container_entries(tiles, palette);
    assert forall|i: int, j: int| 0 <= i < j < c.len() implies c[i].name != c[j].name by {
        assert(c[i] == if i < tiles.len() {
            entry_of(tiles[i])
        } else {
            entry_of(palette)
        });
        assert(c[j] == if j < tiles.len() {
            entry_of(tiles[j])
        } else {
            entry_of(palette)
        });
        if c[i].name == c[j].name {
            if j < tiles.len() {
                lemma_append_suffix_injective(tiles[i].name, tiles[j].name);
            } else {
                lemma_append_suffix_injective(tiles[i].name, palette.name);
            }
        }
    }
}

/// Entry count invariant: assembling over N tile payloads and one palette
/// payload produces exactly N + 1 entries, with the palette entry always
/// last.
pub proof fn lemma_entry_count(tiles: Seq<PayloadModel>, palette: PayloadModel)
    ensures
        container_entries(tiles, palette).len() == tiles.len() + 1,
        container_entries(tiles, palette).last() == entry_of(palette),
{
}

/// No reordering: the container's entries are the tile payloads' entries in
/// exactly the order the tiles were given, followed by the palette entry.
pub proof fn lemma_no_reordering(tiles: Seq<PayloadModel>, palette: PayloadModel)
    ensures
        forall|i: int|
            0 <= i < tiles.len() ==> container_entries(tiles, palette)[i] == entry_of(tiles[i]),
        container_entries(tiles, palette)[tiles.len() as int] == entry_of(palette),
{
}

/// Length integrity: in an assembled container, every entry's recorded
/// length equals the number of payload bytes that follow its header.
pub proof fn lemma_length_integrity(tiles: Seq<PayloadModel>, palette: PayloadModel)
    ensures
        forall|i: int|
            0 <= i < container_entries(tiles, palette).len() ==> (#[trigger] container_entries(
                tiles,
                palette,
            )[i]).size == container_entries(tiles, palette)[i].data.len(),
{
    let c = container_entries(tiles, palette);
    assert forall|i: int| 0 <= i < c.len() implies (#[trigger] c[i]).size == c[i].data.len() by {
        if i < tiles.len() {
            assert(c[i] == entry_of(tiles[i]));
        } else {
            assert(c[i] == entry_of(palette));
        }
    }
}

/// A valid payload name yields a valid entry name once the fixed suffix is
/// appended.
pub proof fn lemma_entry_name_valid(name: Seq<char>)
    requires
        valid_payload_name(name),
    ensures
        valid_entry_name(name + appvar_suffix()),
{
    reveal_strlit(".8xv");
    reveal_strlit(".");
    reveal_strlit("..");
    let full = name + appvar_suffix();
    assert(appvar_suffix().len() == 4);
    assert(appvar_suffix()[0] == '.' && appvar_suffix()[1] == '8' && appvar_suffix()[2] == 'x'
        && appvar_suffix()[3] == 'v');
    assert forall|i: int| 0 <= i < full.len() implies tar_name_char(full[i]) by {
        if i >= name.len() {
            assert(full[i] == appvar_suffix()[i - name.len()]);
        }
    }
    assert(full != "."@) by {
        if full == "."@ {
            assert(full.len() == 1);
        }
    }
    assert(full != ".."@) by {
        if full == ".."@ {
            assert(full.len() == 2);
        }
    }
}

/// Derives the container entry name of a payload: the payload's name with
/// the fixed suffix appended.
pub fn entry_name(name: &String) -> (r: String)
    ensures
        r@ == name@ + appvar_suffix(),
{
    let s = name.clone();
    s.concat(".8xv")
}

/// Opens a fresh, empty container stream.
pub fn container_new() -> (s: ContainerStream)
    ensures
        archive_open(s),
        archive_entries(s) == Seq::<ArchiveEntry>::empty(),
{
    tar_new()
}

/// Appends one framed entry to the open container stream: the payload's
/// name with the fixed suffix, the recorded length equal to the payload's
/// byte length, and the payload bytes. With the in-memory stream no write
/// can fail, so the result is always `Ok` and exactly one entry is
/// appended.
pub fn append_entry(stream: &mut ContainerStream, name: &String, bytes: &Vec<u8>) -> (r: Result<
    (),
    ArchiveError,
>)
    requires
        archive_open(*old(stream)),
        valid_payload_name(name@),
    ensures
        r is Ok,
        archive_open(*final(stream)),
        archive_entries(*final(stream)) == archive_entries(*old(stream)).push(
            entry_of(PayloadModel { name: name@, bytes: bytes@ }),
        ),
{
    let full = entry_name(name);
    proof {
        lemma_entry_name_valid(name@);
    }
    match tar_append(stream, full.as_str(), bytes) {
        Ok(unit) => Ok(unit),
        Err(_) => Err(ArchiveError::Io),
    }
}

/// Finalizes the container with its end-of-archive trailer and returns the
/// complete in-memory buffer; reading the buffer back yields exactly the
/// entries appended, in order.
pub fn container_finish(stream: ContainerStream) -> (r: Result<Vec<u8>, ArchiveError>)
    requires
        archive_open(stream),
    ensures
        r is Ok,
        tar_unpack(r.unwrap()@) == Some(archive_entries(stream)),
{
    match tar_into_bytes(stream) {
        Ok(buf) => Ok(buf),
        Err(_) => Err(ArchiveError::Io),
    }
}

/// Builds the complete uncompressed container: one entry per tile payload
/// in the given order, then exactly one palette entry, then the format's
/// end-of-archive trailer. Zero tiles is legal and yields a container of
/// the palette entry alone. With the in-memory buffer no write can fail,
/// so the result is always `Ok`, and reading the returned buffer back
/// yields exactly the container's entries.
pub fn assemble(tiles: &Vec<Payload>, palette: &Payload) -> (r: Result<Vec<u8>, ArchiveError>)
    requires
        forall|i: int| 0 <= i < tiles@.len() ==> valid_payload_name(tiles@[i]@.name),
        valid_payload_name(palette@.name),
        distinct_names(views_of(tiles@), palette@),
    ensures
        r is Ok,
        tar_unpack(r.unwrap()@) == Some(container_entries(views_of(tiles@), palette@)),
{
    let ghost tile_models = views_of(tiles@);
    let mut builder = container_new();
    let mut i: usize = 0;
    while i < tiles.len()
        invariant
            0 <= i <= tiles@.len(),
            tile_models == views_of(tiles@),
            forall|k: int| 0 <= k < tiles@.len() ==> valid_payload_name(tiles@[k]@.name),
            archive_open(builder),
            archive_entries(builder) == tile_models.take(i as int).map_values(
                |p: PayloadModel| entry_of(p),
            ),
        decreases tiles@.len() - i,
    {
        let appended = append_entry(&mut builder, &tiles[i].name, &tiles[i].bytes);
        if appended.is_err() {
            return Err(ArchiveError::Io);
        }
        proof {
            assert(tile_models.take(i + 1).map_values(|p: PayloadModel| entry_of(p))
                =~= tile_models.take(i as int).map_values(|p: PayloadModel| entry_of(p)).push(
                entry_of(tile_models[i as int]),
            ));
        }
        i += 1;
    }
    proof {
        assert(tile_models.take(tiles@.len() as int) =~= tile_models);
    }
    let appended = append_entry(&mut builder, &palette.name, &palette.bytes);
    if appended.is_err() {
        return Err(ArchiveError::Io);
    }
    container_finish(builder)
}

} // verus!
