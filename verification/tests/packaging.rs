use std::io::Read;

use appvarpack::archive::{append_entry, assemble, container_finish, container_new};
use appvarpack::compress::compress;
use appvarpack::payload::Payload;
use appvarpack::pipeline::package;

fn payload(name: &str, bytes: &[u8]) -> Payload {
    Payload {
        name: name.to_string(),
        bytes: bytes.to_vec(),
    }
}

fn read_entries(tar_bytes: &[u8]) -> Vec<(String, u64, u32, Vec<u8>)> {
    let mut archive = tar::Archive::new(tar_bytes);
    let mut out = Vec::new();
    for entry in archive.entries().unwrap() {
        let mut entry = entry.unwrap();
        let name = entry.path().unwrap().to_string_lossy().into_owned();
        let size = entry.header().size().unwrap();
        let mode = entry.header().mode().unwrap();
        let mut data = Vec::new();
        entry.read_to_end(&mut data).unwrap();
        out.push((name, size, mode, data));
    }
    out
}

fn gunzip(bytes: &[u8]) -> Vec<u8> {
    let mut decoder = flate2::read::GzDecoder::new(bytes);
    let mut out = Vec::new();
    decoder.read_to_end(&mut out).unwrap();
    out
}

#[test]
fn empty_tiles_single_entry() {
    let tiles: Vec<Payload> = Vec::new();
    let palette = payload("HDpal", &[9, 8, 7]);
    let container = assemble(&tiles, &palette).unwrap();
    let entries = read_entries(&container);
    assert_eq!(entries.len(), 1);
    assert_eq!(entries[0].0, "HDpal.8xv");
    assert_eq!(entries[0].1, 3);
    assert_eq!(entries[0].3, vec![9, 8, 7]);
}

#[test]
fn entry_count_and_order() {
    let tiles = vec![
        payload("HD000", &[1]),
        payload("HD001", &[2, 2, 2, 2]),
        payload("HD002", &[3, 3]),
    ];
    let palette = payload("HDpal", &[0; 600]);
    let container = assemble(&tiles, &palette).unwrap();
    let entries = read_entries(&container);
    assert_eq!(entries.len(), 4);
    assert_eq!(entries[0].0, "HD000.8xv");
    assert_eq!(entries[1].0, "HD001.8xv");
    assert_eq!(entries[2].0, "HD002.8xv");
    assert_eq!(entries[3].0, "HDpal.8xv");
}

#[test]
fn length_integrity_and_fixed_mode() {
    let tiles = vec![payload("aa", &[5; 513]), payload("bb", &[])];
    let palette = payload("cc", &[1, 2]);
    let container = assemble(&tiles, &palette).unwrap();
    for (_, size, mode, data) in read_entries(&container) {
        assert_eq!(size, data.len() as u64);
        assert_eq!(mode, 0o644);
    }
}

#[test]
fn empty_payload_bytes_are_legal() {
    let tiles = vec![payload("empty", &[])];
    let palette = payload("pal", &[1]);
    let container = assemble(&tiles, &palette).unwrap();
    let entries = read_entries(&container);
    assert_eq!(entries[0].1, 0);
    assert_eq!(entries[0].3, Vec::<u8>::new());
}

#[test]
fn round_trip_bit_identical() {
    let tiles = vec![
        payload("HD000", b"first tile bytes"),
        payload("HD001", b"second, longer tile payload....."),
        payload("HD002", b"3"),
    ];
    let palette = payload("HDpal", b"palette data here");
    let compressed = package(&tiles, &palette).unwrap();
    let container = gunzip(&compressed);
    let entries = read_entries(&container);
    assert_eq!(entries.len(), 4);
    for (i, tile) in tiles.iter().enumerate() {
        assert_eq!(entries[i].0, format!("{}.8xv", tile.name));
        assert_eq!(entries[i].1, tile.bytes.len() as u64);
        assert_eq!(entries[i].3, tile.bytes);
    }
    assert_eq!(entries[3].0, "HDpal.8xv");
    assert_eq!(entries[3].3, palette.bytes);
}

#[test]
fn round_trip_zero_tiles() {
    let tiles: Vec<Payload> = Vec::new();
    let palette = payload("HDpal", &[4, 2]);
    let compressed = package(&tiles, &palette).unwrap();
    let entries = read_entries(&gunzip(&compressed));
    assert_eq!(entries.len(), 1);
    assert_eq!(entries[0].0, "HDpal.8xv");
    assert_eq!(entries[0].3, vec![4, 2]);
}

#[test]
fn compress_round_trip() {
    let buffer: Vec<u8> = (0..4096u32).map(|i| (i % 251) as u8).collect();
    let compressed = compress(&buffer).unwrap();
    assert_ne!(compressed, buffer);
    assert_eq!(gunzip(&compressed), buffer);
}

#[test]
fn entry_builder_appends_in_order() {
    let mut stream = container_new();
    append_entry(&mut stream, &"one".to_string(), &vec![1, 1]).unwrap();
    append_entry(&mut stream, &"two".to_string(), &vec![2]).unwrap();
    let container = container_finish(stream).unwrap();
    let entries = read_entries(&container);
    assert_eq!(entries.len(), 2);
    assert_eq!(entries[0].0, "one.8xv");
    assert_eq!(entries[0].3, vec![1, 1]);
    assert_eq!(entries[1].0, "two.8xv");
    assert_eq!(entries[1].3, vec![2]);
}

#[test]
fn container_is_framed_not_raw() {
    let tiles: Vec<Payload> = Vec::new();
    let palette = payload("p", &[42]);
    let container = assemble(&tiles, &palette).unwrap();
    // One 512-byte header, one padded data block, two trailer blocks.
    assert_eq!(container.len() % 512, 0);
    assert!(container.len() >= 2048);
}
