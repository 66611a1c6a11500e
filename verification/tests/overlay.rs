use minibox::layers::{decompress_layer, LayerEntry, RootImage};
use minibox::errors::RunError;

fn entry(path: &str, data: &[u8]) -> LayerEntry {
    LayerEntry { path: String::from(path), data: data.to_vec() }
}

#[test]
fn later_layer_wins_on_conflicting_path() {
    // Two synthetic layers each write /a.txt; the later layer's content wins.
    let layer1 = vec![entry("/a.txt", b"first"), entry("/bin/sh", b"elf")];
    let layer2 = vec![entry("/a.txt", b"second")];
    let root = RootImage::assemble(&vec![layer1, layer2]);
    let got = root.content_of(&String::from("/a.txt")).expect("path must be present");
    assert_eq!(got.as_slice(), b"second");
}

#[test]
fn root_contains_union_of_all_layers() {
    let layer1 = vec![entry("/a.txt", b"first"), entry("/only-in-1", b"one")];
    let layer2 = vec![entry("/only-in-2", b"two")];
    let root = RootImage::assemble(&vec![layer1, layer2]);
    assert_eq!(root.content_of(&String::from("/only-in-1")).unwrap().as_slice(), b"one");
    assert_eq!(root.content_of(&String::from("/only-in-2")).unwrap().as_slice(), b"two");
    assert_eq!(root.content_of(&String::from("/a.txt")).unwrap().as_slice(), b"first");
    assert!(root.content_of(&String::from("/missing")).is_none());
}

#[test]
fn later_entry_wins_inside_one_layer() {
    let layer = vec![entry("/a.txt", b"early"), entry("/a.txt", b"late")];
    let root = RootImage::assemble(&vec![layer]);
    assert_eq!(root.content_of(&String::from("/a.txt")).unwrap().as_slice(), b"late");
}

#[test]
fn empty_image_gives_empty_root() {
    let root = RootImage::assemble(&vec![]);
    assert!(root.content_of(&String::from("/a.txt")).is_none());
}

#[test]
fn write_entry_overwrites() {
    let mut root = RootImage::new();
    root.write_entry(entry("/f", b"v1"));
    root.write_entry(entry("/f", b"v2"));
    assert_eq!(root.content_of(&String::from("/f")).unwrap().as_slice(), b"v2");
}

#[test]
fn decompress_layer_round_trips_gzip() {
    let payload = b"layer bytes: a tiny filesystem delta".to_vec();
    let mut encoder =
        flate2::write::GzEncoder::new(Vec::new(), flate2::Compression::default());
    std::io::Write::write_all(&mut encoder, &payload).unwrap();
    let compressed = encoder.finish().unwrap();
    assert_ne!(compressed, payload);
    let out = decompress_layer(&compressed, "sha256:abc").expect("valid gzip must decompress");
    assert_eq!(out, payload);
}

#[test]
fn decompress_layer_rejects_garbage_and_names_the_layer() {
    let garbage = vec![0u8, 1, 2, 3, 4, 5];
    match decompress_layer(&garbage, "sha256:feed") {
        Err(RunError::Extract { digest, .. }) => assert_eq!(digest, "sha256:feed"),
        other => panic!("expected an extract error, got {:?}", other.is_ok()),
    }
}
