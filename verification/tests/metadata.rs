use discord_ftp::ftp::metadata::{clone_chunks, Meta, Timestamp};

fn at(secs: u64, nanos: u32) -> Timestamp {
    Timestamp { secs, nanos }
}

fn chunk(id: &str, url: &str) -> (String, String) {
    (String::from(id), String::from(url))
}

#[test]
fn a_directory_has_no_length_and_no_chunks() {
    let meta = Meta::directory(at(5, 6));
    assert_eq!(meta.len(), 0);
    assert!(meta.is_dir());
    assert!(!meta.is_file());
    assert!(!meta.is_symlink());
    assert_eq!(meta.modified(), at(5, 6));
    assert_eq!(meta.gid(), 0);
    assert_eq!(meta.uid(), 0);
    assert!(meta.ids_and_urls().is_empty());
    assert!(meta.is_valid());
}

#[test]
fn a_file_keeps_length_and_chunks_in_order() {
    let chunks = vec![chunk("2", "b"), chunk("1", "a")];
    let meta = Meta::file(11, chunks.clone(), at(9, 0));
    assert_eq!(meta.len(), 11);
    assert!(meta.is_file());
    assert!(!meta.is_dir());
    assert!(!meta.is_symlink());
    assert_eq!(meta.modified(), at(9, 0));
    assert_eq!(meta.gid(), 0);
    assert_eq!(meta.uid(), 0);
    assert_eq!(meta.ids_and_urls(), &chunks);
    assert!(meta.is_valid());
}

#[test]
fn from_parts_keeps_every_attribute() {
    let meta = Meta::from_parts(3, false, false, true, at(1, 2), 10, 20, vec![chunk("1", "a")]);
    assert_eq!(meta.len(), 3);
    assert!(!meta.is_dir());
    assert!(!meta.is_file());
    assert!(meta.is_symlink());
    assert_eq!(meta.modified(), at(1, 2));
    assert_eq!(meta.gid(), 10);
    assert_eq!(meta.uid(), 20);
    assert_eq!(meta.ids_and_urls(), &vec![chunk("1", "a")]);
}

#[test]
fn validity_is_what_the_attributes_allow() {
    let t = at(0, 0);
    assert!(Meta::from_parts(0, false, true, false, t, 0, 0, vec![]).is_valid());
    assert!(Meta::from_parts(0, false, false, false, t, 0, 0, vec![]).is_valid());
    assert!(Meta::from_parts(0, false, true, false, t, 0, 0, vec![chunk("1", "a")]).is_valid());
    assert!(Meta::from_parts(1, false, true, false, t, 0, 0, vec![chunk("1", "a")]).is_valid());
    // two kinds at once
    assert!(!Meta::from_parts(0, true, true, false, t, 0, 0, vec![]).is_valid());
    assert!(!Meta::from_parts(0, true, false, true, t, 0, 0, vec![]).is_valid());
    assert!(!Meta::from_parts(0, false, true, true, t, 0, 0, vec![]).is_valid());
    // a directory with length or chunks
    assert!(!Meta::from_parts(1, true, false, false, t, 0, 0, vec![chunk("1", "a")]).is_valid());
    assert!(!Meta::from_parts(0, true, false, false, t, 0, 0, vec![chunk("1", "a")]).is_valid());
    // bytes without a chunk
    assert!(!Meta::from_parts(1, false, true, false, t, 0, 0, vec![]).is_valid());
    assert!(!Meta::file(1, vec![], t).is_valid());
}

#[test]
fn a_clone_has_the_same_attributes() {
    let meta = Meta::from_parts(3, false, true, false, at(1, 2), 10, 20, vec![chunk("1", "a")]);
    let copy = meta.clone();
    assert_eq!(copy.len(), 3);
    assert!(copy.is_file());
    assert_eq!(copy.modified(), at(1, 2));
    assert_eq!(copy.gid(), 10);
    assert_eq!(copy.uid(), 20);
    assert_eq!(copy.ids_and_urls(), meta.ids_and_urls());
    assert_eq!(clone_chunks(meta.ids_and_urls()), vec![chunk("1", "a")]);
}
