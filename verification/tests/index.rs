use discord_ftp::error::StorageError;
use discord_ftp::ftp::index::Files;
use discord_ftp::ftp::metadata::{Meta, Timestamp};

fn at(secs: u64) -> Timestamp {
    Timestamp { secs, nanos: 0 }
}

fn chunk(id: &str, url: &str) -> (String, String) {
    (String::from(id), String::from(url))
}

fn names(index: &Files, path: &str) -> Vec<String> {
    index.list(path).unwrap().into_iter().map(|f| f.path).collect()
}

fn strings(items: &[&str]) -> Vec<String> {
    items.iter().map(|s| String::from(*s)).collect()
}

#[test]
fn empty_root_listing() {
    let index = Files::new(at(7));
    let listing = index.list("/").unwrap();
    assert!(listing.is_empty());
    let root = index.metadata("/").unwrap();
    assert!(root.is_dir());
    assert!(!root.is_file());
    assert!(!root.is_symlink());
    assert_eq!(root.len(), 0);
    assert_eq!(root.gid(), 0);
    assert_eq!(root.uid(), 0);
    assert_eq!(root.modified(), at(7));
    assert!(root.ids_and_urls().is_empty());
    assert!(index.contains("/"));
}

#[test]
fn metadata_of_a_missing_path_is_not_found() {
    let index = Files::new(at(1));
    assert_eq!(index.metadata("/missing").err(), Some(StorageError::NotFound));
    assert_eq!(index.metadata("").err(), Some(StorageError::NotFound));
    assert!(!index.contains("/missing"));
}

#[test]
fn mkd_adds_a_directory_under_its_parent() {
    let mut index = Files::new(at(1));
    assert_eq!(index.mkd("/a", at(2)), Ok(()));
    assert_eq!(index.mkd("/a/b", at(3)), Ok(()));
    assert_eq!(names(&index, "/"), strings(&["/a"]));
    assert_eq!(names(&index, "/a"), strings(&["/a/b"]));
    assert_eq!(names(&index, "/a/b"), strings(&[]));
    let a = index.metadata("/a").unwrap();
    assert!(a.is_dir());
    assert_eq!(a.len(), 0);
    assert_eq!(a.modified(), at(2));
    assert_eq!(index.metadata("/a/b").unwrap().modified(), at(3));
}

#[test]
fn mkd_of_an_existing_path_already_exists() {
    let mut index = Files::new(at(1));
    assert_eq!(index.mkd("/a", at(2)), Ok(()));
    assert_eq!(index.mkd("/a", at(3)), Err(StorageError::AlreadyExists));
    assert_eq!(index.mkd("/", at(3)), Err(StorageError::AlreadyExists));
    assert_eq!(names(&index, "/"), strings(&["/a"]));
    assert_eq!(index.metadata("/a").unwrap().modified(), at(2));
    assert_eq!(index.put("/f", Meta::file(0, Vec::new(), at(4))), Ok(()));
    assert_eq!(index.mkd("/f", at(5)), Err(StorageError::AlreadyExists));
}

#[test]
fn mkd_without_parent_directory_is_not_found() {
    let mut index = Files::new(at(1));
    assert_eq!(index.mkd("/a/b", at(2)), Err(StorageError::NotFound));
    assert_eq!(index.mkd("a", at(2)), Err(StorageError::NotFound));
    assert_eq!(index.mkd("", at(2)), Err(StorageError::NotFound));
    assert_eq!(index.put("/f", Meta::file(0, Vec::new(), at(4))), Ok(()));
    assert_eq!(index.mkd("/f/sub", at(2)), Err(StorageError::NotFound));
    assert_eq!(names(&index, "/"), strings(&["/f"]));
    assert!(!index.contains("/a/b"));
}

#[test]
fn children_are_listed_in_the_order_they_came_in() {
    let mut index = Files::new(at(1));
    for name in ["/z", "/a", "/m"] {
        assert_eq!(index.mkd(name, at(2)), Ok(()));
    }
    assert_eq!(index.put("/b.bin", Meta::file(3, vec![chunk("1", "u1")], at(3))), Ok(()));
    assert_eq!(names(&index, "/"), strings(&["/z", "/a", "/m", "/b.bin"]));
    let listing = index.list("/").unwrap();
    assert!(listing[0].metadata.is_dir());
    assert!(listing[3].metadata.is_file());
    assert_eq!(listing[3].metadata.len(), 3);
    assert_eq!(listing[3].metadata.ids_and_urls(), &vec![chunk("1", "u1")]);
    let same = index.to_vec_fileinfo("/");
    assert_eq!(same.len(), 4);
    assert_eq!(same[1].path, "/a");
}

#[test]
fn list_of_what_is_no_directory_is_not_found() {
    let mut index = Files::new(at(1));
    assert_eq!(index.put("/f", Meta::file(0, Vec::new(), at(2))), Ok(()));
    assert_eq!(index.list("/f").err(), Some(StorageError::NotFound));
    assert_eq!(index.list("/missing").err(), Some(StorageError::NotFound));
    assert!(index.to_vec_fileinfo("/f").is_empty());
    assert!(index.to_vec_fileinfo("/missing").is_empty());
}

#[test]
fn put_records_the_file_and_lists_it() {
    let mut index = Files::new(at(1));
    assert_eq!(index.mkd("/a", at(2)), Ok(()));
    let meta = Meta::file(25, vec![chunk("1", "u1"), chunk("2", "u2")], at(3));
    assert_eq!(index.put("/a/big", meta), Ok(()));
    let stored = index.metadata("/a/big").unwrap();
    assert!(stored.is_file());
    assert!(!stored.is_dir());
    assert_eq!(stored.len(), 25);
    assert_eq!(stored.modified(), at(3));
    assert_eq!(stored.ids_and_urls(), &vec![chunk("1", "u1"), chunk("2", "u2")]);
    assert_eq!(names(&index, "/a"), strings(&["/a/big"]));
}

#[test]
fn put_without_parent_directory_is_not_found() {
    let mut index = Files::new(at(1));
    assert_eq!(
        index.put("/a/f", Meta::file(0, Vec::new(), at(2))),
        Err(StorageError::NotFound)
    );
    assert_eq!(index.put("f", Meta::file(0, Vec::new(), at(2))), Err(StorageError::NotFound));
    assert_eq!(index.put("/", Meta::file(0, Vec::new(), at(2))), Err(StorageError::NotFound));
    assert!(!index.contains("/a/f"));
    assert!(names(&index, "/").is_empty());
}

#[test]
fn put_over_an_entry_replaces_it_and_lists_it_again() {
    let mut index = Files::new(at(1));
    assert_eq!(index.put("/f", Meta::file(1, vec![chunk("1", "u1")], at(2))), Ok(()));
    assert_eq!(index.put("/f", Meta::file(2, vec![chunk("2", "u2")], at(3))), Ok(()));
    assert_eq!(names(&index, "/"), strings(&["/f", "/f"]));
    let stored = index.metadata("/f").unwrap();
    assert_eq!(stored.len(), 2);
    assert_eq!(stored.ids_and_urls(), &vec![chunk("2", "u2")]);
    assert_eq!(index.del("/f"), Ok(()));
    assert!(names(&index, "/").is_empty());
}

#[test]
fn del_removes_the_entry_and_its_listing() {
    let mut index = Files::new(at(1));
    assert_eq!(index.mkd("/a", at(2)), Ok(()));
    assert_eq!(index.put("/a/x", Meta::file(0, Vec::new(), at(3))), Ok(()));
    assert_eq!(index.put("/a/y", Meta::file(0, Vec::new(), at(3))), Ok(()));
    assert_eq!(index.put("/a/z", Meta::file(0, Vec::new(), at(3))), Ok(()));
    assert_eq!(index.del("/a/y"), Ok(()));
    assert!(!index.contains("/a/y"));
    assert_eq!(names(&index, "/a"), strings(&["/a/x", "/a/z"]));
    assert_eq!(index.metadata("/a/y").err(), Some(StorageError::NotFound));
}

#[test]
fn del_of_a_missing_path_is_not_found() {
    let mut index = Files::new(at(1));
    assert_eq!(index.del("/missing"), Err(StorageError::NotFound));
    assert_eq!(index.del("/"), Err(StorageError::NotFound));
    assert!(index.contains("/"));
}

#[test]
fn rmd_removes_an_empty_directory() {
    let mut index = Files::new(at(1));
    assert_eq!(index.mkd("/a", at(2)), Ok(()));
    assert_eq!(index.mkd("/b", at(2)), Ok(()));
    assert_eq!(index.rmd("/a"), Ok(()));
    assert!(!index.contains("/a"));
    assert_eq!(names(&index, "/"), strings(&["/b"]));
    assert_eq!(index.list("/a").err(), Some(StorageError::NotFound));
    assert!(index.to_vec_fileinfo("/a").is_empty());
    assert_eq!(index.mkd("/a/late", at(3)), Err(StorageError::NotFound));
    assert_eq!(index.mkd("/a", at(4)), Ok(()));
    assert_eq!(names(&index, "/"), strings(&["/b", "/a"]));
}

#[test]
fn rmd_of_a_directory_with_children_is_refused() {
    let mut index = Files::new(at(1));
    assert_eq!(index.mkd("/a", at(2)), Ok(()));
    assert_eq!(index.put("/a/x", Meta::file(0, Vec::new(), at(3))), Ok(()));
    assert_eq!(index.rmd("/a"), Err(StorageError::DirectoryNotEmpty));
    assert_eq!(index.rmd("/"), Err(StorageError::DirectoryNotEmpty));
    assert!(index.contains("/a"));
    assert!(index.contains("/a/x"));
    assert_eq!(names(&index, "/"), strings(&["/a"]));
    assert_eq!(names(&index, "/a"), strings(&["/a/x"]));
    assert_eq!(index.del("/a/x"), Ok(()));
    assert_eq!(index.rmd("/a"), Ok(()));
    assert!(names(&index, "/").is_empty());
}

#[test]
fn rmd_of_a_missing_path_or_of_the_empty_root_is_not_found() {
    let mut index = Files::new(at(1));
    assert_eq!(index.rmd("/missing"), Err(StorageError::NotFound));
    assert_eq!(index.rmd("/"), Err(StorageError::NotFound));
    assert!(index.contains("/"));
    assert!(index.list("/").unwrap().is_empty());
}

#[test]
fn rename_file() {
    let mut index = Files::new(at(1));
    assert_eq!(index.mkd("/a", at(2)), Ok(()));
    assert_eq!(index.mkd("/b", at(2)), Ok(()));
    let chunks = vec![chunk("11", "u11"), chunk("12", "u12")];
    assert_eq!(index.put("/a/x", Meta::file(15, chunks.clone(), at(3))), Ok(()));
    assert_eq!(index.rename("/a/x", "/b/x"), Ok(()));
    assert!(!index.contains("/a/x"));
    assert_eq!(index.metadata("/a/x").err(), Some(StorageError::NotFound));
    let moved = index.metadata("/b/x").unwrap();
    assert_eq!(moved.ids_and_urls(), &chunks);
    assert_eq!(moved.len(), 15);
    assert_eq!(moved.modified(), at(3));
    assert!(moved.is_file());
    assert!(names(&index, "/a").is_empty());
    assert_eq!(names(&index, "/b"), strings(&["/b/x"]));
    assert_eq!(index.rename("/a", "/c"), Err(StorageError::NotImplemented));
    assert!(index.contains("/a"));
    assert!(!index.contains("/c"));
    assert_eq!(names(&index, "/"), strings(&["/a", "/b"]));
}

#[test]
fn rename_within_one_directory_moves_the_name_to_the_end() {
    let mut index = Files::new(at(1));
    assert_eq!(index.put("/x", Meta::file(0, Vec::new(), at(2))), Ok(()));
    assert_eq!(index.put("/y", Meta::file(0, Vec::new(), at(2))), Ok(()));
    assert_eq!(index.rename("/x", "/z"), Ok(()));
    assert_eq!(names(&index, "/"), strings(&["/y", "/z"]));
    assert_eq!(index.rename("/y", "/y"), Ok(()));
    assert_eq!(names(&index, "/"), strings(&["/z", "/y"]));
    assert!(index.contains("/y"));
}

#[test]
fn rename_of_a_missing_entry_or_into_a_missing_directory_is_not_found() {
    let mut index = Files::new(at(1));
    assert_eq!(index.put("/x", Meta::file(0, Vec::new(), at(2))), Ok(()));
    assert_eq!(index.rename("/missing", "/y"), Err(StorageError::NotFound));
    assert_eq!(index.rename("/x", "/nowhere/x"), Err(StorageError::NotFound));
    assert_eq!(index.rename("/x", "x"), Err(StorageError::NotFound));
    assert!(index.contains("/x"));
    assert_eq!(names(&index, "/"), strings(&["/x"]));
}

#[test]
fn an_index_taken_apart_and_put_together_is_the_same() {
    let mut index = Files::new(at(1));
    assert_eq!(index.mkd("/b", at(2)), Ok(()));
    assert_eq!(index.mkd("/a", at(3)), Ok(()));
    assert_eq!(index.put("/a/x", Meta::file(4, vec![chunk("1", "u")], at(4))), Ok(()));
    let (paths, metas) = index.entries();
    let (dirs, lists) = index.directories();
    assert_eq!(paths, &strings(&["/", "/b", "/a", "/a/x"]));
    assert_eq!(dirs, &strings(&["/", "/b", "/a"]));
    assert_eq!(lists, &vec![strings(&["/b", "/a"]), strings(&[]), strings(&["/a/x"])]);
    assert_eq!(metas.len(), 4);
    let again =
        Files::from_parts(paths.clone(), metas.clone(), dirs.clone(), lists.clone()).unwrap();
    let (paths2, metas2) = again.entries();
    let (dirs2, lists2) = again.directories();
    assert_eq!(paths2, paths);
    assert_eq!(dirs2, dirs);
    assert_eq!(lists2, lists);
    assert_eq!(metas2.len(), metas.len());
    for (a, b) in metas.iter().zip(metas2.iter()) {
        assert_eq!(a.len(), b.len());
        assert_eq!(a.is_dir(), b.is_dir());
        assert_eq!(a.is_file(), b.is_file());
        assert_eq!(a.modified(), b.modified());
        assert_eq!(a.ids_and_urls(), b.ids_and_urls());
    }
    assert_eq!(names(&again, "/"), strings(&["/b", "/a"]));
    assert_eq!(again.metadata("/a/x").unwrap().len(), 4);
}

#[test]
fn parts_that_make_no_index_are_a_decoding_failure() {
    let dir = || Meta::directory(at(1));
    let file = || Meta::file(0, Vec::new(), at(1));
    // a path that occurs twice
    assert_eq!(
        Files::from_parts(strings(&["/", "/"]), vec![dir(), dir()], strings(&[]), vec![]).err(),
        Some(StorageError::DecodingFailure)
    );
    // a directory that occurs twice
    assert_eq!(
        Files::from_parts(
            strings(&["/"]),
            vec![dir()],
            strings(&["/", "/"]),
            vec![strings(&[]), strings(&[])]
        )
        .err(),
        Some(StorageError::DecodingFailure)
    );
    // a path without attributes
    assert_eq!(
        Files::from_parts(strings(&["/", "/a"]), vec![dir()], strings(&[]), vec![]).err(),
        Some(StorageError::DecodingFailure)
    );
    // a directory without children list
    assert_eq!(
        Files::from_parts(strings(&["/"]), vec![dir()], strings(&["/"]), vec![]).err(),
        Some(StorageError::DecodingFailure)
    );
    // a listed child without entry
    assert_eq!(
        Files::from_parts(
            strings(&["/"]),
            vec![dir()],
            strings(&["/"]),
            vec![strings(&["/ghost"])]
        )
        .err(),
        Some(StorageError::DecodingFailure)
    );
    // a child listed by a directory that is not its parent
    assert_eq!(
        Files::from_parts(
            strings(&["/", "/a", "/a/x"]),
            vec![dir(), dir(), file()],
            strings(&["/", "/a"]),
            vec![strings(&["/a", "/a/x"]), strings(&[])]
        )
        .err(),
        Some(StorageError::DecodingFailure)
    );
    // the same, in order
    assert!(Files::from_parts(
        strings(&["/", "/a", "/a/x"]),
        vec![dir(), dir(), file()],
        strings(&["/", "/a"]),
        vec![strings(&["/a"]), strings(&["/a/x"])]
    )
    .is_ok());
    // nothing at all
    let empty = Files::from_parts(vec![], vec![], vec![], vec![]).unwrap();
    assert!(!empty.contains("/"));
    assert_eq!(empty.list("/").err(), Some(StorageError::NotFound));
}
