use photosort::path::{file_name, parent};
use photosort::{source_kind, SourceKind};
use std::path::Path;

fn std_file_name(path: &str) -> Option<String> {
    Path::new(path).file_name().and_then(|name| name.to_str()).map(|name| name.to_string())
}

fn std_parent(path: &str) -> Option<String> {
    Path::new(path).parent().and_then(|dir| dir.to_str()).map(|dir| dir.to_string())
}

#[test]
fn file_name_is_the_last_component() {
    assert_eq!(file_name("/camera/roll/a.jpg"), Some("a.jpg".to_string()));
    assert_eq!(file_name("a.jpg"), Some("a.jpg".to_string()));
    assert_eq!(file_name("sub/IMG_001.jpg"), Some("IMG_001.jpg".to_string()));
    assert_eq!(file_name("/usr/bin/"), Some("bin".to_string()));
    assert_eq!(file_name("tmp/foo.txt"), Some("foo.txt".to_string()));
    assert_eq!(file_name("foo.txt/."), Some("foo.txt".to_string()));
    assert_eq!(file_name("foo.txt/.//"), Some("foo.txt".to_string()));
    assert_eq!(file_name("./a"), Some("a".to_string()));
    assert_eq!(file_name("..a"), Some("..a".to_string()));
    assert_eq!(file_name("a.."), Some("a..".to_string()));
    assert_eq!(file_name("..."), Some("...".to_string()));
}

#[test]
fn file_name_is_missing_after_a_root_or_dots() {
    assert_eq!(file_name(""), None);
    assert_eq!(file_name("/"), None);
    assert_eq!(file_name("//"), None);
    assert_eq!(file_name("."), None);
    assert_eq!(file_name("./"), None);
    assert_eq!(file_name(".."), None);
    assert_eq!(file_name("foo.txt/.."), None);
    assert_eq!(file_name("/.."), None);
    assert_eq!(file_name("../."), None);
}

#[test]
fn file_name_counts_characters_not_bytes() {
    assert_eq!(file_name("/été/plage.jpg"), Some("plage.jpg".to_string()));
    assert_eq!(file_name("/photos/日本/富士山.jpg"), Some("富士山.jpg".to_string()));
    assert_eq!(parent("/photos/日本/富士山.jpg"), Some("/photos/日本".to_string()));
}

#[test]
fn parent_is_what_stands_before_the_last_component() {
    assert_eq!(parent("/out/2023/05/04/a.jpg"), Some("/out/2023/05/04".to_string()));
    assert_eq!(parent("/a"), Some("/".to_string()));
    assert_eq!(parent("a"), Some("".to_string()));
    assert_eq!(parent("a/b/"), Some("a".to_string()));
    assert_eq!(parent("a//b"), Some("a".to_string()));
    assert_eq!(parent("a/./b"), Some("a".to_string()));
    assert_eq!(parent("./a"), Some(".".to_string()));
    assert_eq!(parent("."), Some("".to_string()));
    assert_eq!(parent(".."), Some("".to_string()));
    assert_eq!(parent("a/.."), Some("a".to_string()));
    assert_eq!(parent("//a"), Some("/".to_string()));
    assert_eq!(parent("/a/./b/../c"), Some("/a/./b/..".to_string()));
}

#[test]
fn parent_is_missing_for_a_root_and_for_nothing() {
    assert_eq!(parent(""), None);
    assert_eq!(parent("/"), None);
    assert_eq!(parent("//"), None);
    assert_eq!(parent("/."), None);
    assert_eq!(parent("/./"), None);
}

fn all_paths(alphabet: &[char], longest: usize) -> Vec<String> {
    let mut paths = vec![String::new()];
    let mut last = vec![String::new()];
    for _ in 0..longest {
        let mut next = Vec::new();
        for path in &last {
            for c in alphabet {
                let mut longer = path.clone();
                longer.push(*c);
                next.push(longer);
            }
        }
        paths.extend(next.iter().cloned());
        last = next;
    }
    paths
}

#[test]
fn file_name_agrees_with_the_standard_library() {
    for path in all_paths(&['/', '.', 'a', 'b'], 7) {
        assert_eq!(file_name(&path), std_file_name(&path), "file name of {:?}", path);
    }
}

#[test]
fn parent_agrees_with_the_standard_library() {
    for path in all_paths(&['/', '.', 'a', 'b'], 7) {
        assert_eq!(parent(&path), std_parent(&path), "parent of {:?}", path);
    }
}

#[test]
fn source_kind_goes_by_the_name() {
    assert_eq!(source_kind("/backup/photos.zip"), SourceKind::Archive);
    assert_eq!(source_kind(".zip"), SourceKind::Archive);
    assert_eq!(source_kind("/backup/photos"), SourceKind::Directory);
    assert_eq!(source_kind("/backup/photos.zip/"), SourceKind::Directory);
    assert_eq!(source_kind("/backup/photos.ZIP"), SourceKind::Directory);
    assert_eq!(source_kind("zip"), SourceKind::Directory);
    assert_eq!(source_kind(""), SourceKind::Directory);
    assert_eq!(source_kind("/backup/photos.tar"), SourceKind::Directory);
}

#[test]
fn source_kind_agrees_with_ends_with() {
    for name in all_paths(&['.', 'z', 'i', 'p', '/'], 6) {
        let expected = if name.ends_with(".zip") { SourceKind::Archive } else { SourceKind::Directory };
        assert_eq!(source_kind(&name), expected, "kind of {:?}", name);
    }
}
