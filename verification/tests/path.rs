use std::path::Path;
use tml::path::{file_name, has_trailing_separator, is_absolute, is_relative, join, parent};

/// Every string over `alphabet` of at most `max_len` characters.
fn strings(alphabet: &[char], max_len: usize) -> Vec<String> {
    let mut all = vec![String::new()];
    let mut last = vec![String::new()];
    for _ in 0..max_len {
        let mut next = Vec::new();
        for s in &last {
            for c in alphabet {
                let mut t = s.clone();
                t.push(*c);
                next.push(t);
            }
        }
        all.extend(next.iter().cloned());
        last = next;
    }
    all
}

fn std_file_name(s: &str) -> Option<Vec<u8>> {
    Path::new(s).file_name().map(|n| n.to_str().unwrap().as_bytes().to_vec())
}

fn std_parent(s: &str) -> Option<Vec<u8>> {
    Path::new(s).parent().map(|p| p.to_str().unwrap().as_bytes().to_vec())
}

#[test]
fn file_name_examples() {
    assert_eq!(file_name(b"/usr/bin/"), Some(&b"bin"[..]));
    assert_eq!(file_name(b"tmp/foo.txt"), Some(&b"foo.txt"[..]));
    assert_eq!(file_name(b"foo.txt/."), Some(&b"foo.txt"[..]));
    assert_eq!(file_name(b"foo.txt/.//"), Some(&b"foo.txt"[..]));
    assert_eq!(file_name(b"foo.txt/.."), None);
    assert_eq!(file_name(b"/"), None);
    assert_eq!(file_name(b""), None);
    assert_eq!(file_name(b"."), None);
    assert_eq!(file_name(b".."), None);
    assert_eq!(file_name(b"./"), None);
    assert_eq!(file_name(b"/."), None);
    assert_eq!(file_name(b"..."), Some(&b"..."[..]));
    assert_eq!(file_name(b".a"), Some(&b".a"[..]));
    assert_eq!(file_name(b"a."), Some(&b"a."[..]));
    assert_eq!(file_name(b"/test/file"), Some(&b"file"[..]));
}

#[test]
fn parent_examples() {
    assert_eq!(parent(b"/foo/bar"), Some(&b"/foo"[..]));
    assert_eq!(parent(b"/foo"), Some(&b"/"[..]));
    assert_eq!(parent(b"/"), None);
    assert_eq!(parent(b""), None);
    assert_eq!(parent(b"foo"), Some(&b""[..]));
    assert_eq!(parent(b"out/file"), Some(&b"out"[..]));
    assert_eq!(parent(b"out//file/"), Some(&b"out"[..]));
    assert_eq!(parent(b"a/./b"), Some(&b"a"[..]));
    assert_eq!(parent(b"./b"), Some(&b"."[..]));
    assert_eq!(parent(b"."), Some(&b""[..]));
    assert_eq!(parent(b".."), Some(&b""[..]));
    assert_eq!(parent(b"a/.."), Some(&b"a"[..]));
    assert_eq!(parent(b"/."), None);
    assert_eq!(parent(b"//a"), Some(&b"/"[..]));
}

#[test]
fn join_examples() {
    assert_eq!(join(b"/etc", b"passwd"), b"/etc/passwd".to_vec());
    assert_eq!(join(b"/etc", b"/bin/sh"), b"/bin/sh".to_vec());
    assert_eq!(join(b"/etc/", b"passwd"), b"/etc/passwd".to_vec());
    assert_eq!(join(b"", b"passwd"), b"passwd".to_vec());
    assert_eq!(join(b"a", b""), b"a/".to_vec());
    assert_eq!(join(b"", b""), b"".to_vec());
    assert_eq!(join(b"/", b"x"), b"/x".to_vec());
}

#[test]
fn root_and_separator_examples() {
    assert!(is_absolute(b"/"));
    assert!(is_absolute(b"/a"));
    assert!(!is_absolute(b""));
    assert!(!is_absolute(b"a/"));
    assert!(is_relative(b""));
    assert!(is_relative(b"./a"));
    assert!(!is_relative(b"//"));
    assert!(has_trailing_separator(b"/"));
    assert!(has_trailing_separator(b"dest/"));
    assert!(!has_trailing_separator(b""));
    assert!(!has_trailing_separator(b"dest"));
    assert!(!has_trailing_separator(b"dest/."));
}

#[test]
fn file_name_agrees_with_std_on_every_short_path() {
    for s in strings(&['/', '.', 'a', 'b'], 7) {
        let ours = file_name(s.as_bytes()).map(|n| n.to_vec());
        assert_eq!(ours, std_file_name(&s), "file name of {:?}", s);
    }
}

#[test]
fn parent_agrees_with_std_on_every_short_path() {
    for s in strings(&['/', '.', 'a', 'b'], 7) {
        let ours = parent(s.as_bytes()).map(|p| p.to_vec());
        assert_eq!(ours, std_parent(&s), "parent of {:?}", s);
    }
}

#[test]
fn join_agrees_with_std_on_every_pair_of_short_paths() {
    let all = strings(&['/', '.', 'a'], 4);
    for base in &all {
        for path in &all {
            let ours = join(base.as_bytes(), path.as_bytes());
            let theirs = Path::new(base).join(path);
            assert_eq!(
                ours,
                theirs.to_str().unwrap().as_bytes().to_vec(),
                "{:?} joined with {:?}",
                base,
                path
            );
        }
    }
}

#[test]
fn root_agrees_with_std_on_every_short_path() {
    for s in strings(&['/', '.', 'a'], 5) {
        assert_eq!(is_absolute(s.as_bytes()), Path::new(&s).is_absolute(), "{:?}", s);
        assert_eq!(is_relative(s.as_bytes()), Path::new(&s).is_relative(), "{:?}", s);
        assert_eq!(has_trailing_separator(s.as_bytes()), s.ends_with('/'), "{:?}", s);
    }
}

#[test]
fn file_name_is_a_single_component() {
    for s in strings(&['/', '.', 'a'], 6) {
        if let Some(name) = file_name(s.as_bytes()) {
            assert!(!name.is_empty());
            assert!(!name.contains(&b'/'));
            assert_ne!(name, b".");
            assert_ne!(name, b"..");
            assert_eq!(file_name(name), Some(name));
            assert_eq!(parent(name), Some(&b""[..]));
        }
    }
}
