use std::path::{Path, PathBuf};

use conmon::path::{file_name, is_absolute, join, parent};

/// Every string of up to six characters over an alphabet in which paths differ.
fn all_paths() -> Vec<String> {
    let mut all: Vec<String> = vec![String::new()];
    let mut last = all.clone();
    for _ in 0..6 {
        let mut next = Vec::new();
        for path in &last {
            for c in ['/', '.', 'a'] {
                next.push(format!("{path}{c}"));
            }
        }
        all.extend(next.iter().cloned());
        last = next;
    }
    all
}

fn text(bytes: &[u8]) -> String {
    String::from_utf8(bytes.to_vec()).unwrap()
}

#[test]
fn file_names_are_those_of_the_standard_library() {
    for path in all_paths() {
        let expected = Path::new(&path).file_name().map(|n| n.to_str().unwrap());
        let found = file_name(path.as_bytes()).map(text);
        assert_eq!(found.as_deref(), expected, "{path:?}");
    }
}

#[test]
fn parents_are_those_of_the_standard_library() {
    for path in all_paths() {
        let expected = Path::new(&path).parent().map(|n| n.to_str().unwrap());
        let found = parent(path.as_bytes()).map(text);
        assert_eq!(found.as_deref(), expected, "{path:?}");
    }
}

#[test]
fn absolute_paths_are_those_of_the_standard_library() {
    for path in all_paths() {
        assert_eq!(
            is_absolute(path.as_bytes()),
            Path::new(&path).is_absolute(),
            "{path:?}"
        );
    }
}

#[test]
fn joined_paths_are_those_of_the_standard_library() {
    let short: Vec<String> = all_paths().into_iter().filter(|p| p.len() <= 3).collect();
    for dir in &short {
        for rest in &short {
            let expected = PathBuf::from(dir).join(rest);
            let found = text(&join(dir.as_bytes(), rest.as_bytes()));
            assert_eq!(found, expected.to_str().unwrap(), "{dir:?} {rest:?}");
        }
    }
}

#[test]
fn what_is_put_below_a_directory_keeps_its_name() {
    let path = join(b"/run/ctr", b"notify/notify.sock");
    assert_eq!(path, b"/run/ctr/notify/notify.sock");
    assert_eq!(file_name(&path), Some(&b"notify.sock"[..]));
    assert_eq!(parent(&path), Some(&b"/run/ctr/notify"[..]));
}

#[test]
fn a_plain_name_has_the_empty_path_around_it() {
    assert_eq!(file_name(b"attach"), Some(&b"attach"[..]));
    assert_eq!(parent(b"attach"), Some(&b""[..]));
}

#[test]
fn names_need_not_be_text() {
    assert_eq!(file_name(b"/run/\xff\xfe/"), Some(&b"\xff\xfe"[..]));
    assert_eq!(parent(b"/run/\xff\xfe/"), Some(&b"/run"[..]));
}
