use rudder::path::FilePath;
use std::path::{Path, PathBuf};

fn texts(length: usize) -> Vec<String> {
    let mut all: Vec<String> = vec![String::new()];
    let mut last: Vec<String> = all.clone();
    for _ in 0..length {
        let mut next: Vec<String> = Vec::new();
        for text in &last {
            for c in ["a", ".", "/"] {
                next.push(format!("{}{}", text, c));
            }
        }
        all.extend(next.iter().cloned());
        last = next;
    }
    all
}

fn spelled(path: &FilePath) -> String {
    String::from_utf8(path.bytes.clone()).unwrap()
}

#[test]
fn file_names_are_those_of_the_system() {
    for text in texts(7) {
        let expected = Path::new(&text).file_name().map(|n| n.to_str().unwrap().to_owned());
        let path = FilePath::from_text(&text);
        let name = path.file_name().map(|n| String::from_utf8(n.to_vec()).unwrap());
        assert_eq!(name, expected, "{}", text);
        assert_eq!(path.file_name_lossy(), expected, "{}", text);
    }
}

#[test]
fn parents_are_those_of_the_system() {
    for text in texts(7) {
        let expected = Path::new(&text).parent().map(|p| p.to_str().unwrap().to_owned());
        let parent = FilePath::from_text(&text).parent().map(|p| spelled(&p));
        assert_eq!(parent, expected, "{}", text);
    }
}

#[test]
fn extensions_are_those_of_the_system() {
    for text in texts(7) {
        let expected = Path::new(&text).extension().map(|e| e.to_str().unwrap().to_owned());
        assert_eq!(FilePath::from_text(&text).extension_text(), expected, "{}", text);
    }
}

#[test]
fn changed_extensions_are_those_of_the_system() {
    for text in texts(6) {
        for extension in ["", "cf", "rd.cf", "a"] {
            let mut expected = PathBuf::from(&text);
            expected.set_extension(extension);
            let changed = FilePath::from_text(&text).with_extension(extension);
            assert_eq!(spelled(&changed), expected.to_str().unwrap(), "{} {}", text, extension);
        }
    }
}

#[test]
fn joined_paths_are_those_of_the_system() {
    for base in texts(4) {
        for text in texts(4) {
            let expected = Path::new(&base).join(&text);
            let joined = FilePath::from_text(&base).join(&FilePath::from_text(&text));
            assert_eq!(spelled(&joined), expected.to_str().unwrap(), "{} {}", base, text);
        }
    }
}

#[test]
fn an_extension_that_is_no_text_is_not_one() {
    let path = FilePath { bytes: vec![b'a', b'.', 0xff] };
    assert_eq!(path.extension(), Some(&[0xffu8][..]));
    assert_eq!(path.extension_text(), None);
    let path = FilePath { bytes: vec![b'a', b'.', 0xc3, 0xa9] };
    assert_eq!(path.extension_text(), Some("\u{e9}".to_owned()));
}

#[test]
fn a_name_that_is_no_text_is_shown_with_replacements() {
    let path = FilePath { bytes: vec![b'd', b'/', b'a', 0xff, b'b'] };
    assert_eq!(path.file_name_lossy(), Some("a\u{fffd}b".to_owned()));
}

#[test]
fn a_new_extension_changes_the_name_alone() {
    let path = FilePath::from_text("/srv/in/config.tar.gz");
    let changed = path.with_extension("rd.cf");
    assert_eq!(spelled(&changed), "/srv/in/config.tar.rd.cf");
    assert_eq!(changed.parent(), path.parent());
    assert_eq!(changed.extension_text(), Some("cf".to_owned()));
    assert_eq!(spelled(&FilePath::from_text("/").with_extension("cf")), "/");
}

#[test]
fn an_absolute_path_is_joined_to_nothing() {
    let base = FilePath::from_text("/etc");
    assert_eq!(base.join(&FilePath::from_text("/srv/a")), FilePath::from_text("/srv/a"));
    assert_eq!(base.join(&FilePath::from_text("a")), FilePath::from_text("/etc/a"));
    let joined = base.join(&FilePath::from_text("b/c.rd"));
    assert_eq!(joined.file_name(), Some(&b"c.rd"[..]));
}
