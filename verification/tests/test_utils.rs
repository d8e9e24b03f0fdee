use rknpu2::utils::{
    dedup_paths, is_same_path, join, library_candidates, library_paths_in, library_search_dirs,
    split,
};
use std::path::Path;

fn text(paths: &[Vec<u8>]) -> Vec<String> {
    paths
        .iter()
        .map(|p| String::from_utf8(p.clone()).unwrap())
        .collect()
}

fn bytes(paths: &[&str]) -> Vec<Vec<u8>> {
    paths.iter().map(|p| p.as_bytes().to_vec()).collect()
}

#[test]
fn split_at_every_separator() {
    assert_eq!(text(&split(b"/a:/b/c:d", b':')), ["/a", "/b/c", "d"]);
    assert_eq!(text(&split(b"/a", b':')), ["/a"]);
    assert_eq!(text(&split(b"", b':')), [""]);
    assert_eq!(text(&split(b":", b':')), ["", ""]);
    assert_eq!(text(&split(b"a::b:", b':')), ["a", "", "b", ""]);
    assert_eq!(text(&split(b"/usr//lib/", b'/')), ["", "usr", "", "lib", ""]);
}

#[test]
fn split_agrees_with_the_standard_library() {
    for list in ["", ":", "a", "a:b", ":a:", "/usr/lib:/opt/lib::/x", ":::"] {
        let expected: Vec<String> = list.split(':').map(|s| s.to_string()).collect();
        assert_eq!(text(&split(list.as_bytes(), b':')), expected);
    }
}

#[test]
fn join_appends_with_one_separator() {
    assert_eq!(join(b"/usr/lib", b"librknnrt.so"), b"/usr/lib/librknnrt.so");
    assert_eq!(join(b"/usr/lib/", b"librknnrt.so"), b"/usr/lib/librknnrt.so");
    assert_eq!(join(b"", b"librknnrt.so"), b"librknnrt.so");
    assert_eq!(join(b"/", b"lib"), b"/lib");
    assert_eq!(join(b"/home/me", b".local/lib"), b"/home/me/.local/lib");
    assert_eq!(join(b"/home/me", b"/abs"), b"/abs");
    assert_eq!(join(b"rel", b""), b"rel/");
}

#[test]
fn join_agrees_with_the_standard_library() {
    let dirs = ["", "/", "/usr/lib", "/usr/lib/", "rel", "rel//", ".", "a/b"];
    let names = ["librknnrt.so", ".local/lib", "/abs/x", "", "x/"];
    for dir in dirs {
        for name in names {
            let expected = Path::new(dir).join(name);
            let got = join(dir.as_bytes(), name.as_bytes());
            assert_eq!(
                String::from_utf8(got).unwrap(),
                expected.to_str().unwrap(),
                "joining {:?} and {:?}",
                dir,
                name
            );
        }
    }
}

#[test]
fn same_path_ignores_what_does_not_name_anything() {
    assert!(is_same_path(b"/usr/lib", b"/usr/lib"));
    assert!(is_same_path(b"/usr/lib", b"/usr/lib/"));
    assert!(is_same_path(b"/usr/lib", b"/usr//lib"));
    assert!(is_same_path(b"/usr/lib", b"//usr/./lib/."));
    assert!(is_same_path(b"a/b", b"a/./b"));
    assert!(is_same_path(b"", b""));
    assert!(!is_same_path(b"/usr/lib", b"usr/lib"));
    assert!(!is_same_path(b"/usr/lib", b"/usr/lib64"));
    assert!(!is_same_path(b"a/b", b"./a/b"));
    assert!(!is_same_path(b"a/..", b"a"));
    assert!(!is_same_path(b"a", b"a/b"));
    assert!(!is_same_path(b".", b""));
    assert!(!is_same_path(b"/", b""));
}

#[test]
fn same_path_agrees_with_the_standard_library() {
    let paths = [
        "",
        ".",
        "./",
        "/",
        "//",
        "/.",
        "a",
        "a/",
        "./a",
        "a/.",
        "a/./b",
        "a/b",
        "a//b",
        "a/b/",
        "/a/b",
        "//a/b",
        "/a/b/.",
        "/./a/b",
        "a/..",
        "..",
        "../a",
        ".a",
        "a.",
        "...",
        "/usr/lib/librknnrt.so",
        "/usr/lib//librknnrt.so",
        "/usr/lib/./librknnrt.so",
        "/usr/lib/librknnmrt.so",
        "librknnrt.so",
        "./librknnrt.so",
    ];
    for a in paths {
        for b in paths {
            assert_eq!(
                is_same_path(a.as_bytes(), b.as_bytes()),
                Path::new(a) == Path::new(b),
                "comparing {:?} and {:?}",
                a,
                b
            );
        }
    }
}

#[test]
fn dedup_keeps_the_first_of_each_path() {
    let all = bytes(&["/a/x", "/b/x", "/a//x", "/a/x", "/c", "/b/x/", "/c"]);
    assert_eq!(text(&dedup_paths(&all)), ["/a/x", "/b/x", "/c"]);
    assert_eq!(dedup_paths(&Vec::new()).len(), 0);
    let one = bytes(&["x"]);
    assert_eq!(text(&dedup_paths(&one)), ["x"]);
}

#[test]
fn search_dirs_without_environment_are_the_fixed_ones() {
    assert_eq!(
        text(&library_search_dirs(None, None)),
        [
            "/usr/lib",
            "/usr/local/lib",
            "/usr/lib/aarch64-linux-gnu",
            "/usr/local/lib/aarch64-linux-gnu",
            "/lib",
            "/lib/aarch64-linux-gnu",
            "/opt/lib",
        ]
    );
}

#[test]
fn search_dirs_take_the_list_then_the_home_directory() {
    let dirs = library_search_dirs(Some(b"/opt/rknn/lib:/data"), Some(b"/home/me"));
    assert_eq!(
        text(&dirs),
        [
            "/usr/lib",
            "/usr/local/lib",
            "/usr/lib/aarch64-linux-gnu",
            "/usr/local/lib/aarch64-linux-gnu",
            "/lib",
            "/lib/aarch64-linux-gnu",
            "/opt/lib",
            "/opt/rknn/lib",
            "/data",
            "/home/me/.local/lib",
        ]
    );
    // an empty list is one empty entry
    let dirs = library_search_dirs(Some(b""), None);
    assert_eq!(dirs.len(), 8);
    assert_eq!(dirs[7], b"");
}

#[test]
fn library_paths_are_both_names_under_every_directory() {
    let dirs = bytes(&["/usr/lib", "", "/opt/lib/"]);
    assert_eq!(
        text(&library_paths_in(&dirs)),
        [
            "/usr/lib/librknnrt.so",
            "/usr/lib/librknnmrt.so",
            "librknnrt.so",
            "librknnmrt.so",
            "/opt/lib/librknnrt.so",
            "/opt/lib/librknnmrt.so",
        ]
    );
}

#[test]
fn candidates_without_environment() {
    assert_eq!(
        text(&library_candidates(None, None)),
        [
            "/usr/lib/librknnrt.so",
            "/usr/lib/librknnmrt.so",
            "/usr/local/lib/librknnrt.so",
            "/usr/local/lib/librknnmrt.so",
            "/usr/lib/aarch64-linux-gnu/librknnrt.so",
            "/usr/lib/aarch64-linux-gnu/librknnmrt.so",
            "/usr/local/lib/aarch64-linux-gnu/librknnrt.so",
            "/usr/local/lib/aarch64-linux-gnu/librknnmrt.so",
            "/lib/librknnrt.so",
            "/lib/librknnmrt.so",
            "/lib/aarch64-linux-gnu/librknnrt.so",
            "/lib/aarch64-linux-gnu/librknnmrt.so",
            "/opt/lib/librknnrt.so",
            "/opt/lib/librknnmrt.so",
        ]
    );
}

#[test]
fn candidates_never_repeat_a_path() {
    // the same directories again, by way of the search path and the home
    // directory, written in other ways
    let found = library_candidates(
        Some(b"/usr/lib:/opt/lib/:/usr//local/lib:/new:/new/.:/usr/lib"),
        Some(b"/usr"),
    );
    let names = text(&found);
    assert_eq!(names.len(), 14 + 2 + 2);
    assert_eq!(names[14], "/new/librknnrt.so");
    assert_eq!(names[15], "/new/librknnmrt.so");
    assert_eq!(names[16], "/usr/.local/lib/librknnrt.so");
    assert_eq!(names[17], "/usr/.local/lib/librknnmrt.so");
    for i in 0..found.len() {
        for j in 0..found.len() {
            if i != j {
                assert_ne!(Path::new(&names[i]), Path::new(&names[j]));
                assert!(!is_same_path(&found[i], &found[j]));
            }
        }
    }
    // the order of the first appearances is kept
    assert_eq!(&names[..14], &text(&library_candidates(None, None))[..]);
}

#[test]
fn candidates_with_home_under_a_fixed_directory() {
    let found = library_candidates(None, Some(b"/opt/lib/../.."));
    assert_eq!(found.len(), 16);
    assert_eq!(found[14], b"/opt/lib/../../.local/lib/librknnrt.so");
}
