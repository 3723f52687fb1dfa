use distro_pioneer::path::{absolute, directory_of, join_path};
use distro_pioneer::text::{chars_of, chain, escape, find, join, matches_at, string_of};
use std::path::Path;

#[test]
fn characters_round_trip() {
    let text = "h\u{e9}llo w\u{f6}rld\n";
    assert_eq!(string_of(&chars_of(text)), text);
    assert_eq!(chars_of("ab"), vec!['a', 'b']);
    assert_eq!(chars_of(""), Vec::<char>::new());
}

#[test]
fn concat_and_join() {
    assert_eq!(chain("ab", "cd"), "abcd");
    assert_eq!(join(&vec![], ":"), "");
    assert_eq!(join(&vec!["a".to_string()], ":"), "a");
    assert_eq!(join(&vec!["a".to_string(), "b".to_string(), "c".to_string()], ":"), "a:b:c");
    assert_eq!(join(&vec!["".to_string(), "".to_string()], "\n"), "\n");
}

#[test]
fn escape_puts_a_backslash_before_each_quote() {
    assert_eq!(escape("ls -la"), "ls -la");
    assert_eq!(escape("echo 'hi'"), "echo \\'hi\\'");
    assert_eq!(escape("'"), "\\'");
    assert_eq!(escape(""), "");
    assert_eq!(escape("it's"), "it's".replace("'", "\\'"));
}

#[test]
fn find_gives_the_first_occurrence() {
    let hay = chars_of("abcabcab");
    assert_eq!(find(&hay, &chars_of("bc"), 0), Some(1));
    assert_eq!(find(&hay, &chars_of("bc"), 2), Some(4));
    assert_eq!(find(&hay, &chars_of("bc"), 5), None);
    assert_eq!(find(&hay, &chars_of("x"), 0), None);
    assert_eq!(find(&hay, &chars_of(""), 3), Some(3));
    assert_eq!(find(&hay, &chars_of("abcabcabc"), 0), None);
    assert!(matches_at(&hay, &chars_of("cab"), 2));
    assert!(!matches_at(&hay, &chars_of("cab"), 3));
    assert!(!matches_at(&hay, &chars_of("ab"), 7));
}

#[test]
fn join_path_resolves_as_the_platform_does() {
    assert_eq!(join_path("/home/u", ".distro"), "/home/u/.distro");
    assert_eq!(join_path("/home/u/", ".distro"), "/home/u/.distro");
    assert_eq!(join_path("/home/u", "/etc/motd"), "/etc/motd");
    assert_eq!(join_path("", "x"), "x");
    assert_eq!(join_path("conf", ""), "conf/");
    let cases = [
        ("/a", "b"), ("/a/", "b"), ("a", "b/c"), ("", "b"), ("a", ""), ("a", "/b"), ("/", "b"),
        ("a/b", "../c"), (".", "x"), ("", ""),
    ];
    for (base, rel) in cases {
        let expected = Path::new(base).join(rel);
        assert_eq!(join_path(base, rel), expected.to_str().unwrap(), "{:?} {:?}", base, rel);
    }
}

#[test]
fn absolute_paths_start_at_the_root() {
    assert!(absolute("/"));
    assert!(absolute("/etc"));
    assert!(!absolute(""));
    assert!(!absolute("etc"));
    assert!(!absolute("./etc"));
}

#[test]
fn directory_of_a_configuration_file() {
    assert_eq!(directory_of("conf/base.toml"), "conf");
    assert_eq!(directory_of("/etc/pioneer/base.toml"), "/etc/pioneer");
    assert_eq!(directory_of("base.toml"), "");
    assert_eq!(directory_of("/"), ".");
    assert_eq!(directory_of(""), ".");
}
