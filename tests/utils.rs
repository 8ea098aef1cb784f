use voila::{absolutize, get_sum_of, trim_spaces, ErrorKind, SumKind};

#[test]
fn trim_keeps_inner_whitespace() {
    assert_eq!(trim_spaces(&"  a b \t\n".to_string()), "a b");
    assert_eq!(trim_spaces(&"\u{3000}x\u{a0}".to_string()), "x");
    assert_eq!(trim_spaces(&" \t ".to_string()), "");
    assert_eq!(trim_spaces(&"plain".to_string()), "plain");
}

#[test]
fn regex_matching() {
    assert_eq!(voila::pattern::matches(&"abbc".to_string(), &"b+".to_string()).unwrap(), true);
    assert_eq!(voila::pattern::matches(&"ac".to_string(), &"^ab".to_string()).unwrap(), false);
}

#[test]
fn invalid_pattern_is_an_error() {
    let e = voila::pattern::matches(&"abc".to_string(), &"(".to_string()).unwrap_err();
    assert_eq!(e.kind, ErrorKind::InvalidPattern);
    assert_eq!(e.message, "(");
}

#[test]
fn empty_input_digests() {
    let empty: Vec<u8> = vec![];
    assert_eq!(
        get_sum_of(&empty, SumKind::Sha256),
        "e3b0c44298fc1c149afbf4c8996fb92427ae41e4649b934ca495991b7852b855"
    );
    assert_eq!(get_sum_of(&empty, SumKind::Md5), "d41d8cd98f00b204e9800998ecf8427e");
}

#[test]
fn digests_of_content() {
    let bytes = b"hello".to_vec();
    assert_eq!(
        get_sum_of(&bytes, SumKind::Sha256),
        "2cf24dba5fb0a30e26e83b2ac5b9e29e1b161e5c1fa7425e73043362938b9824"
    );
    assert_eq!(get_sum_of(&bytes, SumKind::Md5), "5d41402abc4b2a76b9719d911017c592");
}

#[test]
fn digests_are_deterministic_and_differ_by_kind() {
    let a = b"some file content\n".to_vec();
    let b = a.clone();
    assert_eq!(get_sum_of(&a, SumKind::Sha256), get_sum_of(&b, SumKind::Sha256));
    assert_eq!(get_sum_of(&a, SumKind::Md5), get_sum_of(&b, SumKind::Md5));
    assert_ne!(get_sum_of(&a, SumKind::Sha256), get_sum_of(&a, SumKind::Md5));
}

#[test]
fn absolutize_from_a_directory() {
    let abs = |p: &str, cwd: &str| absolutize(&p.to_string(), &cwd.to_string());
    assert_eq!(abs("a/../b", "/home/u").as_deref(), Some("/home/u/b"));
    assert_eq!(abs("/x/./y", "/c").as_deref(), Some("/x/y"));
    assert_eq!(abs("./f", "/c").as_deref(), Some("/c/f"));
    assert_eq!(abs("..", "/").as_deref(), Some("/"));
    assert_eq!(abs("../..", "/a").as_deref(), Some("/"));
}

#[test]
fn absolutize_needs_a_rooted_directory() {
    let abs = |p: &str, cwd: &str| absolutize(&p.to_string(), &cwd.to_string());
    assert_eq!(abs(".", ""), None);
    assert_eq!(abs("a/..", ""), None);
    assert_eq!(abs("..", "rel/dir"), None);
    assert_eq!(abs("..", "//"), None);
    assert_eq!(abs("..", "/./"), None);
}
