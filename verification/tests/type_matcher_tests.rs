use type_matcher::{ConstructionError, Entry, FileKind, Matcher, Platform, TypeMatcher};

/// The context that the evaluator of these tests shares among its matchers.
#[derive(Clone, Debug, PartialEq)]
struct MatcherIO {
    should_skip_dir: bool,
    printed: Vec<String>,
}

struct FakeDependencies;

impl FakeDependencies {
    fn new() -> FakeDependencies {
        FakeDependencies
    }

    fn new_matcher_io(&self) -> MatcherIO {
        MatcherIO { should_skip_dir: false, printed: Vec::new() }
    }
}

/// The entry called `filename` in `directory`, found to be of `kind`.
fn get_dir_entry_for(directory: &str, filename: &str, kind: FileKind) -> Entry {
    Entry::new(format!("{}/{}", directory, filename), kind)
}

const ALL_KINDS: [FileKind; 8] = [
    FileKind::RegularFile,
    FileKind::Directory,
    FileKind::Symlink,
    FileKind::BlockDevice,
    FileKind::CharDevice,
    FileKind::Fifo,
    FileKind::Socket,
    FileKind::Unknown,
];

const ALL_CODES: [(&str, FileKind); 7] = [
    ("f", FileKind::RegularFile),
    ("d", FileKind::Directory),
    ("l", FileKind::Symlink),
    ("b", FileKind::BlockDevice),
    ("c", FileKind::CharDevice),
    ("p", FileKind::Fifo),
    ("s", FileKind::Socket),
];

#[test]
fn file_type_matcher() {
    let file = get_dir_entry_for("test_data/simple", "abbbc", FileKind::RegularFile);
    let dir = get_dir_entry_for("test_data", "simple", FileKind::Directory);
    let deps = FakeDependencies::new();

    let matcher = TypeMatcher::new(&"f".to_string()).unwrap();
    assert!(!matcher.matches(&dir, &mut deps.new_matcher_io()));
    assert!(matcher.matches(&file, &mut deps.new_matcher_io()));
}

#[test]
fn dir_type_matcher() {
    let file = get_dir_entry_for("test_data/simple", "abbbc", FileKind::RegularFile);
    let dir = get_dir_entry_for("test_data", "simple", FileKind::Directory);
    let deps = FakeDependencies::new();

    let matcher = TypeMatcher::new(&"d".to_string()).unwrap();
    assert!(matcher.matches(&dir, &mut deps.new_matcher_io()));
    assert!(!matcher.matches(&file, &mut deps.new_matcher_io()));
}

#[test]
fn cant_create_with_invalid_pattern() {
    let result = TypeMatcher::new(&"xxx".to_string());
    assert!(result.is_err());
}

#[test]
fn every_code_matches_its_kind_and_no_other() {
    let deps = FakeDependencies::new();
    for (code, selected) in ALL_CODES {
        let matcher = TypeMatcher::new(code).unwrap();
        for kind in ALL_KINDS {
            let entry = get_dir_entry_for("test_data/simple", "entry", kind);
            assert_eq!(
                matcher.matches(&entry, &mut deps.new_matcher_io()),
                kind == selected,
                "code {} on {:?}",
                code,
                kind
            );
        }
    }
}

#[test]
fn every_named_kind_is_matched_under_exactly_one_code() {
    let deps = FakeDependencies::new();
    for kind in ALL_KINDS {
        let entry = get_dir_entry_for("test_data", "entry", kind);
        let accepting: Vec<&str> = ALL_CODES
            .iter()
            .map(|(code, _)| *code)
            .filter(|code| {
                TypeMatcher::new(code).unwrap().matches(&entry, &mut deps.new_matcher_io())
            })
            .collect();
        if kind == FileKind::Unknown {
            assert!(accepting.is_empty());
        } else {
            assert_eq!(accepting.len(), 1, "{:?}", kind);
        }
    }
}

#[test]
fn symlink_code_matches_the_link_itself() {
    let deps = FakeDependencies::new();
    let link = get_dir_entry_for("test_data/links", "link-f", FileKind::Symlink);
    let matcher = TypeMatcher::new("l").unwrap();
    assert!(matcher.matches(&link, &mut deps.new_matcher_io()));
    assert!(!TypeMatcher::new("f").unwrap().matches(&link, &mut deps.new_matcher_io()));
    assert!(!TypeMatcher::new("d").unwrap().matches(&link, &mut deps.new_matcher_io()));
}

#[test]
fn door_is_unsupported_and_unknown_tokens_are_unrecognised() {
    let door = TypeMatcher::new("D").unwrap_err();
    let unknown = TypeMatcher::new("xxx").unwrap_err();
    assert_eq!(door, ConstructionError::UnsupportedType("D".to_string()));
    assert_eq!(unknown, ConstructionError::UnrecognizedType("xxx".to_string()));
    assert_ne!(door, unknown);
    assert!(matches!(door, ConstructionError::UnsupportedType(_)));
    assert!(matches!(unknown, ConstructionError::UnrecognizedType(_)));
}

#[test]
fn error_messages_quote_the_token() {
    let door = TypeMatcher::new("D").unwrap_err();
    assert_eq!(door.message(), "Type argument D not supported yet");
    assert_eq!(door.token(), "D");

    let unknown = TypeMatcher::new("xxx").unwrap_err();
    assert_eq!(unknown.message(), "Unrecognised type argument xxx");
    assert_eq!(unknown.token(), "xxx");

    let empty = TypeMatcher::new("").unwrap_err();
    assert_eq!(empty.message(), "Unrecognised type argument ");
    assert_eq!(empty.token(), "");

    let accented = TypeMatcher::new("é").unwrap_err();
    assert_eq!(accented.message(), "Unrecognised type argument é");
    assert!(accented.message().contains(accented.token()));
}

#[test]
fn empty_token_is_unrecognised() {
    for platform in [Platform::Unix, Platform::Other] {
        assert_eq!(
            TypeMatcher::new_on(platform, "").unwrap_err(),
            ConstructionError::UnrecognizedType(String::new())
        );
    }
}

#[test]
fn longer_tokens_are_unrecognised() {
    for token in ["ff", "fd", "file", "f ", " f", "f\n", "dD", "DD", "type f", "-f", "lll"] {
        for platform in [Platform::Unix, Platform::Other] {
            assert_eq!(
                TypeMatcher::new_on(platform, token).unwrap_err(),
                ConstructionError::UnrecognizedType(token.to_string()),
                "token {:?}",
                token
            );
        }
    }
}

#[test]
fn codes_in_upper_case_are_unrecognised() {
    for token in ["F", "L", "B", "C", "P", "S"] {
        for platform in [Platform::Unix, Platform::Other] {
            assert_eq!(
                TypeMatcher::new_on(platform, token).unwrap_err(),
                ConstructionError::UnrecognizedType(token.to_string())
            );
        }
    }
}

#[test]
fn other_single_characters_are_unrecognised() {
    for token in ["x", "a", "e", "g", "0", "-", " ", "é", "ƒ", "Д"] {
        for platform in [Platform::Unix, Platform::Other] {
            assert_eq!(
                TypeMatcher::new_on(platform, token).unwrap_err(),
                ConstructionError::UnrecognizedType(token.to_string())
            );
        }
    }
}

#[test]
fn matching_twice_gives_the_same_answer() {
    let deps = FakeDependencies::new();
    for (code, _) in ALL_CODES {
        let matcher = TypeMatcher::new(code).unwrap();
        for kind in ALL_KINDS {
            let entry = get_dir_entry_for("test_data/simple", "abbbc", kind);
            let mut io = deps.new_matcher_io();
            let first = matcher.matches(&entry, &mut io);
            let second = matcher.matches(&entry, &mut io);
            assert_eq!(first, second);
        }
    }
}

#[test]
fn matching_leaves_entry_and_context_alone() {
    let entry = get_dir_entry_for("test_data/simple", "abbbc", FileKind::RegularFile);
    let matcher = TypeMatcher::new("f").unwrap();
    let mut io = MatcherIO { should_skip_dir: true, printed: vec!["./a".to_string()] };
    let before = io.clone();
    assert!(matcher.matches(&entry, &mut io));
    assert_eq!(io, before);
    assert_eq!(entry, get_dir_entry_for("test_data/simple", "abbbc", FileKind::RegularFile));
    assert_eq!(entry.path(), "test_data/simple/abbbc");
    assert_eq!(entry.file_type(), FileKind::RegularFile);
}

#[test]
fn the_answer_does_not_depend_on_the_context() {
    let entry = get_dir_entry_for("test_data", "simple", FileKind::Directory);
    let matcher = TypeMatcher::new("d").unwrap();
    let mut empty = MatcherIO { should_skip_dir: false, printed: Vec::new() };
    let mut busy = MatcherIO { should_skip_dir: true, printed: vec!["x".to_string(); 3] };
    assert!(matcher.matches(&entry, &mut empty));
    assert!(matcher.matches(&entry, &mut busy));
    let mut counter: u64 = 41;
    assert!(matcher.matches(&entry, &mut counter));
    assert_eq!(counter, 41);
}

#[test]
fn file_and_directory_answers_are_opposite() {
    let deps = FakeDependencies::new();
    let dir = get_dir_entry_for("test_data", "simple", FileKind::Directory);
    let file = get_dir_entry_for("test_data/simple", "abbbc", FileKind::RegularFile);
    let by_file = TypeMatcher::new("f").unwrap();
    let by_dir = TypeMatcher::new("d").unwrap();
    let file_answers = (
        by_file.matches(&dir, &mut deps.new_matcher_io()),
        by_file.matches(&file, &mut deps.new_matcher_io()),
    );
    let dir_answers = (
        by_dir.matches(&dir, &mut deps.new_matcher_io()),
        by_dir.matches(&file, &mut deps.new_matcher_io()),
    );
    assert_eq!(file_answers, (false, true));
    assert_eq!(dir_answers, (true, false));
}

#[test]
fn platform_without_special_files_refuses_their_codes() {
    for token in ["b", "c", "p", "s", "D"] {
        assert_eq!(
            TypeMatcher::new_on(Platform::Other, token).unwrap_err(),
            ConstructionError::UnrecognizedType(token.to_string())
        );
    }
    assert_eq!(
        TypeMatcher::new_on(Platform::Other, "b").unwrap_err().message(),
        "Unrecognised type argument b"
    );
    assert!(TypeMatcher::new_on(Platform::Unix, "b").is_ok());
}

#[test]
fn platform_without_special_files_accepts_three_codes() {
    let deps = FakeDependencies::new();
    for (code, selected) in [
        ("f", FileKind::RegularFile),
        ("d", FileKind::Directory),
        ("l", FileKind::Symlink),
    ] {
        let matcher = TypeMatcher::new_on(Platform::Other, code).unwrap();
        for kind in ALL_KINDS {
            let entry = get_dir_entry_for("test_data", "entry", kind);
            assert_eq!(matcher.matches(&entry, &mut deps.new_matcher_io()), kind == selected);
        }
    }
}

#[test]
fn unix_platform_reads_codes_as_new_does() {
    let deps = FakeDependencies::new();
    for token in ["f", "d", "l", "b", "c", "p", "s", "D", "", "x", "F", "fd"] {
        let by_new = TypeMatcher::new(token);
        let by_platform = TypeMatcher::new_on(Platform::Unix, token);
        match (by_new, by_platform) {
            (Ok(left), Ok(right)) => {
                for kind in ALL_KINDS {
                    let entry = get_dir_entry_for("test_data", "entry", kind);
                    assert_eq!(
                        left.matches(&entry, &mut deps.new_matcher_io()),
                        right.matches(&entry, &mut deps.new_matcher_io())
                    );
                }
            }
            (Err(left), Err(right)) => assert_eq!(left, right),
            _ => panic!("the two constructors disagree on {:?}", token),
        }
    }
}

#[test]
fn boxed_matcher_answers_as_the_plain_one() {
    let deps = FakeDependencies::new();
    for (code, selected) in ALL_CODES {
        let boxed: Box<dyn Matcher<MatcherIO>> = TypeMatcher::new_box(code).unwrap();
        for kind in ALL_KINDS {
            let entry = get_dir_entry_for("test_data", "entry", kind);
            let mut io = deps.new_matcher_io();
            assert_eq!(boxed.matches(&entry, &mut io), kind == selected);
            assert_eq!(io, deps.new_matcher_io());
        }
    }
}

#[test]
fn boxed_matchers_of_several_codes_live_side_by_side() {
    let deps = FakeDependencies::new();
    let matchers: Vec<Box<dyn Matcher<MatcherIO>>> = vec![
        TypeMatcher::new_box("f").unwrap(),
        TypeMatcher::new_box("d").unwrap(),
    ];
    let dir = get_dir_entry_for("test_data", "simple", FileKind::Directory);
    let answers: Vec<bool> = matchers
        .iter()
        .map(|matcher| matcher.matches(&dir, &mut deps.new_matcher_io()))
        .collect();
    assert_eq!(answers, vec![false, true]);
}

#[test]
fn boxed_constructor_refuses_what_new_refuses() {
    let door = TypeMatcher::new_box::<MatcherIO>("D").err().unwrap();
    assert_eq!(door, ConstructionError::UnsupportedType("D".to_string()));
    let unknown = TypeMatcher::new_box::<MatcherIO>("xxx").err().unwrap();
    assert_eq!(unknown, ConstructionError::UnrecognizedType("xxx".to_string()));
    let empty = TypeMatcher::new_box::<MatcherIO>("").err().unwrap();
    assert_eq!(empty, ConstructionError::UnrecognizedType(String::new()));
}

#[test]
fn boxed_constructor_follows_the_platform() {
    let deps = FakeDependencies::new();
    let fifo = get_dir_entry_for("test_data", "pipe", FileKind::Fifo);
    let boxed = TypeMatcher::new_box_on::<MatcherIO>(Platform::Unix, "p").unwrap();
    assert!(boxed.matches(&fifo, &mut deps.new_matcher_io()));
    let refused = TypeMatcher::new_box_on::<MatcherIO>(Platform::Other, "p").err().unwrap();
    assert_eq!(refused, ConstructionError::UnrecognizedType("p".to_string()));
    let door = TypeMatcher::new_box_on::<MatcherIO>(Platform::Other, "D").err().unwrap();
    assert_eq!(door, ConstructionError::UnrecognizedType("D".to_string()));
    let link = get_dir_entry_for("test_data", "link", FileKind::Symlink);
    let plain = TypeMatcher::new_box_on::<MatcherIO>(Platform::Other, "l").unwrap();
    assert!(plain.matches(&link, &mut deps.new_matcher_io()));
    assert!(!plain.matches(&fifo, &mut deps.new_matcher_io()));
}

#[test]
fn is_symlink_is_true_of_links_only() {
    for kind in ALL_KINDS {
        assert_eq!(TypeMatcher::is_symlink(&kind), kind == FileKind::Symlink);
    }
}
