use backmeup::paths::{
    extension, final_component, is_hidden, is_within, join, mirror, relative_path,
    resolve_destination,
};
use backmeup::text::{chars_of, contains_text, digit_text, push_decimal, same_chars, same_text, starts_with};

fn chars(s: &str) -> Vec<char> {
    s.chars().collect()
}

fn decimal(n: u64) -> String {
    let mut out = String::new();
    push_decimal(&mut out, n);
    out
}

#[test]
fn chars_of_keeps_every_character() {
    assert_eq!(chars_of(""), Vec::<char>::new());
    assert_eq!(chars_of("abc"), vec!['a', 'b', 'c']);
    assert_eq!(chars_of("h\u{e9}llo \u{4e16}"), vec!['h', '\u{e9}', 'l', 'l', 'o', ' ', '\u{4e16}']);
}

#[test]
fn starts_with_and_same_chars() {
    assert!(starts_with(&chars("/sys/kernel"), &chars("/sys")));
    assert!(starts_with(&chars("/sys"), &chars("/sys")));
    assert!(starts_with(&chars("anything"), &chars("")));
    assert!(!starts_with(&chars("/sy"), &chars("/sys")));
    assert!(!starts_with(&chars("/sxs/a"), &chars("/sys")));
    assert!(same_chars(&chars("abc"), &chars("abc")));
    assert!(!same_chars(&chars("abc"), &chars("abd")));
    assert!(!same_chars(&chars("abc"), &chars("ab")));
    assert!(!same_chars(&chars("ab"), &chars("abc")));
    assert!(same_chars(&chars(""), &chars("")));
}

#[test]
fn same_text_is_exact() {
    assert!(same_text("selective", "selective"));
    assert!(!same_text("selective", "Selective"));
    assert!(!same_text("selective", "selective "));
    assert!(same_text("", ""));
}

#[test]
fn contains_text_is_exact() {
    let items = vec!["txt".to_string(), "jpg".to_string()];
    assert!(contains_text(&items, "txt"));
    assert!(contains_text(&items, "jpg"));
    assert!(!contains_text(&items, "TXT"));
    assert!(!contains_text(&items, "tx"));
    assert!(!contains_text(&items, ""));
    assert!(!contains_text(&Vec::new(), "txt"));
    assert!(contains_text(&vec![String::new()], ""));
}

#[test]
fn decimal_numerals() {
    assert_eq!(decimal(0), "0");
    assert_eq!(decimal(7), "7");
    assert_eq!(decimal(10), "10");
    assert_eq!(decimal(1234567890), "1234567890");
    assert_eq!(decimal(u64::MAX), "18446744073709551615");
    let mut out = String::from("n=");
    push_decimal(&mut out, 42);
    assert_eq!(out, "n=42");
    for d in 0..10u8 {
        assert_eq!(digit_text(d), d.to_string());
    }
}

#[test]
fn final_component_of_plain_paths() {
    assert_eq!(final_component("/home/user/docs"), Some("docs".to_string()));
    assert_eq!(final_component("docs"), Some("docs".to_string()));
    assert_eq!(final_component("a/b.txt"), Some("b.txt".to_string()));
    assert_eq!(final_component("/x"), Some("x".to_string()));
}

#[test]
fn final_component_passes_over_separators_and_dots() {
    assert_eq!(final_component("/home/user/docs/"), Some("docs".to_string()));
    assert_eq!(final_component("/home/user/docs///"), Some("docs".to_string()));
    assert_eq!(final_component("/home/user/docs/."), Some("docs".to_string()));
    assert_eq!(final_component("/home/user/docs/./"), Some("docs".to_string()));
    assert_eq!(final_component("./docs"), Some("docs".to_string()));
    assert_eq!(final_component("docs/./."), Some("docs".to_string()));
    assert_eq!(final_component("/a/.hidden"), Some(".hidden".to_string()));
    assert_eq!(final_component("/a/..."), Some("...".to_string()));
}

#[test]
fn final_component_is_missing() {
    assert_eq!(final_component(""), None);
    assert_eq!(final_component("/"), None);
    assert_eq!(final_component("//"), None);
    assert_eq!(final_component("."), None);
    assert_eq!(final_component("./"), None);
    assert_eq!(final_component("/."), None);
    assert_eq!(final_component(".."), None);
    assert_eq!(final_component("/home/.."), None);
    assert_eq!(final_component("/home/../"), None);
    assert_eq!(final_component("/home/../."), None);
}

#[test]
fn final_component_agrees_with_std_on_this_host() {
    let paths = [
        "", "/", "//", ".", "./", "/.", "..", "a", "a/", "a/.", "a/..", "./a", "/a/b", "/a/b/",
        "/a//b//", "/a/./b/.", "a/b/../c", "...", "/a/.b", "a.b/c.d", "/a/b/./",
    ];
    if std::path::MAIN_SEPARATOR == '/' {
        for p in paths {
            let expected = std::path::Path::new(p)
                .file_name()
                .map(|n| n.to_string_lossy().into_owned());
            assert_eq!(final_component(p), expected, "path {:?}", p);
        }
    }
}

#[test]
fn join_puts_one_separator_between() {
    assert_eq!(join("/backup", "docs"), "/backup/docs");
    assert_eq!(join("/backup/", "docs"), "/backup/docs");
    assert_eq!(join("", "docs"), "docs");
    assert_eq!(join("/", "docs"), "/docs");
    assert_eq!(join("rel", "docs"), "rel/docs");
}

#[test]
fn join_agrees_with_std_on_this_host() {
    if std::path::MAIN_SEPARATOR == '/' {
        for base in ["", "/", "/backup", "/backup/", "rel", "rel//"] {
            for name in ["docs", "a.txt", ".hidden"] {
                let expected = std::path::Path::new(base).join(name);
                assert_eq!(join(base, name), expected.to_string_lossy());
            }
        }
    }
}

#[test]
fn destination_is_named_after_the_source() {
    assert_eq!(resolve_destination("/mnt/backup", "/home/user/docs"), "/mnt/backup/docs");
    assert_eq!(resolve_destination("/mnt/backup/", "/home/user/docs/"), "/mnt/backup/docs");
    assert_eq!(resolve_destination("/mnt/backup", "/"), "/mnt/backup");
    assert_eq!(resolve_destination("/mnt/backup", "/home/user/.."), "/mnt/backup");
    assert_eq!(resolve_destination("/mnt/backup", ""), "/mnt/backup");
    assert_eq!(resolve_destination("", "docs"), "docs");
}

#[test]
fn extension_follows_the_last_dot() {
    assert_eq!(extension("a.txt"), Some("txt".to_string()));
    assert_eq!(extension("archive.tar.gz"), Some("gz".to_string()));
    assert_eq!(extension("trailing."), Some(String::new()));
    assert_eq!(extension(".hidden.txt"), Some("txt".to_string()));
    assert_eq!(extension("a.b.c.d"), Some("d".to_string()));
    assert_eq!(extension("..."), Some(String::new()));
}

#[test]
fn extension_is_missing() {
    assert_eq!(extension("Makefile"), None);
    assert_eq!(extension(".bashrc"), None);
    assert_eq!(extension(""), None);
    assert_eq!(extension("."), None);
    assert_eq!(extension(".."), None);
}

#[test]
fn extension_agrees_with_std() {
    let names = [
        "a.txt", "archive.tar.gz", "trailing.", ".hidden.txt", "Makefile", ".bashrc", "", ".",
        "..", "...", "a..b", "x.y.", "\u{e9}.\u{e8}",
    ];
    for name in names {
        let expected = std::path::Path::new(name)
            .extension()
            .map(|e| e.to_string_lossy().into_owned());
        assert_eq!(extension(name), expected, "name {:?}", name);
    }
}

#[test]
fn hidden_names_begin_with_a_dot() {
    assert!(is_hidden(".secret"));
    assert!(is_hidden("."));
    assert!(is_hidden(".."));
    assert!(!is_hidden("a.txt"));
    assert!(!is_hidden("a."));
    assert!(!is_hidden(""));
}

#[test]
fn within_a_root() {
    assert!(is_within(&chars("/sys"), "/sys"));
    assert!(is_within(&chars("/sys/"), "/sys"));
    assert!(is_within(&chars("/sys/kernel/debug"), "/sys"));
    assert!(!is_within(&chars("/system"), "/sys"));
    assert!(!is_within(&chars("/sy"), "/sys"));
    assert!(!is_within(&chars("/home/sys"), "/sys"));
    assert!(!is_within(&chars("sys"), "/sys"));
}

#[test]
fn relative_path_below_a_base() {
    assert_eq!(relative_path("/a/b/c.txt", "/a/b"), Some("c.txt".to_string()));
    assert_eq!(relative_path("/a/b/c/d.txt", "/a/b"), Some("c/d.txt".to_string()));
    assert_eq!(relative_path("/a/b", "/a/b"), Some(String::new()));
    assert_eq!(relative_path("/a/b/", "/a/b"), Some(String::new()));
    assert_eq!(relative_path("/a/b//c", "/a/b"), Some("c".to_string()));
    assert_eq!(relative_path("/a/b/c", "/a/b/"), Some("c".to_string()));
    assert_eq!(relative_path("/a/b/", "/a/b/"), Some(String::new()));
    assert_eq!(relative_path("/etc/hosts", "/"), Some("etc/hosts".to_string()));
    assert_eq!(relative_path("/", "/"), Some(String::new()));
}

#[test]
fn relative_path_is_missing() {
    assert_eq!(relative_path("/a/bc", "/a/b"), None);
    assert_eq!(relative_path("/a", "/a/b"), None);
    assert_eq!(relative_path("/x/b/c", "/a/b"), None);
    assert_eq!(relative_path("a/b", "/a/b"), None);
}

#[test]
fn relative_path_agrees_with_std_on_walked_paths() {
    if std::path::MAIN_SEPARATOR == '/' {
        for base in ["/home/user/docs", "/home/user/docs/", "/", "rel", "rel/"] {
            let root = std::path::Path::new(base);
            let walked = [
                root.to_path_buf(),
                root.join("a.txt"),
                root.join("sub"),
                root.join("sub").join("b.txt"),
                root.join("sub").join("deep").join(".c"),
            ];
            for path in walked {
                let text = path.to_string_lossy().into_owned();
                let expected = path
                    .strip_prefix(root)
                    .ok()
                    .map(|r| r.to_string_lossy().into_owned());
                assert_eq!(relative_path(&text, base), expected, "{:?} below {:?}", text, base);
            }
        }
    }
}

#[test]
fn mirror_below_a_destination() {
    assert_eq!(mirror("/mnt/backup/docs", ""), "/mnt/backup/docs");
    assert_eq!(mirror("/mnt/backup/docs", "a.txt"), "/mnt/backup/docs/a.txt");
    assert_eq!(mirror("/mnt/backup/docs/", "sub/a.txt"), "/mnt/backup/docs/sub/a.txt");
    assert_eq!(mirror("", "a.txt"), "a.txt");
}

/// Every text over `alphabet` of at most `longest` characters.
fn all_texts(alphabet: &[char], longest: usize) -> Vec<String> {
    let mut texts = vec![String::new()];
    let mut last = vec![String::new()];
    for _ in 0..longest {
        let mut next = Vec::new();
        for text in &last {
            for c in alphabet {
                let mut longer = text.clone();
                longer.push(*c);
                next.push(longer);
            }
        }
        texts.extend(next.iter().cloned());
        last = next;
    }
    texts
}

#[test]
fn final_component_agrees_with_std_on_every_short_path() {
    if std::path::MAIN_SEPARATOR == '/' {
        for path in all_texts(&['a', '.', '/'], 7) {
            let expected = std::path::Path::new(&path)
                .file_name()
                .map(|n| n.to_string_lossy().into_owned());
            assert_eq!(final_component(&path), expected, "path {:?}", path);
        }
    }
}

#[test]
fn extension_agrees_with_std_on_every_short_name() {
    for name in all_texts(&['a', 'b', '.'], 7) {
        let expected = std::path::Path::new(&name)
            .extension()
            .map(|e| e.to_string_lossy().into_owned());
        assert_eq!(extension(&name), expected, "name {:?}", name);
    }
}

#[test]
fn destination_agrees_with_std_on_every_short_path() {
    if std::path::MAIN_SEPARATOR == '/' {
        for source in all_texts(&['a', '.', '/'], 5) {
            for root in ["", "/", "/b", "/b/", "b"] {
                let mut expected = std::path::PathBuf::from(root);
                if let Some(name) = std::path::Path::new(&source).file_name() {
                    expected.push(name);
                }
                assert_eq!(
                    resolve_destination(root, &source),
                    expected.to_string_lossy(),
                    "source {:?} below {:?}",
                    source,
                    root
                );
            }
        }
    }
}
