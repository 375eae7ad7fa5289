use oopslauncher::utils::{
    abs_path_from, check_requested_path, choose_shortcut_target, find_last,
    has_shortcut_extension, is_one_of, is_shortcut, is_white_space, requested_path,
    resolve_shortcut, strip_long_path_marker, to_abs_path, trim_text, PathProbe, ShortcutLookup,
};

fn probe(cwd: Result<&str, &str>, canonical: Option<&str>) -> PathProbe {
    PathProbe {
        cwd: cwd.map(|c| c.to_string()).map_err(|e| e.to_string()),
        canonical: canonical.map(|c| c.to_string()),
    }
}

#[test]
fn absolute_path_stands_for_itself() {
    assert_eq!(
        to_abs_path("/usr/bin/env", &probe(Ok("/home"), None)),
        Ok("/usr/bin/env".to_string())
    );
    assert_eq!(
        to_abs_path("/usr/bin/env", &probe(Err("no cwd"), None)),
        Ok("/usr/bin/env".to_string())
    );
}

#[test]
fn relative_path_is_joined_to_the_working_directory() {
    assert_eq!(
        to_abs_path("docs/a.txt", &probe(Ok("/home/user"), None)),
        Ok("/home/user/docs/a.txt".to_string())
    );
    assert_eq!(
        to_abs_path("./a.txt", &probe(Ok("/home/user"), None)),
        Ok("/home/user/./a.txt".to_string())
    );
}

#[test]
fn canonical_form_wins() {
    assert_eq!(
        to_abs_path("a/../b", &probe(Ok("/home"), Some("/home/b"))),
        Ok("/home/b".to_string())
    );
    assert_eq!(
        to_abs_path("/link", &probe(Err("no cwd"), Some("/target"))),
        Ok("/target".to_string())
    );
}

#[test]
fn relative_path_without_working_directory_fails() {
    assert_eq!(
        to_abs_path("a.txt", &probe(Err("cwd was removed"), None)),
        Err("cwd was removed".to_string())
    );
    assert_eq!(
        to_abs_path("a.txt", &probe(Err("cwd was removed"), Some("/x/a.txt"))),
        Err("cwd was removed".to_string())
    );
}

#[test]
fn long_path_marker_is_removed_from_the_result() {
    assert_eq!(
        to_abs_path("a", &probe(Ok("/"), Some("\\\\?\\C:\\Users\\a"))),
        Ok("C:\\Users\\a".to_string())
    );
}

#[test]
fn network_share_keeps_its_two_backslashes() {
    assert_eq!(
        to_abs_path("f.txt", &probe(Ok("Z:\\"), Some("\\\\?\\UNC\\server\\share\\f.txt"))),
        Ok("\\\\server\\share\\f.txt".to_string())
    );
    assert_eq!(
        strip_long_path_marker("\\\\?\\UNC\\server\\share\\f.txt".to_string()),
        "\\\\server\\share\\f.txt"
    );
    assert_eq!(strip_long_path_marker("\\\\?\\UNC\\".to_string()), "\\\\");
    assert_eq!(
        strip_long_path_marker("\\\\?\\UNC\\\u{e9}t\u{e9}\\s".to_string()),
        "\\\\\u{e9}t\u{e9}\\s"
    );
}

#[test]
fn only_the_share_marker_counts_as_one() {
    assert_eq!(strip_long_path_marker("\\\\?\\UNC".to_string()), "UNC");
    assert_eq!(strip_long_path_marker("\\\\?\\UNCLE\\a".to_string()), "UNCLE\\a");
    assert_eq!(strip_long_path_marker("\\\\?\\unc\\s\\a".to_string()), "unc\\s\\a");
    assert_eq!(
        strip_long_path_marker("\\\\server\\share\\f.txt".to_string()),
        "\\\\server\\share\\f.txt"
    );
}

#[test]
fn path_freed_of_its_marker_is_left_as_it_is() {
    for path in ["\\\\?\\UNC\\server\\share\\f.txt", "\\\\?\\C:\\a", "/home/a", "C:\\a"] {
        let once = strip_long_path_marker(path.to_string());
        assert_eq!(strip_long_path_marker(once.clone()), once);
    }
}

#[test]
fn long_path_marker_is_removed_once() {
    assert_eq!(strip_long_path_marker("\\\\?\\C:\\a".to_string()), "C:\\a");
    assert_eq!(strip_long_path_marker("\\\\?\\\\\\?\\C:\\a".to_string()), "\\\\?\\C:\\a");
    assert_eq!(strip_long_path_marker("\\\\?\\".to_string()), "");
    assert_eq!(strip_long_path_marker("\\\\?".to_string()), "\\\\?");
    assert_eq!(strip_long_path_marker("C:\\\\?\\a".to_string()), "C:\\\\?\\a");
    assert_eq!(strip_long_path_marker("/home/\u{e9}t\u{e9}".to_string()), "/home/\u{e9}t\u{e9}");
    assert_eq!(strip_long_path_marker("\\\\?\\\u{e9}t\u{e9}".to_string()), "\u{e9}t\u{e9}");
    assert_eq!(strip_long_path_marker(String::new()), "");
}

#[test]
fn requested_path_is_trimmed() {
    assert_eq!(requested_path("  /a b \n"), Ok("/a b".to_string()));
    assert_eq!(requested_path("/a"), Ok("/a".to_string()));
}

#[test]
fn empty_request_is_refused() {
    assert_eq!(requested_path(""), Err("path is empty".to_string()));
    assert_eq!(requested_path(" \t\n"), Err("path is empty".to_string()));
    assert_eq!(check_requested_path(String::new()), Err("path is empty".to_string()));
    assert_eq!(check_requested_path(" ".to_string()), Ok(" ".to_string()));
}

#[test]
fn shortcut_is_known_by_its_extension() {
    assert!(is_shortcut("C:\\Users\\a\\Desktop\\App.lnk"));
    assert!(is_shortcut("App.LNK"));
    assert!(is_shortcut(".Lnk"));
    assert!(!is_shortcut("App.lnk.txt"));
    assert!(!is_shortcut("lnk"));
    assert!(!is_shortcut(""));
    assert!(has_shortcut_extension("a.lnk"));
    assert!(!has_shortcut_extension("a.LNK"));
    assert!(!has_shortcut_extension("alnk"));
}

#[test]
fn shortcut_is_followed_to_a_target_that_exists() {
    let found = ShortcutLookup { output: "C:\\Program Files\\App\\app.exe\r\n".to_string(), target_exists: true };
    assert_eq!(resolve_shortcut("C:\\a.lnk", Some(&found)), "C:\\Program Files\\App\\app.exe");
}

#[test]
fn shortcut_stands_for_itself_without_a_target() {
    let missing = ShortcutLookup { output: "C:\\gone.exe\n".to_string(), target_exists: false };
    assert_eq!(resolve_shortcut("C:\\a.lnk", Some(&missing)), "C:\\a.lnk");
    let silent = ShortcutLookup { output: " \r\n".to_string(), target_exists: true };
    assert_eq!(resolve_shortcut("C:\\a.lnk", Some(&silent)), "C:\\a.lnk");
    assert_eq!(resolve_shortcut("/home/a.txt", None), "/home/a.txt");
    assert_eq!(choose_shortcut_target("p", "t".to_string(), true), "t");
    assert_eq!(choose_shortcut_target("p", "t".to_string(), false), "p");
    assert_eq!(choose_shortcut_target("p", String::new(), true), "p");
}

#[test]
fn last_occurrence_is_found() {
    assert_eq!(find_last("a.b.c", '.'), Some(3));
    assert_eq!(find_last(".abc", '.'), Some(0));
    assert_eq!(find_last("abc.", '.'), Some(3));
    assert_eq!(find_last("abc", '.'), None);
    assert_eq!(find_last("", '.'), None);
    assert_eq!(find_last("\u{e9}.\u{e9}", '.'), Some(1));
}

#[test]
fn list_membership_is_exact() {
    let list = vec!["txt", "md"];
    assert!(is_one_of(&list, &"md".to_string()));
    assert!(!is_one_of(&list, &"MD".to_string()));
    assert!(!is_one_of(&list, &"".to_string()));
    assert!(!is_one_of(&Vec::new(), &"md".to_string()));
}

#[test]
fn white_space_around_a_text_is_removed() {
    assert_eq!(trim_text("  a b \t\r\n"), "a b");
    assert_eq!(trim_text("a"), "a");
    assert_eq!(trim_text(" a"), "a");
    assert_eq!(trim_text("a "), "a");
    assert_eq!(trim_text(""), "");
    assert_eq!(trim_text(" \n\t "), "");
    assert_eq!(trim_text("\u{a0}\u{2003}x y\u{3000}\u{85}"), "x y");
    assert_eq!(trim_text("\u{200b}x\u{200b}"), "\u{200b}x\u{200b}");
}

#[test]
fn trimming_agrees_with_the_standard_library() {
    for text in [
        "",
        " ",
        "x",
        "  x  ",
        "\t\tx y\n",
        "\u{1680}x\u{2028}\u{2029}",
        "\u{feff}x",
        "\u{e9} \u{e9}",
        " \u{6587}\u{4ef6} ",
        "\u{b} \u{c}x\u{1c}",
    ] {
        assert_eq!(trim_text(text), text.trim());
    }
}

#[test]
fn white_space_is_what_the_standard_library_calls_so() {
    for code in 0..=0x10ffffu32 {
        if let Some(c) = char::from_u32(code) {
            assert_eq!(is_white_space(c), c.is_whitespace());
        }
    }
    assert!(is_white_space(' '));
    assert!(is_white_space('\u{3000}'));
    assert!(!is_white_space('\u{200b}'));
    assert!(!is_white_space('a'));
}

#[test]
fn request_of_spaces_only_is_refused() {
    assert_eq!(requested_path("   "), Err("path is empty".to_string()));
}

#[test]
fn absolute_path_that_does_not_exist_comes_back_as_given() {
    assert_eq!(
        to_abs_path(
            "/no/such/dir/a.txt",
            &PathProbe { cwd: Ok("/home/user".to_string()), canonical: None }
        ),
        Ok("/no/such/dir/a.txt".to_string())
    );
    assert_eq!(
        abs_path_from("/no/such/dir/a.txt", true, Ok("/no/such/dir/a.txt".to_string()), None),
        Ok("/no/such/dir/a.txt".to_string())
    );
    assert_eq!(
        abs_path_from("/no/such/dir/a.txt", true, Err("no cwd".to_string()), None),
        Ok("/no/such/dir/a.txt".to_string())
    );
}

#[test]
fn absolute_path_from_the_platforms_answers() {
    assert_eq!(
        abs_path_from("a.txt", false, Ok("/cwd/a.txt".to_string()), None),
        Ok("/cwd/a.txt".to_string())
    );
    assert_eq!(
        abs_path_from("a.txt", false, Ok("/cwd/a.txt".to_string()), Some("/real/a.txt".to_string())),
        Ok("/real/a.txt".to_string())
    );
    assert_eq!(
        abs_path_from("a.txt", false, Err("no cwd".to_string()), Some("/real/a.txt".to_string())),
        Err("no cwd".to_string())
    );
    assert_eq!(
        abs_path_from("a.txt", false, Err("no cwd".to_string()), None),
        Err("no cwd".to_string())
    );
    assert_eq!(
        abs_path_from("C:\\a", true, Err("no cwd".to_string()), Some("\\\\?\\C:\\a".to_string())),
        Ok("C:\\a".to_string())
    );
    assert_eq!(
        abs_path_from("\\\\?\\C:\\a", true, Ok("ignored".to_string()), None),
        Ok("C:\\a".to_string())
    );
}

#[test]
fn only_a_shortcut_is_followed() {
    let found = ShortcutLookup { output: "C:\\app.exe\n".to_string(), target_exists: true };
    assert_eq!(resolve_shortcut("C:\\notes.txt", Some(&found)), "C:\\notes.txt");
    assert_eq!(resolve_shortcut("C:\\notes.LNK", Some(&found)), "C:\\app.exe");
}
