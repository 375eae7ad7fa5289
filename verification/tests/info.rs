use oopslauncher::commands::info::{
    common_extensions_list, describe_file, describe_named, display_name, display_name_from,
    get_file_info, keeps_content_of, text_extensions_list, wants_content, FileFacts, FileMetadata,
    CONTENT_LIMIT,
};
use oopslauncher::models::FileInfo;

fn regular(len: u64) -> FileMetadata {
    FileMetadata { is_file: true, len }
}

fn facts(len: u64, text: Option<&str>) -> FileFacts {
    FileFacts {
        exists: true,
        metadata: Ok(regular(len)),
        icon: Ok("data:image/png;base64,AAAA".to_string()),
        text: text.map(|t| t.to_string()),
    }
}

#[test]
fn common_extension_is_left_out_of_the_shown_name() {
    assert_eq!(display_name("notes.txt"), "notes");
    assert_eq!(display_name("setup.exe"), "setup");
    assert_eq!(display_name("archive.tar.md"), "archive.tar");
    assert_eq!(display_name("README.MD"), "README");
    assert_eq!(display_name("Main.Rs"), "Main");
}

#[test]
fn other_names_are_shown_whole() {
    assert_eq!(display_name("photo.png"), "photo.png");
    assert_eq!(display_name("Makefile"), "Makefile");
    assert_eq!(display_name("notes.txt.bak"), "notes.txt.bak");
    assert_eq!(display_name("trailing."), "trailing.");
    assert_eq!(display_name(""), "");
    assert_eq!(display_name("App.lnk"), "App.lnk");
}

#[test]
fn name_that_is_only_an_extension_is_shown_empty() {
    assert_eq!(display_name(".txt"), "");
}

#[test]
fn shown_name_counts_characters_not_bytes() {
    assert_eq!(display_name("r\u{e9}sum\u{e9}.txt"), "r\u{e9}sum\u{e9}");
    assert_eq!(display_name("\u{6587}\u{4ef6}.json"), "\u{6587}\u{4ef6}");
}

#[test]
fn shown_name_from_its_parts() {
    assert_eq!(display_name_from("a.txt", Some(1), &"txt".to_string()), "a");
    assert_eq!(display_name_from("a.txt", Some(1), &"TXT".to_string()), "a.txt");
    assert_eq!(display_name_from("a.txt", Some(1), &"png".to_string()), "a.txt");
    assert_eq!(display_name_from("a.txt", None, &"txt".to_string()), "a.txt");
    assert_eq!(display_name_from("a.txt", Some(5), &"txt".to_string()), "a.txt");
    assert_eq!(display_name_from("a.txt", Some(9), &"txt".to_string()), "a.txt");
}

#[test]
fn extension_lists_are_as_documented() {
    assert_eq!(text_extensions_list().len(), 19);
    assert_eq!(common_extensions_list().len(), 20);
    assert!(common_extensions_list().contains(&"exe"));
    assert!(!text_extensions_list().contains(&"exe"));
    for extension in text_extensions_list() {
        assert!(common_extensions_list().contains(&extension));
    }
}

#[test]
fn text_is_kept_only_below_the_limit() {
    let txt = "txt".to_string();
    assert_eq!(CONTENT_LIMIT, 1024 * 1024);
    assert!(keeps_content_of(&regular(0), &txt));
    assert!(keeps_content_of(&regular(CONTENT_LIMIT - 1), &txt));
    assert!(!keeps_content_of(&regular(CONTENT_LIMIT), &txt));
    assert!(!keeps_content_of(&regular(u64::MAX), &txt));
}

#[test]
fn text_is_kept_only_for_text_files() {
    assert!(keeps_content_of(&regular(5), &"toml".to_string()));
    assert!(!keeps_content_of(&regular(5), &"exe".to_string()));
    assert!(!keeps_content_of(&regular(5), &"TXT".to_string()));
    assert!(!keeps_content_of(&regular(5), &"".to_string()));
    assert!(!keeps_content_of(&FileMetadata { is_file: false, len: 5 }, &"txt".to_string()));
}

#[test]
fn host_is_asked_for_text_by_extension_whatever_its_case() {
    assert!(wants_content("/home/a/notes.TXT", &regular(5)));
    assert!(wants_content("/home/a/notes.yaml", &regular(5)));
    assert!(!wants_content("/home/a/notes", &regular(5)));
    assert!(!wants_content("/home/a/notes.png", &regular(5)));
    assert!(!wants_content("/home/a/notes.txt", &regular(CONTENT_LIMIT)));
    assert!(!wants_content("/home/a.txt/", &FileMetadata { is_file: false, len: 5 }));
}

#[test]
fn description_of_a_text_file() {
    let file = get_file_info("/home/user/Notes.TXT".to_string(), facts(12, Some("hello world\n")));
    assert_eq!(
        file,
        Ok(FileInfo {
            id: String::new(),
            name: "Notes.TXT".to_string(),
            display_name: "Notes".to_string(),
            path: "/home/user/Notes.TXT".to_string(),
            size: 12,
            file_type: "txt".to_string(),
            icon: "data:image/png;base64,AAAA".to_string(),
            content: Some("hello world\n".to_string()),
            category: None,
            open_count: None,
            created_at: None,
        })
    );
}

#[test]
fn description_of_a_program_has_no_text() {
    let file = get_file_info("/opt/app/run.exe".to_string(), facts(12, Some("MZ"))).unwrap();
    assert_eq!(file.name, "run.exe");
    assert_eq!(file.display_name, "run");
    assert_eq!(file.file_type, "exe");
    assert_eq!(file.content, None);
}

#[test]
fn description_without_extension() {
    let file = get_file_info("/usr/bin/env".to_string(), facts(12, Some("x"))).unwrap();
    assert_eq!(file.name, "env");
    assert_eq!(file.display_name, "env");
    assert_eq!(file.file_type, "");
    assert_eq!(file.content, None);
}

#[test]
fn large_text_file_has_no_text() {
    let file =
        get_file_info("/a/big.txt".to_string(), facts(CONTENT_LIMIT, Some("too much"))).unwrap();
    assert_eq!(file.size, CONTENT_LIMIT);
    assert_eq!(file.content, None);
}

#[test]
fn text_that_was_not_read_is_no_failure() {
    let file = get_file_info("/a/small.txt".to_string(), facts(3, None)).unwrap();
    assert_eq!(file.content, None);
}

#[test]
fn missing_icon_is_an_empty_icon() {
    let mut given = facts(3, None);
    given.icon = Err("the shell gave none".to_string());
    let file = get_file_info("/a/small.txt".to_string(), given).unwrap();
    assert_eq!(file.icon, "");
}

#[test]
fn missing_file_is_refused_by_name() {
    let mut given = facts(3, None);
    given.exists = false;
    assert_eq!(
        get_file_info("/a/gone.txt".to_string(), given),
        Err("File not found: /a/gone.txt".to_string())
    );
}

#[test]
fn unreadable_metadata_are_reported() {
    let mut given = facts(3, None);
    given.metadata = Err("permission denied".to_string());
    assert_eq!(get_file_info("/a/b.txt".to_string(), given), Err("permission denied".to_string()));
}

#[test]
fn path_without_file_name_is_refused() {
    assert_eq!(
        get_file_info("/".to_string(), facts(3, None)),
        Err("Invalid file name".to_string())
    );
    assert_eq!(
        get_file_info("/a/..".to_string(), facts(3, None)),
        Err("Invalid file name".to_string())
    );
}

#[test]
fn description_from_its_parts() {
    let file = describe_file(
        "/p/Name.Json".to_string(),
        "Name.Json".to_string(),
        "json".to_string(),
        &regular(7),
        Err("none".to_string()),
        Some("{}".to_string()),
    );
    assert_eq!(file.display_name, "Name");
    assert_eq!(file.file_type, "json");
    assert_eq!(file.icon, "");
    assert_eq!(file.content, Some("{}".to_string()));
    assert_eq!(file.size, 7);
    assert_eq!((file.category, file.open_count, file.created_at), (None, None, None));
}

#[test]
fn type_of_a_file_is_its_extension_in_lower_case() {
    let file =
        get_file_info("/d/Report.Final.MD".to_string(), facts(5, Some("# hi\n"))).unwrap();
    assert_eq!(
        file,
        FileInfo {
            id: String::new(),
            name: "Report.Final.MD".to_string(),
            display_name: "Report.Final".to_string(),
            path: "/d/Report.Final.MD".to_string(),
            size: 5,
            file_type: "md".to_string(),
            icon: "data:image/png;base64,AAAA".to_string(),
            content: Some("# hi\n".to_string()),
            category: None,
            open_count: None,
            created_at: None,
        }
    );
    let file = get_file_info("/d/Setup.EXE".to_string(), facts(5, None)).unwrap();
    assert_eq!(file.file_type, "exe");
}

#[test]
fn description_from_what_the_platform_reads() {
    let file = describe_named(
        "/d/Report.Final.MD".to_string(),
        Some("Report.Final.MD".to_string()),
        "md".to_string(),
        facts(5, Some("# hi\n")),
    )
    .unwrap();
    assert_eq!(file.name, "Report.Final.MD");
    assert_eq!(file.display_name, "Report.Final");
    assert_eq!(file.file_type, "md");
    assert_eq!(file.content, Some("# hi\n".to_string()));
    assert_eq!(
        describe_named("/".to_string(), None, String::new(), facts(5, None)),
        Err("Invalid file name".to_string())
    );
}

#[test]
fn refusals_come_in_their_order() {
    let mut gone = facts(5, None);
    gone.exists = false;
    gone.metadata = Err("no metadata".to_string());
    assert_eq!(
        describe_named("/x".to_string(), None, String::new(), gone),
        Err("File not found: /x".to_string())
    );
    let mut unreadable = facts(5, None);
    unreadable.metadata = Err("no metadata".to_string());
    assert_eq!(
        describe_named("/x".to_string(), None, String::new(), unreadable),
        Err("no metadata".to_string())
    );
}
