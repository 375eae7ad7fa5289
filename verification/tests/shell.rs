use oopslauncher::commands::notification::notification_icon;
use oopslauncher::commands::shell::{
    open_command_for, open_file_location, open_path, reveal_command_for, LaunchCommand, Platform,
};
use oopslauncher::models::NotificationParams;

fn command(program: &str, args: &[&str]) -> LaunchCommand {
    LaunchCommand {
        program: program.to_string(),
        args: args.iter().map(|a| a.to_string()).collect(),
    }
}

#[test]
fn open_uses_the_default_handler_of_the_platform() {
    assert_eq!(
        open_path("C:\\a b.txt", true, Platform::Windows),
        Ok(command("cmd", &["/C", "start", "", "C:\\a b.txt"]))
    );
    assert_eq!(
        open_path("/Users/a/b.txt", true, Platform::MacOs),
        Ok(command("open", &["/Users/a/b.txt"]))
    );
    assert_eq!(
        open_path("/home/a/b.txt", true, Platform::Unix),
        Ok(command("xdg-open", &["/home/a/b.txt"]))
    );
}

#[test]
fn open_refuses_a_path_that_does_not_exist() {
    for platform in [Platform::Windows, Platform::MacOs, Platform::Unix] {
        assert_eq!(
            open_path("/gone", false, platform),
            Err("path does not exist: /gone".to_string())
        );
        assert_eq!(
            open_file_location("/gone", false, platform),
            Err("path does not exist: /gone".to_string())
        );
    }
}

#[test]
fn reveal_selects_the_file_where_the_file_manager_can() {
    assert_eq!(
        open_file_location("C:\\dir\\a.txt", true, Platform::Windows),
        Ok(command("explorer.exe", &["/select,", "C:\\dir\\a.txt"]))
    );
    assert_eq!(
        open_file_location("/Users/a/b.txt", true, Platform::MacOs),
        Ok(command("open", &["-R", "/Users/a/b.txt"]))
    );
}

#[test]
fn reveal_opens_the_folder_elsewhere() {
    assert_eq!(
        open_file_location("/home/a/b.txt", true, Platform::Unix),
        Ok(command("xdg-open", &["/home/a"]))
    );
    assert_eq!(
        open_file_location("/", true, Platform::Unix),
        Ok(command("xdg-open", &["/"]))
    );
}

#[test]
fn commands_from_their_parts() {
    assert_eq!(open_command_for(Platform::Unix, "/x"), command("xdg-open", &["/x"]));
    assert_eq!(
        reveal_command_for(Platform::Unix, "/x/y", Some("/x".to_string())),
        command("xdg-open", &["/x"])
    );
    assert_eq!(reveal_command_for(Platform::Unix, "/x/y", None), command("xdg-open", &["/x/y"]));
    assert_eq!(
        reveal_command_for(Platform::Windows, "C:\\y", Some("C:\\".to_string())),
        command("explorer.exe", &["/select,", "C:\\y"])
    );
    assert_eq!(
        reveal_command_for(Platform::MacOs, "/y", Some("/".to_string())),
        command("open", &["-R", "/y"])
    );
}

#[test]
fn notification_shows_a_named_icon() {
    let mut params = NotificationParams {
        title: "Done".to_string(),
        body: "Saved".to_string(),
        icon: Some("icon.png".to_string()),
    };
    assert_eq!(notification_icon(&params), Some("icon.png"));
    params.icon = Some(String::new());
    assert_eq!(notification_icon(&params), None);
    params.icon = None;
    assert_eq!(notification_icon(&params), None);
}
