use file_reveal::error::RevealError;
use file_reveal::launch::Launch;
use file_reveal::platform::Platform;

#[test]
fn target_names_find_their_platform() {
    assert_eq!(Platform::from_target_os("windows"), Some(Platform::Windows));
    assert_eq!(Platform::from_target_os("macos"), Some(Platform::MacOs));
    assert_eq!(Platform::from_target_os("linux"), Some(Platform::Linux));
}

#[test]
fn other_names_find_no_platform() {
    let names = [
        "", "freebsd", "android", "ios", "Linux", "WINDOWS", "linu", "linuxx", " linux", "macOS",
        "window", "macoz", "linus", "linüx", "линукс",
    ];
    for name in names {
        assert_eq!(Platform::from_target_os(name), None, "{:?}", name);
    }
}

#[test]
fn each_platform_has_its_program() {
    assert_eq!(Platform::Windows.executable(), "explorer");
    assert_eq!(Platform::MacOs.executable(), "open");
    assert_eq!(Platform::Linux.executable(), "xdg-open");
}

#[test]
fn explorer_gets_the_select_switch_and_the_path() {
    let launch = Launch::select_in_explorer("D:\\photos\\cat.png");
    assert_eq!(launch.program, "explorer");
    assert_eq!(launch.args, vec!["/select,".to_string(), "D:\\photos\\cat.png".to_string()]);
}

#[test]
fn finder_gets_the_reveal_switch_and_the_path() {
    let launch = Launch::reveal_in_finder("/Applications/Safari.app");
    assert_eq!(launch.program, "open");
    assert_eq!(launch.args, vec!["-R".to_string(), "/Applications/Safari.app".to_string()]);
}

#[test]
fn file_manager_gets_the_directory_alone() {
    let launch = Launch::open_directory("/tmp".to_string());
    assert_eq!(launch.program, "xdg-open");
    assert_eq!(launch.args, vec!["/tmp".to_string()]);
}

#[test]
fn errors_have_their_sentences() {
    assert_eq!(RevealError::NotFound.message(), "The specified file does not exist.");
    assert_eq!(RevealError::NoParentDirectory.message(), "File has no parent directory");
}

#[test]
fn spawn_failure_speaks_with_the_system_text() {
    let error = RevealError::SpawnFailed("Permission denied (os error 13)".to_string());
    assert_eq!(error.message(), "Permission denied (os error 13)");
    assert_eq!(RevealError::SpawnFailed(String::new()).message(), "");
}
