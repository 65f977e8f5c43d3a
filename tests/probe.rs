use xcode_discord_rpc::probe::{check_xcode, current_file, current_project, window_title};

#[test]
fn running_answer_is_read() {
    assert!(check_xcode("true\n"));
    assert!(check_xcode("  true \n"));
    assert!(!check_xcode("false\n"));
    assert!(!check_xcode(""));
    assert!(!check_xcode("truely"));
}

#[test]
fn title_with_separator_gives_file() {
    assert_eq!(current_file("MyApp \u{2014} main.swift"), "main.swift");
}

#[test]
fn title_without_separator_is_unchanged() {
    assert_eq!(current_file("main.swift"), "main.swift");
    assert_eq!(current_file("Welcome to Xcode"), "Welcome to Xcode");
    assert_eq!(current_file(""), "");
    assert_eq!(current_file("a - b.swift"), "a - b.swift");
}

#[test]
fn title_uses_last_separator() {
    assert_eq!(current_file("MyApp \u{2014} Sources \u{2014} View.swift"), "View.swift");
    assert_eq!(current_file("MyApp \u{2014} "), "");
}

#[test]
fn missing_project_is_empty() {
    assert_eq!(current_project("missing value\n"), "");
    assert_eq!(current_project("  missing value  "), "");
}

#[test]
fn workspace_label_is_stripped() {
    assert_eq!(current_project("workspace document Foo.xcodeproj\n"), "Foo.xcodeproj");
    assert_eq!(current_project("workspace document "), "workspace document");
    assert_eq!(current_project("workspace document  X"), " X");
}

#[test]
fn plain_project_is_trimmed() {
    assert_eq!(current_project("Bar\n"), "Bar");
    assert_eq!(current_project("my workspace document X"), "my workspace document X");
}

#[test]
fn window_title_drops_line_end() {
    assert_eq!(window_title("MyApp \u{2014} main.swift\n"), "MyApp \u{2014} main.swift");
    assert_eq!(window_title("main.swift"), "main.swift");
    assert_eq!(window_title("a \n\n"), "a \n");
    assert_eq!(window_title(""), "");
    assert_eq!(current_file(&window_title("MyApp \u{2014} main.swift\n")), "main.swift");
}

#[test]
fn unicode_whitespace_is_trimmed() {
    assert!(check_xcode("\u{3000}\u{A0}true\u{2029}\t"));
    assert_eq!(current_project("\u{2003}Bar\u{85}"), "Bar");
}
