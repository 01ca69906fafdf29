use agent_desktop::app_ops::{app_name_from_command, is_protected_process, open_app_args};

#[test]
fn open_app_args_preserve_current_focus() {
    assert_eq!(open_app_args("Mail"), ["-g", "-a", "Mail"]);
}

#[test]
fn protected_processes_match_display_and_bundle_forms() {
    assert!(is_protected_process("Finder"));
    assert!(is_protected_process("Dock"));
    assert!(is_protected_process("com.apple.dock"));
    assert!(is_protected_process("WindowServer"));
    assert!(is_protected_process("loginwindow"));
}

#[test]
fn ordinary_apps_are_not_protected() {
    assert!(!is_protected_process("TextEdit"));
    assert!(!is_protected_process("Safari"));
    assert!(!is_protected_process("com.company.MyApp"));
}

#[test]
fn protection_ignores_ascii_case() {
    assert!(is_protected_process("finder"));
    assert!(is_protected_process("COM.APPLE.DOCK"));
    assert!(!is_protected_process("Finder "));
}

#[test]
fn app_name_from_command_extracts_app_bundle_name() {
    assert_eq!(
        app_name_from_command("/Applications/Finder.app/Contents/MacOS/Finder").as_deref(),
        Some("Finder")
    );
}

#[test]
fn app_name_from_command_rejects_framework_helpers() {
    assert_eq!(
        app_name_from_command(
            "/Applications/Foo.app/Contents/Frameworks/Foo Helper.app/Contents/MacOS/Foo Helper",
        ),
        None
    );
}

#[test]
fn app_name_from_command_rejects_plugin_helpers() {
    assert_eq!(
        app_name_from_command(
            "/Applications/Foo.app/Contents/PlugIns/Foo Plugin.app/Contents/MacOS/Foo Plugin",
        ),
        None
    );
}

#[test]
fn app_name_from_command_rejects_xpc_services() {
    assert_eq!(
        app_name_from_command("/Applications/Foo.app/Contents/XPCServices/Worker.xpc/Worker"),
        None
    );
}

#[test]
fn app_name_from_command_rejects_app_extensions() {
    assert_eq!(
        app_name_from_command("/Applications/Foo.app/Contents/PlugIns/Share.appex/Share"),
        None
    );
}

#[test]
fn app_name_from_command_rejects_empty_app_name() {
    assert_eq!(app_name_from_command("/Applications/.app/Contents/MacOS/Foo"), None);
}

#[test]
fn app_name_from_command_handles_short_and_plain_commands() {
    assert_eq!(app_name_from_command(""), None);
    assert_eq!(app_name_from_command("/usr/sbin/cfprefsd agent"), None);
    assert_eq!(app_name_from_command("Calc.app/Contents/MacOS/Calc").as_deref(), Some("Calc"));
    assert_eq!(app_name_from_command("/A/Mail.app/Contents/MacO"), None);
}
