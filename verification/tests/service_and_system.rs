use file_explorer::file_abstraction_layer::{
    accept_service_pid, app_cache_dir, initial_service_record, launch_step, launch_succeeded,
    needs_elevation, parse_pid, path_exists, pid_file_path, pid_file_text,
    service_executable_path, ElevatedCheck, LaunchAction, LaunchEvent, ServiceRecord,
};
use file_explorer::file_ops::MetadataOutcome;
use file_explorer::os_info::{classify_os_release_line, distro_name, needs_os_release, OsReleaseLine};
use file_explorer::root_ops::{pipe_core_to_service_path, pipe_service_to_core_path};
use file_explorer::service::{bool_reply, service_step, ServiceAction, ServiceEvent, ServiceState};

#[test]
fn cache_and_pid_paths() {
    assert_eq!(app_cache_dir("ana"), "/home/ana/.cache/com.anis.file_explorer/");
    assert_eq!(
        pid_file_path("/home/ana/.cache/com.anis.file_explorer/"),
        "/home/ana/.cache/com.anis.file_explorer/PID.txt"
    );
    assert_eq!(service_executable_path("/opt/app", '/'), "/opt/app/service");
}

#[test]
fn pipe_paths() {
    assert_eq!(pipe_core_to_service_path("/tmp/x"), "/tmp/x/pipe_core_to_service\0");
    assert_eq!(pipe_service_to_core_path("/tmp/x"), "/tmp/x/pipe_service_to_core\0");
}

#[test]
fn launch_exit_codes() {
    assert!(launch_succeeded(Some(0)));
    assert!(!launch_succeeded(Some(1)));
    assert!(!launch_succeeded(Some(-1)));
    assert!(!launch_succeeded(None));
}

#[test]
fn parse_pid_cases() {
    assert_eq!(parse_pid("1234\n"), 1234);
    assert_eq!(parse_pid("  42 \r\nrest"), 42);
    assert_eq!(parse_pid("77"), 77);
    assert_eq!(parse_pid(""), 0);
    assert_eq!(parse_pid("\n5"), 0);
    assert_eq!(parse_pid("abc"), 0);
    assert_eq!(parse_pid("1 2"), 0);
    assert_eq!(parse_pid("-7"), -7);
    assert_eq!(parse_pid("+8"), 8);
    assert_eq!(parse_pid("+"), 0);
    assert_eq!(parse_pid("-"), 0);
    assert_eq!(parse_pid("2147483647"), 2147483647);
    assert_eq!(parse_pid("2147483648"), 0);
    assert_eq!(parse_pid("-2147483648"), -2147483648);
    assert_eq!(parse_pid("-2147483649"), 0);
    assert_eq!(parse_pid("99999999999999999999"), 0);
    assert_eq!(parse_pid("\u{3000}12\u{2003}"), 12);
    assert_eq!(parse_pid("007"), 7);
}

#[test]
fn accept_pid_rejects_zero() {
    assert_eq!(accept_service_pid("4321\n"), Some(4321));
    assert_eq!(accept_service_pid("0\n"), None);
    assert_eq!(accept_service_pid(""), None);
}

#[test]
fn pid_text_round_trip() {
    assert_eq!(pid_file_text(0), "0\n");
    assert_eq!(pid_file_text(7), "7\n");
    assert_eq!(pid_file_text(12345), "12345\n");
    assert_eq!(pid_file_text(u32::MAX), "4294967295\n");
    for p in [1u32, 9, 10, 99, 100, 65535, 2147483647] {
        assert_eq!(parse_pid(&pid_file_text(p)), p as i32);
    }
    assert_eq!(parse_pid(&pid_file_text(2147483648)), 0);
}

#[test]
fn elevation_decisions() {
    assert!(!needs_elevation((true, false)));
    assert!(needs_elevation((false, true)));
    assert!(path_exists((true, false), ElevatedCheck::NotLaunched));
    assert!(!path_exists((false, false), ElevatedCheck::Answered));
    assert!(path_exists((false, true), ElevatedCheck::Answered));
    assert!(!path_exists((false, true), ElevatedCheck::NotLaunched));
}

#[test]
fn os_release_needed_on_linux_only() {
    assert!(needs_os_release("linux"));
    assert!(!needs_os_release("macos"));
    assert!(!needs_os_release("Linux"));
}

fn name_of(line: &str) -> Option<String> {
    match classify_os_release_line(line) {
        OsReleaseLine::Name(n) => Some(n),
        _ => None,
    }
}

#[test]
fn os_release_lines() {
    assert_eq!(name_of("NAME=\"Ubuntu\""), Some("Ubuntu".to_string()));
    assert_eq!(name_of("NAME=\"Arch Linux\""), Some("ArchLinux".to_string()));
    assert_eq!(name_of("  NAME = \"Fedora Linux\"  "), Some("FedoraLinux".to_string()));
    assert_eq!(name_of("NAME=\"Élan\""), Some("Élan".to_string()));
    assert_eq!(name_of("NAME=\"\""), Some(String::new()));
    assert!(matches!(classify_os_release_line("PRETTY_NAME=\"Ubuntu 22.04\""), OsReleaseLine::Other));
    assert!(matches!(classify_os_release_line("NAME=\"Ubuntu"), OsReleaseLine::Other));
    assert!(matches!(classify_os_release_line("NAME=Ubuntu"), OsReleaseLine::Other));
    assert!(matches!(classify_os_release_line("ID=x"), OsReleaseLine::Unreadable));
    assert!(matches!(classify_os_release_line(""), OsReleaseLine::Unreadable));
    assert!(matches!(classify_os_release_line("NAME=\""), OsReleaseLine::Unreadable));
    assert!(matches!(classify_os_release_line("aaaaaé"), OsReleaseLine::Unreadable));
    assert!(matches!(classify_os_release_line("aaaaéz"), OsReleaseLine::Other));
}

#[test]
fn bool_replies() {
    assert_eq!(bool_reply(true), "true");
    assert_eq!(bool_reply(false), "false");
}

#[test]
fn service_path_exists_round() {
    let (s, a) = service_step(
        ServiceState::AwaitingCommand,
        ServiceEvent::CommandRead(Some("path_exists".to_string())),
    );
    assert!(matches!(a, ServiceAction::ReadLine));
    assert!(matches!(s, ServiceState::AwaitingArgument { .. }));
    let (s, a) = service_step(s, ServiceEvent::ArgumentRead(true));
    match a {
        ServiceAction::CheckPath(p) => assert_eq!(p, "path_exists"),
        _ => panic!("expected a path check"),
    }
    assert!(matches!(s, ServiceState::CheckingPath));
    let (s, a) = service_step(s, ServiceEvent::MetadataRead(MetadataOutcome::PermissionDenied));
    match a {
        ServiceAction::Reply(t) => assert_eq!(t, "false"),
        _ => panic!("expected a reply"),
    }
    assert!(matches!(s, ServiceState::AwaitingCommand));
    let (_, a) = service_step(ServiceState::CheckingPath, ServiceEvent::MetadataRead(MetadataOutcome::Found));
    match a {
        ServiceAction::Reply(t) => assert_eq!(t, "true"),
        _ => panic!("expected a reply"),
    }
}

#[test]
fn service_other_events() {
    let (s, a) = service_step(
        ServiceState::AwaitingCommand,
        ServiceEvent::CommandRead(Some("list".to_string())),
    );
    assert!(matches!(s, ServiceState::AwaitingCommand));
    assert!(matches!(a, ServiceAction::ReportInvalidCommand));
    let (s, a) = service_step(ServiceState::AwaitingCommand, ServiceEvent::CommandRead(None));
    assert!(matches!(s, ServiceState::AwaitingCommand));
    assert!(matches!(a, ServiceAction::ReadLine));
    let (s, a) = service_step(
        ServiceState::AwaitingArgument { command: "path_exists".to_string() },
        ServiceEvent::ArgumentRead(false),
    );
    assert!(matches!(s, ServiceState::AwaitingCommand));
    assert!(matches!(a, ServiceAction::ReadLine));
}

fn lines(texts: &[&str]) -> Vec<String> {
    texts.iter().map(|t| t.to_string()).collect()
}

#[test]
fn distro_name_from_lines() {
    let os_release = lines(&[
        "PRETTY_NAME=\"Arch Linux\"",
        "NAME=\"Arch Linux\"",
        "ID=arch",
    ]);
    assert_eq!(distro_name(&os_release), Some("ArchLinux".to_string()));
    assert_eq!(
        distro_name(&lines(&["VERSION=\"22.04\"", "NAME=\"Ubuntu\"", "NAME=\"Other\""])),
        Some("Ubuntu".to_string())
    );
}

#[test]
fn distro_name_without_name_line() {
    assert_eq!(distro_name(&lines(&[])), Some(String::new()));
    assert_eq!(
        distro_name(&lines(&["VERSION=\"22.04\"", "PRETTY_NAME=\"x\""])),
        Some(String::new())
    );
}

#[test]
fn distro_name_unreadable_line_first() {
    assert_eq!(distro_name(&lines(&["VERSION=\"1\"", "", "NAME=\"Ubuntu\""])), None);
    assert_eq!(distro_name(&lines(&["NAME=\""])), None);
    assert_eq!(distro_name(&lines(&["NAME=\"Ubuntu\"", ""])), Some("Ubuntu".to_string()));
}

#[test]
fn launch_steps() {
    let start = initial_service_record();
    assert_eq!(start, ServiceRecord { running: false, pid: 0 });
    assert_eq!(launch_step(start, LaunchEvent::LauncherExited(Some(126))), (start, LaunchAction::GiveUp));
    assert_eq!(launch_step(start, LaunchEvent::LauncherExited(None)), (start, LaunchAction::GiveUp));
    let (running, action) = launch_step(start, LaunchEvent::LauncherExited(Some(0)));
    assert_eq!(running, ServiceRecord { running: true, pid: 0 });
    assert_eq!(action, LaunchAction::ConnectPipes);
    assert_eq!(launch_step(running, LaunchEvent::PipesFailed), (running, LaunchAction::GiveUp));
    assert_eq!(
        launch_step(running, LaunchEvent::PidFileRead("0\n".to_string())),
        (running, LaunchAction::GiveUp)
    );
    assert_eq!(
        launch_step(running, LaunchEvent::PidFileRead("abc".to_string())),
        (running, LaunchAction::GiveUp)
    );
    assert_eq!(
        launch_step(running, LaunchEvent::PidFileRead(" 4242 \nrest".to_string())),
        (ServiceRecord { running: true, pid: 4242 }, LaunchAction::Launched)
    );
}
