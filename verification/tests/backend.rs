use fsbridge::commands::{parse_command, command_name, Command};
use fsbridge::sysinfo::get_system_info;

#[test]
fn parse_known_commands() {
    assert_eq!(parse_command("get_system_info"), Some(Command::GetSystemInfo));
    assert_eq!(parse_command("file_exists"), Some(Command::FileExists));
    assert_eq!(parse_command("read_file"), Some(Command::ReadFile));
    assert_eq!(parse_command("write_file"), Some(Command::WriteFile));
}

#[test]
fn parse_rejects_unknown_names() {
    assert_eq!(parse_command(""), None);
    assert_eq!(parse_command("open_file"), None);
    assert_eq!(parse_command("READ_FILE"), None);
    assert_eq!(parse_command("read_file "), None);
    assert_eq!(parse_command(" read_file"), None);
    assert_eq!(parse_command("read_files"), None);
}

#[test]
fn command_names_round_trip() {
    let commands = [
        Command::GetSystemInfo,
        Command::FileExists,
        Command::ReadFile,
        Command::WriteFile,
    ];
    for c in commands {
        assert_eq!(parse_command(command_name(c)), Some(c));
    }
}

#[test]
fn command_names_are_distinct() {
    let names = [
        command_name(Command::GetSystemInfo),
        command_name(Command::FileExists),
        command_name(Command::ReadFile),
        command_name(Command::WriteFile),
    ];
    for i in 0..names.len() {
        for j in 0..names.len() {
            if i != j {
                assert_ne!(names[i], names[j]);
            }
        }
    }
}

#[test]
fn system_info_exact_line() {
    assert_eq!(
        get_system_info("linux", "x86_64", "unix"),
        "OS: linux, Architecture: x86_64, OS Family: unix"
    );
}

#[test]
fn system_info_empty_fields() {
    assert_eq!(get_system_info("", "", ""), "OS: , Architecture: , OS Family: ");
}

#[test]
fn system_info_three_labelled_segments() {
    let line = get_system_info("windows", "aarch64", "windows");
    let parts: Vec<&str> = line.split(", ").collect();
    assert_eq!(parts.len(), 3);
    assert!(parts[0].starts_with("OS: "));
    assert!(parts[1].starts_with("Architecture: "));
    assert!(parts[2].starts_with("OS Family: "));
    assert_eq!(parts[0], "OS: windows");
    assert_eq!(parts[1], "Architecture: aarch64");
    assert_eq!(parts[2], "OS Family: windows");
}

#[test]
fn system_info_stable_across_calls() {
    let first = get_system_info("macos", "aarch64", "unix");
    let second = get_system_info("macos", "aarch64", "unix");
    assert_eq!(first, second);
}
