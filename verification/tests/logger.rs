use debuglog::logger::{Flag, Logger};

fn assert_timestamp_shape(s: &str) {
    assert_eq!(s.len(), 19);
    for (i, c) in s.chars().enumerate() {
        if i == 8 || i == 15 {
            assert_eq!(c, '_');
        } else {
            assert!(c.is_ascii_digit());
        }
    }
}

#[test]
fn fresh_logger_has_every_flag_down() {
    let l = Logger::new();
    assert!(!l.get(Flag::GlobalEnable));
    assert!(!l.get(Flag::TerminalOutput));
    assert!(!l.get(Flag::TerminalTimestamp));
    assert!(!l.get(Flag::FileOutput));
    assert!(!l.get(Flag::FileTimestamp));
    assert!(!l.get(Flag::FileHistory));
    assert_eq!(l.get_path(), None);
}

#[test]
fn flags_set_before_enable_read_back_after_enable() {
    let mut l = Logger::new();
    l.terminal_output_enable();
    l.file_timestamp_enable();
    l.enable();
    assert!(l.get(Flag::GlobalEnable));
    assert!(l.get(Flag::TerminalOutput));
    assert!(l.get(Flag::FileTimestamp));
    assert!(!l.get(Flag::TerminalTimestamp));
    assert!(!l.get(Flag::FileOutput));
    assert!(!l.get(Flag::FileHistory));
}

#[test]
fn setting_a_flag_twice_is_idempotent() {
    let mut l = Logger::new();
    l.file_output_enable();
    assert!(l.get(Flag::FileOutput));
    l.file_output_enable();
    assert!(l.get(Flag::FileOutput));
    l.set(Flag::TerminalTimestamp);
    l.set(Flag::TerminalTimestamp);
    assert!(l.get(Flag::TerminalTimestamp));
    assert!(!l.get(Flag::GlobalEnable));
}

#[test]
fn stored_path_reads_back() {
    let mut l = Logger::new();
    l.set_path(String::from("/srv/tool"));
    assert_eq!(l.get_path(), Some(String::from("/srv/tool")));
    l.set_path(String::from("/srv/other"));
    assert_eq!(l.get_path(), Some(String::from("/srv/other")));
}

#[test]
fn enable_without_base_path_creates_no_file() {
    let mut l = Logger::new();
    l.file_output_enable();
    let created = l.enable();
    assert_eq!(created, None);
    assert!(l.get(Flag::GlobalEnable));
    let lines = l.log("dropped");
    assert_eq!(lines.file, None);
}

#[test]
fn enable_without_file_output_creates_no_file() {
    let mut l = Logger::new();
    l.set_path(String::from("/tmp/app/myapp"));
    l.terminal_output_enable();
    let created = l.enable();
    assert_eq!(created, None);
}

#[test]
fn enable_derives_the_log_file_path() {
    let mut l = Logger::new();
    l.file_output_enable();
    l.set_path(String::from("/tmp/app/myapp"));
    let created = l.enable();
    assert_eq!(created, Some(String::from("/tmp/app/debug/myapp.log")));
}

#[test]
fn enable_with_nameless_base_path_creates_no_file() {
    let mut l = Logger::new();
    l.file_output_enable();
    l.set_path(String::from("/tmp/app/"));
    assert_eq!(l.enable(), None);
}

#[test]
fn history_naming_prefixes_a_timestamp() {
    let mut l = Logger::new();
    l.file_output_enable();
    l.file_history_enable();
    l.set_path(String::from("/tmp/app/myapp"));
    let created = l.enable().expect("a derivable base path");
    assert!(created.starts_with("/tmp/app/debug/"));
    assert!(created.ends_with("_myapp.log"));
    let name = &created["/tmp/app/debug/".len()..];
    assert_eq!(name.len(), "_myapp.log".len() + 19);
    assert_timestamp_shape(&name[..19]);
}

#[test]
fn logging_before_enable_produces_nothing() {
    let mut l = Logger::new();
    l.terminal_output_enable();
    l.file_output_enable();
    l.set_path(String::from("/tmp/app/myapp"));
    let lines = l.log("early");
    assert_eq!(lines.terminal, None);
    assert_eq!(lines.file, None);
}

#[test]
fn terminal_only_yields_one_plain_terminal_line() {
    let mut l = Logger::new();
    l.terminal_output_enable();
    l.enable();
    let lines = l.log("hello");
    assert_eq!(lines.terminal, Some(String::from("hello")));
    assert_eq!(lines.file, None);
}

#[test]
fn terminal_timestamp_prefixes_the_line() {
    let mut l = Logger::new();
    l.terminal_output_enable();
    l.terminal_timestamp_enable();
    l.enable();
    let line = l.log("hello").terminal.expect("terminal sink is on");
    assert_eq!(line.len(), 19 + 1 + "hello".len());
    assert_timestamp_shape(&line[..19]);
    assert_eq!(&line[19..20], " ");
    assert_eq!(&line[20..], "hello");
}

#[test]
fn file_only_yields_one_plain_file_line() {
    let mut l = Logger::new();
    l.file_output_enable();
    l.set_path(String::from("/tmp/app/myapp"));
    let created = l.enable();
    assert!(created.is_some());
    l.set_file_handle();
    let lines = l.log("to file");
    assert_eq!(lines.file, Some(String::from("to file")));
    assert_eq!(lines.terminal, None);
}

#[test]
fn file_line_needs_an_open_file() {
    let mut l = Logger::new();
    l.file_output_enable();
    l.set_path(String::from("/tmp/app/myapp"));
    l.enable();
    // The host never reported the file as created.
    let lines = l.log("lost");
    assert_eq!(lines.file, None);
}

#[test]
fn both_sinks_fire_for_one_call() {
    let mut l = Logger::new();
    l.terminal_output_enable();
    l.file_output_enable();
    l.set_path(String::from("/tmp/app/myapp"));
    l.enable();
    l.set_file_handle();
    let lines = l.log("both");
    assert_eq!(lines.terminal, Some(String::from("both")));
    assert_eq!(lines.file, Some(String::from("both")));
}

#[test]
fn file_timestamp_scenario_renders_each_call() {
    let mut l = Logger::new();
    l.file_output_enable();
    l.file_timestamp_enable();
    l.set_path(String::from("/tmp/app/myapp"));
    let created = l.enable();
    assert_eq!(created, Some(String::from("/tmp/app/debug/myapp.log")));
    l.set_file_handle();
    let first = l.log("hello").file.expect("file sink is on");
    let second = l.log("world 2").file.expect("file sink is on");
    assert_timestamp_shape(&first[..19]);
    assert_eq!(&first[19..20], " ");
    assert_eq!(&first[20..], "hello");
    assert_timestamp_shape(&second[..19]);
    assert_eq!(&second[19..20], " ");
    assert_eq!(&second[20..], "world 2");
    assert!(first[..19] <= second[..19]);
}
