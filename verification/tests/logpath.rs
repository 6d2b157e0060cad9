use debuglog::logpath::derive_log_path;

#[test]
fn absolute_base_path_yields_sibling_debug_directory() {
    let r = derive_log_path("/tmp/app/myapp", "");
    assert_eq!(r, Some(String::from("/tmp/app/debug/myapp.log")));
}

#[test]
fn prefix_lands_between_directory_and_file_name() {
    let r = derive_log_path("/tmp/app/myapp", "20090123_233130_987_");
    assert_eq!(r, Some(String::from("/tmp/app/debug/20090123_233130_987_myapp.log")));
}

#[test]
fn bare_file_name_yields_relative_debug_directory() {
    assert_eq!(derive_log_path("myapp", ""), Some(String::from("debug/myapp.log")));
}

#[test]
fn file_name_at_the_root_keeps_the_root() {
    assert_eq!(derive_log_path("/myapp", ""), Some(String::from("/debug/myapp.log")));
}

#[test]
fn empty_base_path_yields_nothing() {
    assert_eq!(derive_log_path("", ""), None);
    assert_eq!(derive_log_path("", "prefix_"), None);
}

#[test]
fn base_path_without_file_name_yields_nothing() {
    assert_eq!(derive_log_path("/tmp/app/", ""), None);
    assert_eq!(derive_log_path("/", ""), None);
}
