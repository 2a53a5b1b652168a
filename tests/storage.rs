use areuok::storage::{get_app_dir, get_data_file_path, get_device_config_path, get_email_config_path};

#[test]
fn record_files_live_in_the_app_dir() {
    let dir = get_app_dir("/home/amy/.config");
    assert_eq!(dir, format!("/home/amy/.config{}areuok", std::path::MAIN_SEPARATOR));
    assert!(get_data_file_path(&dir).ends_with("data.json"));
    assert!(get_email_config_path(&dir).ends_with("email_config.json"));
    assert!(get_device_config_path(&dir).ends_with("device_config.json"));
    assert!(get_device_config_path(&dir).starts_with(&dir));
}

#[test]
fn trailing_separator_is_not_doubled() {
    assert_eq!(get_data_file_path("/var/app/"), "/var/app/data.json");
    assert_eq!(get_data_file_path(""), "data.json");
}

#[test]
fn record_paths_are_distinct_and_repeatable() {
    let dir = get_app_dir("/home/amy/.config");
    let data = get_data_file_path(&dir);
    let email = get_email_config_path(&dir);
    let device = get_device_config_path(&dir);
    assert_ne!(data, email);
    assert_ne!(data, device);
    assert_ne!(email, device);
    assert_eq!(device, get_device_config_path(&dir));
}
