use ada_lib::paths::{
    daemon_dir, daemon_log_path, data_dir, data_dir_in, home_dir, home_dir_in, join, log_dir,
    pid_path, port_path, runtime_settings_path, session_dir, sessions_dir,
};

#[test]
fn test_dev_vs_prod_paths() {
    // Just ensure they differ
    let dev_data = data_dir(true);
    let prod_data = data_dir(false);
    assert_ne!(dev_data, prod_data);

    let dev_home = home_dir(true);
    let prod_home = home_dir(false);
    assert_ne!(dev_home, prod_home);
}

#[test]
fn join_inserts_one_separator() {
    assert_eq!(join("/a/b", "c"), "/a/b/c");
    assert_eq!(join("/a/b/", "c"), "/a/b/c");
    assert_eq!(join("", "c"), "c");
}

#[test]
fn daemon_file_layout() {
    let data = data_dir_in("/home/u/.local/share", false);
    assert_eq!(data, "/home/u/.local/share/ada");
    assert_eq!(data_dir_in("/d", true), "/d/ada-dev");
    let daemon = daemon_dir(&data);
    assert_eq!(pid_path(&daemon), "/home/u/.local/share/ada/daemon/pid");
    assert_eq!(port_path(&daemon), "/home/u/.local/share/ada/daemon/port");
    assert_eq!(session_dir(&sessions_dir(&data), "t1"), "/home/u/.local/share/ada/sessions/t1");
}

#[test]
fn home_file_layout() {
    let home = home_dir_in("/home/u", false);
    assert_eq!(home, "/home/u/.ada");
    assert_eq!(home_dir_in("/home/u", true), "/home/u/.ada-dev");
    assert_eq!(daemon_log_path(&log_dir(&home)), "/home/u/.ada/logs/ada-daemon.log");
    assert_eq!(runtime_settings_path(&home), "/home/u/.ada/config/runtime.json");
}
