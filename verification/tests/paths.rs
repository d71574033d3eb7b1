use arsa_backend::paths::{
    get_addons_path, get_ars_path, get_config_json_path, get_config_path, get_crash_log_path,
    get_log_path, get_logs_path, get_profile_path, get_profiles_path, get_server_path,
    servers_dir_name, LogType,
};

const ID: u128 = 0xf30b8424_28d6_4b0a_9348_9f05327fa886;
const ID_TEXT: &str = "f30b8424-28d6-4b0a-9348-9f05327fa886";

#[test]
fn server_directories() {
    assert_eq!(get_server_path(ID), vec![ID_TEXT]);
    assert_eq!(get_config_path(ID), vec![ID_TEXT, "config"]);
    assert_eq!(get_config_json_path(ID), vec![ID_TEXT, "config", "config.json"]);
    assert_eq!(get_profiles_path(ID), vec![ID_TEXT, "profiles"]);
    assert_eq!(get_profile_path(ID), vec![ID_TEXT, "profiles", "profile"]);
    assert_eq!(get_addons_path(ID), vec![ID_TEXT, "profiles", "addons"]);
    assert_eq!(get_log_path(ID), vec![ID_TEXT, "profiles", "logs"]);
    assert_eq!(get_crash_log_path(ID), vec![ID_TEXT, "profiles", "logs", "CrashReports.log"]);
}

#[test]
fn logs_path_variants() {
    assert_eq!(get_logs_path(ID, None, None), vec![ID_TEXT, "profiles", "logs"]);
    assert_eq!(get_logs_path(ID, None, Some(LogType::Error)), vec![ID_TEXT, "profiles", "logs"]);
    assert_eq!(
        get_logs_path(ID, Some("x".to_string()), None),
        vec![ID_TEXT, "profiles", "logs", "x"]
    );
    assert_eq!(
        get_logs_path(ID, Some("x".to_string()), Some(LogType::Crash)),
        vec![ID_TEXT, "profiles", "logs", "x", "crash.log"]
    );
}

#[test]
fn log_type_file_names() {
    assert_eq!(LogType::Console.file_name(), "console.log");
    assert_eq!(LogType::Error.file_name(), "error.log");
    assert_eq!(LogType::Script.file_name(), "script.log");
    assert_eq!(LogType::Crash.file_name(), "crash.log");
}

#[test]
fn base_directories() {
    assert_eq!(get_ars_path(None), "./ars");
    assert_eq!(get_ars_path(Some("/srv/ars".to_string())), "/srv/ars");
    assert_eq!(servers_dir_name(), "servers");
}
