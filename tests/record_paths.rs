use file_assoc::assoc::{command_for, delete_key_text, ext_token_text, handler_path, write_data_text, write_key_text};

#[test]
fn handler_path_strips_extended_prefix() {
    assert_eq!(
        handler_path(r"\\?\C:\tools\run-cargo-script.exe"),
        r"C:\tools\run-cargo-script.exe"
    );
}

#[test]
fn handler_path_keeps_plain_path() {
    assert_eq!(handler_path(r"C:\tools\run-cargo-script.exe"), r"C:\tools\run-cargo-script.exe");
    assert_eq!(handler_path(r"\\server\share\r.exe"), r"\\server\share\r.exe");
    assert_eq!(handler_path(""), "");
}

#[test]
fn command_quotes_launcher_and_script() {
    assert_eq!(command_for(r"C:\t\run.exe"), r#""C:\t\run.exe" "%1" %*"#);
}

#[test]
fn record_writes_in_order() {
    assert_eq!(write_key_text(0), ".crs");
    assert_eq!(write_data_text(0, "x"), "CargoScript.Crs");
    assert_eq!(write_key_text(1), "CargoScript.Crs");
    assert_eq!(write_data_text(1, "x"), "Cargo Script");
    assert_eq!(write_key_text(2), r"CargoScript.Crs\shell\open\command");
    assert_eq!(write_data_text(2, r"C:\r.exe"), r#""C:\r.exe" "%1" %*"#);
}

#[test]
fn record_deletes_leaf_first() {
    assert_eq!(delete_key_text(0), r"CargoScript.Crs\shell\open\command");
    assert_eq!(delete_key_text(1), r"CargoScript.Crs\shell\open");
    assert_eq!(delete_key_text(2), r"CargoScript.Crs\shell");
    assert_eq!(delete_key_text(3), "CargoScript.Crs");
    assert_eq!(delete_key_text(4), ".crs");
    assert_eq!(ext_token_text(), ".CRS");
}
