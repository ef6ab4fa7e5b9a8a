use std::collections::BTreeMap;

use file_assoc::session::{try_main, Args, AssocError, Blame, Event, IoKind, Op};

/// An in-memory registry and environment block, answering the operations
/// that a command asks for.
struct Fake {
    keys: BTreeMap<String, String>,
    pathext: Option<String>,
    launcher: String,
    launcher_exists: bool,
    deny_key: Option<String>,
    deny_pathext_write: bool,
    printed: Vec<String>,
    pathext_writes: usize,
    pathext_reads: usize,
}

impl Fake {
    fn new(pathext: &str) -> Fake {
        Fake {
            keys: BTreeMap::new(),
            pathext: Some(pathext.to_string()),
            launcher: r"\\?\C:\tools\run-cargo-script.exe".to_string(),
            launcher_exists: true,
            deny_key: None,
            deny_pathext_write: false,
            printed: Vec::new(),
            pathext_writes: 0,
            pathext_reads: 0,
        }
    }

    fn create(&mut self, key: &str, data: &str) {
        let parts: Vec<&str> = key.split('\\').collect();
        for i in 1..parts.len() {
            self.keys.entry(parts[..i].join("\\")).or_insert_with(String::new);
        }
        self.keys.insert(key.to_string(), data.to_string());
    }

    fn run(&mut self, args: Args) -> Result<i32, AssocError> {
        self.printed.clear();
        let (mut session, mut step) = try_main(args);
        loop {
            self.printed.extend(step.print.iter().cloned());
            let ev = match step.op {
                Op::Exit { result } => return result,
                Op::LocateLauncher => Event::Launcher {
                    path: self.launcher.clone(),
                    exists: self.launcher_exists,
                },
                Op::SetDefault { key, data } => {
                    if self.deny_key.as_deref() == Some(key.as_str()) {
                        Event::Failed { kind: IoKind::PermissionDenied, detail: "denied".to_string() }
                    } else {
                        self.create(&key, &data);
                        Event::Done
                    }
                },
                Op::DeleteKey { key } => {
                    if self.deny_key.as_deref() == Some(key.as_str()) {
                        Event::Failed { kind: IoKind::PermissionDenied, detail: "denied".to_string() }
                    } else if self.keys.remove(&key).is_some() {
                        Event::Done
                    } else {
                        Event::Failed { kind: IoKind::NotFound, detail: "missing".to_string() }
                    }
                },
                Op::ReadPathext => {
                    self.pathext_reads += 1;
                    match &self.pathext {
                        Some(v) => Event::Pathext { value: v.clone() },
                        None => Event::Failed { kind: IoKind::Other, detail: "no key".to_string() },
                    }
                },
                Op::WritePathext { value } => {
                    if self.deny_pathext_write {
                        Event::Failed { kind: IoKind::PermissionDenied, detail: "denied".to_string() }
                    } else {
                        self.pathext_writes += 1;
                        self.pathext = Some(value);
                        Event::Done
                    }
                },
            };
            assert!(session.awaits(&ev));
            let (s, st) = session.next(ev);
            session = s;
            step = st;
        }
    }
}

fn ok_code(r: Result<i32, AssocError>) -> i32 {
    match r {
        Ok(c) => c,
        Err(e) => panic!("unexpected error {:?}", e),
    }
}

#[test]
fn install_registers_record_and_amends_pathext() {
    let mut f = Fake::new(".COM;.EXE");
    assert_eq!(ok_code(f.run(Args::Install { amend_pathext: true })), 0);
    assert_eq!(f.keys.get(".crs").map(|s| s.as_str()), Some("CargoScript.Crs"));
    assert_eq!(f.keys.get("CargoScript.Crs").map(|s| s.as_str()), Some("Cargo Script"));
    assert_eq!(
        f.keys.get(r"CargoScript.Crs\shell\open\command").map(|s| s.as_str()),
        Some(r#""C:\tools\run-cargo-script.exe" "%1" %*"#)
    );
    assert_eq!(f.pathext.as_deref(), Some(".COM;.EXE;.CRS"));
    assert_eq!(
        f.printed,
        vec![
            "Created run-cargo-script registry entry.".to_string(),
            r"- Handler set to: C:\tools\run-cargo-script.exe".to_string(),
            "Added `.crs` to PATHEXT.  You may need to log out for the change to take effect."
                .to_string(),
        ]
    );
}

#[test]
fn install_without_amend_leaves_pathext_unread() {
    let mut f = Fake::new(".COM");
    assert_eq!(ok_code(f.run(Args::Install { amend_pathext: false })), 0);
    assert_eq!(f.pathext_reads, 0);
    assert_eq!(f.pathext.as_deref(), Some(".COM"));
    assert_eq!(f.printed.len(), 2);
}

#[test]
fn install_twice_same_state() {
    let mut f = Fake::new(".COM;.EXE");
    ok_code(f.run(Args::Install { amend_pathext: true }));
    let keys_once = f.keys.clone();
    let pathext_once = f.pathext.clone();
    ok_code(f.run(Args::Install { amend_pathext: true }));
    assert_eq!(f.keys, keys_once);
    assert_eq!(f.pathext, pathext_once);
    assert_eq!(f.pathext_writes, 1);
}

#[test]
fn uninstall_twice_reports_absent_and_succeeds() {
    let mut f = Fake::new(".COM;.EXE");
    ok_code(f.run(Args::Install { amend_pathext: true }));
    assert_eq!(ok_code(f.run(Args::Uninstall)), 0);
    let keys_once = f.keys.clone();
    assert_eq!(f.printed[0], "Deleted run-cargo-script registry entry.");
    assert_eq!(ok_code(f.run(Args::Uninstall)), 0);
    assert_eq!(f.keys, keys_once);
    assert_eq!(
        f.printed,
        vec![
            "Ignored some missing registry entries.".to_string(),
            "Deleted run-cargo-script registry entry.".to_string(),
        ]
    );
}

#[test]
fn install_then_uninstall_restores_pathext() {
    let mut f = Fake::new(".com;.Exe;.BAT");
    ok_code(f.run(Args::Install { amend_pathext: true }));
    ok_code(f.run(Args::Uninstall));
    assert_eq!(f.pathext.as_deref(), Some(".com;.Exe;.BAT"));
    assert!(!f.keys.contains_key("CargoScript.Crs"));
    assert!(!f.keys.contains_key(".crs"));
    assert!(f.keys.is_empty());
    assert_eq!(
        f.printed.last().map(|s| s.as_str()),
        Some("Removed `.crs` from PATHEXT.  You may need to log out for the change to take effect.")
    );
}

#[test]
fn install_finds_token_already_present() {
    let mut f = Fake::new(".COM;.CRS");
    ok_code(f.run(Args::Install { amend_pathext: true }));
    assert_eq!(f.pathext_writes, 0);
    assert_eq!(f.pathext.as_deref(), Some(".COM;.CRS"));
}

#[test]
fn uninstall_removes_lower_case_token() {
    let mut f = Fake::new(".COM;.crs");
    ok_code(f.run(Args::Uninstall));
    assert_eq!(f.pathext.as_deref(), Some(".COM"));
}

#[test]
fn uninstall_with_only_leaf_key() {
    let mut f = Fake::new(".COM");
    f.keys.insert(r"CargoScript.Crs\shell\open\command".to_string(), String::new());
    assert_eq!(ok_code(f.run(Args::Uninstall)), 0);
    assert!(f.keys.is_empty());
    assert_eq!(
        f.printed,
        vec![
            "Ignored some missing registry entries.".to_string(),
            "Deleted run-cargo-script registry entry.".to_string(),
        ]
    );
    assert_eq!(f.pathext_writes, 0);
}

#[test]
fn permission_denied_on_prog_id_stops_install() {
    let mut f = Fake::new(".COM");
    f.deny_key = Some("CargoScript.Crs".to_string());
    let r = f.run(Args::Install { amend_pathext: true });
    match r {
        Err(e) => {
            assert!(matches!(e, AssocError::AccessDenied { .. }));
            assert_eq!(e.blame(), Blame::Human);
        },
        Ok(_) => panic!("install should fail"),
    }
    assert_eq!(
        f.printed,
        vec!["Access denied.  Make sure you run this command from an administrator prompt."
            .to_string()]
    );
    assert_eq!(f.pathext_reads, 0);
    assert_eq!(f.pathext.as_deref(), Some(".COM"));
    assert!(f.keys.contains_key(".crs"));
    assert!(!f.keys.contains_key("CargoScript.Crs"));
}

#[test]
fn missing_launcher_fails_install() {
    let mut f = Fake::new(".COM");
    f.launcher_exists = false;
    match f.run(Args::Install { amend_pathext: true }) {
        Err(AssocError::LauncherMissing { path }) => {
            assert_eq!(path, r"\\?\C:\tools\run-cargo-script.exe")
        },
        _ => panic!("install should fail"),
    }
    assert!(f.keys.is_empty());
    assert!(f.printed.is_empty());
}

#[test]
fn unreadable_pathext_fails_uninstall() {
    let mut f = Fake::new(".COM");
    f.pathext = None;
    match f.run(Args::Uninstall) {
        Err(e) => {
            assert!(matches!(e, AssocError::Io { kind: IoKind::Other, .. }));
            assert_eq!(e.blame(), Blame::Internal);
        },
        Ok(_) => panic!("uninstall should fail"),
    }
}

#[test]
fn subcommand_names_map_to_args() {
    assert_eq!(Args::from_parts("install", true), Some(Args::Install { amend_pathext: true }));
    assert_eq!(Args::from_parts("uninstall", false), Some(Args::Uninstall));
    assert_eq!(Args::from_parts("remove", false), None);
}

#[test]
fn finished_session_awaits_nothing() {
    let (session, step) = try_main(Args::Install { amend_pathext: false });
    assert!(matches!(step.op, Op::LocateLauncher));
    assert!(!session.awaits(&Event::Done));
    let (done, _) = session.next(Event::Launcher { path: "x".to_string(), exists: false });
    assert!(!done.awaits(&Event::Done));
}

fn assert_denied(r: Result<i32, AssocError>, f: &Fake) {
    match r {
        Err(e) => {
            assert!(matches!(e, AssocError::AccessDenied { .. }));
            assert_eq!(e.blame(), Blame::Human);
        },
        Ok(_) => panic!("command should fail"),
    }
    assert_eq!(
        f.printed.last().map(|s| s.as_str()),
        Some("Access denied.  Make sure you run this command from an administrator prompt.")
    );
}

#[test]
fn permission_denied_on_delete_stops_uninstall() {
    let mut f = Fake::new(".COM;.CRS");
    ok_code(f.run(Args::Install { amend_pathext: false }));
    f.deny_key = Some(r"CargoScript.Crs\shell".to_string());
    let r = f.run(Args::Uninstall);
    assert_denied(r, &f);
    assert_eq!(f.printed.len(), 1);
    assert!(f.keys.contains_key(r"CargoScript.Crs\shell"));
    assert!(f.keys.contains_key(".crs"));
    assert_eq!(f.pathext_reads, 0);
    assert_eq!(f.pathext.as_deref(), Some(".COM;.CRS"));
}

#[test]
fn permission_denied_on_pathext_write_install() {
    let mut f = Fake::new(".COM");
    f.deny_pathext_write = true;
    let r = f.run(Args::Install { amend_pathext: true });
    assert_denied(r, &f);
    assert_eq!(f.pathext.as_deref(), Some(".COM"));
    assert!(f.keys.contains_key(".crs"));
}

#[test]
fn permission_denied_on_pathext_write_uninstall() {
    let mut f = Fake::new(".COM;.crs");
    f.deny_pathext_write = true;
    let r = f.run(Args::Uninstall);
    assert_denied(r, &f);
    assert_eq!(f.pathext.as_deref(), Some(".COM;.crs"));
}

#[test]
fn uninstall_removes_extension_mapping() {
    let mut f = Fake::new(".COM");
    f.keys.insert(".crs".to_string(), "CargoScript.Crs".to_string());
    assert_eq!(ok_code(f.run(Args::Uninstall)), 0);
    assert!(f.keys.is_empty());
    assert_eq!(f.printed[0], "Ignored some missing registry entries.");
}
