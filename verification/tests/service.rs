use marcontroller::service::{
    applescript_elevation_script, compare_normalized_paths, compare_service_executable_paths,
    elevation_tool_name, escape_applescript_string, extract_execstart_path_from_unit_file,
    extract_registered_windows_exe_path, launchd_registered_exe, launchd_service_status,
    normalize_resolved_path, openrc_service_status, plan_service_command_from_ui,
    powershell_elevation_command, run_service_command_with_privileges, run_service_dispatcher,
    service_backend, service_install_args_for_config, service_label, service_label_str,
    service_privilege_mode, service_query_name, systemd_fragment_path, systemd_service_status,
    validate_service_ui_subcommand, windows_registered_exe, windows_service_status, Platform,
    ServiceAction, ServiceBackend, ServiceError, ServiceExecutableMatch, ServicePrivilegeMode,
    ServiceUiPlan, SystemServiceStatus,
};

#[test]
fn labels_and_query_names() {
    assert_eq!(service_label_str(Platform::Windows), "MARCOntroller");
    assert_eq!(service_label_str(Platform::Linux), "marcontroller");
    assert_eq!(service_query_name(Platform::Windows), "MARCOntroller");
    assert_eq!(service_query_name(Platform::Linux), "marcontroller.service");
    assert_eq!(service_query_name(Platform::MacOs), "system/marcontroller");
}

#[test]
fn service_label_parses() {
    let l = service_label(Platform::Linux).unwrap();
    assert_eq!(l.qualifier, None);
    assert_eq!(l.organization, None);
    assert_eq!(l.application, "marcontroller");
    let w = service_label(Platform::Windows).unwrap();
    assert_eq!(w.application, "MARCOntroller");
}

#[test]
fn install_arguments() {
    assert_eq!(
        service_install_args_for_config("/etc/marc/config.toml"),
        vec!["--config".to_owned(), "/etc/marc/config.toml".to_owned(), "service".to_owned()]
    );
}

#[test]
fn windows_status_from_sc_query() {
    let running = "SERVICE_NAME: MARCOntroller\n        STATE              : 4  RUNNING\n";
    assert_eq!(windows_service_status(running, ""), SystemServiceStatus::Running);
    assert_eq!(
        windows_service_status("", "[SC] EnumQueryServicesStatus:OpenService FAILED 1060:"),
        SystemServiceStatus::NotInstalled
    );
    assert_eq!(
        windows_service_status("El servicio especificado no existe", ""),
        SystemServiceStatus::NotInstalled
    );
    assert_eq!(windows_service_status("STATE : 2 START_PENDING", ""), SystemServiceStatus::StartPending);
    assert_eq!(windows_service_status("state : 1 stopped", ""), SystemServiceStatus::Stopped);
    assert_eq!(windows_service_status("", ""), SystemServiceStatus::Error);
}

#[test]
fn systemd_status_from_show() {
    assert_eq!(
        systemd_service_status("LoadState=not-found\nActiveState=inactive\n", ""),
        Some(SystemServiceStatus::NotInstalled)
    );
    assert_eq!(
        systemd_service_status("LoadState=loaded\nActiveState=active\n", ""),
        Some(SystemServiceStatus::Running)
    );
    assert_eq!(
        systemd_service_status("ActiveState=activating", ""),
        Some(SystemServiceStatus::StartPending)
    );
    assert_eq!(systemd_service_status("ActiveState=failed", ""), Some(SystemServiceStatus::Stopped));
    assert_eq!(
        systemd_service_status("ActiveState=deactivating", ""),
        Some(SystemServiceStatus::Stopped)
    );
    assert_eq!(systemd_service_status("", ""), None);
}

#[test]
fn openrc_status() {
    assert_eq!(openrc_service_status(true, false), SystemServiceStatus::Running);
    assert_eq!(openrc_service_status(false, true), SystemServiceStatus::Stopped);
    assert_eq!(openrc_service_status(false, false), SystemServiceStatus::NotInstalled);
}

#[test]
fn launchd_status_from_print() {
    assert_eq!(
        launchd_service_status("", "Could not find service \"marcontroller\" in domain"),
        SystemServiceStatus::NotInstalled
    );
    assert_eq!(launchd_service_status("\tstate = running\n", ""), SystemServiceStatus::Running);
    assert_eq!(launchd_service_status("\tstate = waiting\n", ""), SystemServiceStatus::Stopped);
    assert_eq!(launchd_service_status("\tpid = 412\n", ""), SystemServiceStatus::Stopped);
    assert_eq!(launchd_service_status("", ""), SystemServiceStatus::Error);
}

#[test]
fn windows_exe_from_command_line() {
    assert_eq!(
        extract_registered_windows_exe_path("\"C:\\Program Files\\marc.exe\" --config x service"),
        Some("C:\\Program Files\\marc.exe".to_owned())
    );
    assert_eq!(
        extract_registered_windows_exe_path("C:\\tools\\MARC.EXE service"),
        Some("C:\\tools\\MARC.EXE".to_owned())
    );
    assert_eq!(extract_registered_windows_exe_path("\"unterminated"), None);
    assert_eq!(extract_registered_windows_exe_path("no executable here"), None);
}

#[test]
fn windows_exe_from_sc_qc() {
    let out = "[SC] QueryServiceConfig SUCCESS\n\nSERVICE_NAME: MARCOntroller\n        TYPE               : 10  WIN32_OWN_PROCESS\n        BINARY_PATH_NAME   : \"C:\\a b\\marc.exe\" service\n";
    assert_eq!(windows_registered_exe(out, ""), Some("C:\\a b\\marc.exe".to_owned()));
    let es = "        NOMBRE_RUTA_BINARIO: C:\\x\\m.exe service\n";
    assert_eq!(windows_registered_exe(es, ""), Some("C:\\x\\m.exe".to_owned()));
    assert_eq!(windows_registered_exe("nothing", "useful"), None);
}

#[test]
fn systemd_unit_path_and_exec_start() {
    assert_eq!(
        systemd_fragment_path("FragmentPath=/etc/systemd/system/marcontroller.service\n"),
        Some("/etc/systemd/system/marcontroller.service".to_owned())
    );
    assert_eq!(systemd_fragment_path("FragmentPath=\n"), None);
    assert_eq!(systemd_fragment_path("Other=1\n"), None);
    let unit = "[Unit]\nDescription=x\n\n[Service]\n  ExecStart=/usr/bin/marc --config /etc/c.toml service\n";
    assert_eq!(extract_execstart_path_from_unit_file(unit), Some("/usr/bin/marc".to_owned()));
    let quoted = "ExecStart=\"/opt/my app/marc\" service\n";
    assert_eq!(extract_execstart_path_from_unit_file(quoted), Some("/opt/my app/marc".to_owned()));
    assert_eq!(extract_execstart_path_from_unit_file("ExecStart=\"/broken\n"), None);
    assert_eq!(extract_execstart_path_from_unit_file("[Unit]\n"), None);
}

#[test]
fn launchd_program_path() {
    let out = "system/marcontroller = {\n\tactive count = 0\n\tprogram = /usr/local/bin/marc\n}\n";
    assert_eq!(launchd_registered_exe(out), Some("/usr/local/bin/marc".to_owned()));
    assert_eq!(launchd_registered_exe("nothing"), None);
}

#[test]
fn path_normalisation_and_comparison() {
    let w: String = normalize_resolved_path(Platform::Windows, "C:/Tools/Marc.EXE", None).into_iter().collect();
    assert_eq!(w, "c:\\tools\\marc.exe");
    let l: String = normalize_resolved_path(Platform::Linux, "/a/B", Some("/real/B")).into_iter().collect();
    assert_eq!(l, "/real/B");
    let a: Vec<char> = "x".chars().collect();
    let b: Vec<char> = "y".chars().collect();
    assert_eq!(compare_normalized_paths(Some(&a), Some(&a)), ServiceExecutableMatch::Same);
    assert_eq!(compare_normalized_paths(Some(&a), Some(&b)), ServiceExecutableMatch::Different);
    assert_eq!(compare_normalized_paths(None, Some(&b)), ServiceExecutableMatch::Unknown);
}

#[test]
fn executable_comparison_needs_both_paths() {
    assert_eq!(
        compare_service_executable_paths(Platform::Linux, None, Some("/x"), None, None),
        ServiceExecutableMatch::Unknown
    );
    assert_eq!(
        compare_service_executable_paths(Platform::Linux, Some("/x"), None, Some("/x"), None),
        ServiceExecutableMatch::Unknown
    );
    assert_eq!(
        compare_service_executable_paths(Platform::Linux, Some("/no/such/a"), Some("/no/such/a"), None, None),
        ServiceExecutableMatch::Same
    );
    assert_eq!(
        compare_service_executable_paths(Platform::Linux, Some("/no/such/a"), Some("/no/such/b"), None, None),
        ServiceExecutableMatch::Different
    );
    assert_eq!(
        compare_service_executable_paths(
            Platform::Windows,
            Some("C:/No/Such.exe"),
            Some("c:\\no\\such.EXE"),
            None,
            None
        ),
        ServiceExecutableMatch::Same
    );
}

#[test]
fn executable_comparison_uses_resolved_forms() {
    assert_eq!(
        compare_service_executable_paths(
            Platform::Linux,
            Some("/usr/bin/marc"),
            Some("/opt/marc/marc"),
            Some("/opt/marc/marc"),
            None
        ),
        ServiceExecutableMatch::Same
    );
    assert_eq!(
        compare_service_executable_paths(
            Platform::Linux,
            Some("/usr/bin/marc"),
            Some("/usr/bin/marc"),
            Some("/opt/marc/marc"),
            Some("/opt/other/marc")
        ),
        ServiceExecutableMatch::Different
    );
    assert_eq!(
        compare_service_executable_paths(
            Platform::Windows,
            Some("C:\\x.exe"),
            Some("D:\\y.exe"),
            Some("C:/Tools/MARC.exe"),
            Some("c:\\tools\\marc.EXE")
        ),
        ServiceExecutableMatch::Same
    );
}

#[test]
fn backends_and_privileges() {
    assert_eq!(service_backend(Platform::Windows, false, false, false), ServiceBackend::WindowsService);
    assert_eq!(service_backend(Platform::MacOs, false, false, false), ServiceBackend::Launchd);
    assert_eq!(service_backend(Platform::Linux, true, true, true), ServiceBackend::Systemd);
    assert_eq!(service_backend(Platform::Linux, false, true, false), ServiceBackend::OpenRc);
    assert_eq!(service_backend(Platform::Linux, false, false, true), ServiceBackend::OpenRc);
    assert_eq!(service_backend(Platform::Linux, false, false, false), ServiceBackend::Unknown);
    assert_eq!(service_privilege_mode(Platform::Windows, false), ServicePrivilegeMode::Uac);
    assert_eq!(service_privilege_mode(Platform::Linux, true), ServicePrivilegeMode::Pkexec);
    assert_eq!(service_privilege_mode(Platform::Linux, false), ServicePrivilegeMode::Unsupported);
    assert_eq!(service_privilege_mode(Platform::MacOs, true), ServicePrivilegeMode::AppleScriptAdmin);
    assert_eq!(service_privilege_mode(Platform::Other, true), ServicePrivilegeMode::Unsupported);
    assert_eq!(elevation_tool_name(Platform::Linux), Some("pkexec"));
    assert_eq!(elevation_tool_name(Platform::MacOs), Some("osascript"));
    assert_eq!(elevation_tool_name(Platform::Windows), None);
}

#[test]
fn ui_subcommands() {
    assert_eq!(validate_service_ui_subcommand("service-install"), Ok(ServiceAction::Install));
    assert_eq!(validate_service_ui_subcommand("service-uninstall"), Ok(ServiceAction::Uninstall));
    let e = validate_service_ui_subcommand("service-restart").unwrap_err();
    assert_eq!(e, ServiceError::UnknownUiCommand { command: "service-restart".to_owned() });
    assert_eq!(e.message(), "unknown service UI command: service-restart");
}

#[test]
fn escapes() {
    assert_eq!(escape_applescript_string("a\\b\"c"), "a\\\\b\\\"c");
    assert_eq!(
        powershell_elevation_command("C:\\O'Brien\\m.exe", "service-start"),
        "Start-Process -Verb RunAs -FilePath 'C:\\O''Brien\\m.exe' -ArgumentList 'service-start' -Wait"
    );
    assert_eq!(
        applescript_elevation_script("/bin/m", "/c \"x\".toml", "service-stop"),
        "do shell script quoted form of \"/bin/m\" & \" \" & quoted form of \"--config\" & \" \" & quoted form of \"/c \\\"x\\\".toml\" & \" \" & quoted form of \"service-stop\" with administrator privileges"
    );
}

#[test]
fn ui_plans() {
    let p = plan_service_command_from_ui(Platform::Linux, "service-start", true, ServicePrivilegeMode::Unsupported, "/m", "/c");
    assert!(matches!(p, Ok(ServiceUiPlan::Direct(ServiceAction::Start))));
    let p = plan_service_command_from_ui(Platform::Linux, "service-start", false, ServicePrivilegeMode::Pkexec, "/m", "/c");
    match p {
        Ok(ServiceUiPlan::Pkexec { args }) => assert_eq!(
            args,
            vec!["/m".to_owned(), "--config".to_owned(), "/c".to_owned(), "service-start".to_owned()]
        ),
        _ => panic!("expected a pkexec plan"),
    }
    let p = plan_service_command_from_ui(Platform::Linux, "service-start", false, ServicePrivilegeMode::Unsupported, "/m", "/c");
    let e = p.err().unwrap();
    assert_eq!(e, ServiceError::NoElevation { platform: Platform::Linux });
    assert_eq!(e.message(), "no supported elevation mechanism available on Linux");
    let p = plan_service_command_from_ui(Platform::MacOs, "service-stop", false, ServicePrivilegeMode::Uac, "/m", "/c");
    let e = p.err().unwrap();
    assert_eq!(e.message(), "unexpected privilege mode for macOS");
    let p = plan_service_command_from_ui(Platform::Windows, "service-install", false, ServicePrivilegeMode::Uac, "C:\\m.exe", "c");
    match p {
        Ok(ServiceUiPlan::PowerShell { command }) => assert_eq!(
            command,
            "Start-Process -Verb RunAs -FilePath 'C:\\m.exe' -ArgumentList 'service-install' -Wait"
        ),
        _ => panic!("expected a PowerShell plan"),
    }
    let p = plan_service_command_from_ui(Platform::Other, "service-uninstall", false, ServicePrivilegeMode::Unsupported, "m", "c");
    assert!(matches!(p, Ok(ServiceUiPlan::Direct(ServiceAction::Uninstall))));
    let p = plan_service_command_from_ui(Platform::Windows, "nope", true, ServicePrivilegeMode::Uac, "m", "c");
    assert!(matches!(p, Err(ServiceError::UnknownUiCommand { .. })));
}

#[test]
fn windows_only_entry_points() {
    let e = run_service_command_with_privileges("service-start").unwrap_err();
    assert_eq!(e.message(), "Elevated service commands are only available on Windows");
    let e = run_service_dispatcher().unwrap_err();
    assert_eq!(e.message(), "Windows Service mode is only available on Windows");
}
