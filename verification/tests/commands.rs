use pdf_shell::commands::{
    read_pdf_file_result, show_in_folder_plan, show_in_folder_result, write_pdf_file_result,
    CommandError, Platform,
};

#[test]
fn read_success_passes_bytes_through() {
    let bytes = vec![0x25, 0x50, 0x44, 0x46];
    let r = read_pdf_file_result("doc.pdf".to_string(), Ok(bytes.clone()));
    assert_eq!(r.unwrap(), bytes);
}

#[test]
fn read_failure_references_the_path() {
    let r = read_pdf_file_result(
        "/missing/x.pdf".to_string(),
        Err("No such file or directory (os error 2)".to_string()),
    );
    match r {
        Err(CommandError::ReadFailure { path, os_error }) => {
            assert_eq!(path, "/missing/x.pdf");
            assert_eq!(os_error, "No such file or directory (os error 2)");
        }
        other => panic!("expected a read failure, got {:?}", other),
    }
}

#[test]
fn read_failure_message_names_path_and_os_error() {
    let r = read_pdf_file_result("/missing/x.pdf".to_string(), Err("denied".to_string()));
    let message = r.unwrap_err().message();
    assert_eq!(message, "Failed to read file /missing/x.pdf: denied");
}

#[test]
fn write_success_is_silent() {
    let r = write_pdf_file_result("out.pdf".to_string(), Ok(()));
    assert!(r.is_ok());
}

#[test]
fn write_failure_references_the_path() {
    let r = write_pdf_file_result("/ro/out.pdf".to_string(), Err("Permission denied".to_string()));
    match r {
        Err(CommandError::WriteFailure { path, os_error }) => {
            assert_eq!(path, "/ro/out.pdf");
            assert_eq!(os_error, "Permission denied");
        }
        other => panic!("expected a write failure, got {:?}", other),
    }
}

#[test]
fn write_failure_message_names_path_and_os_error() {
    let r = write_pdf_file_result("/ro/out.pdf".to_string(), Err("Permission denied".to_string()));
    let message = r.unwrap_err().message();
    assert_eq!(message, "Failed to write file /ro/out.pdf: Permission denied");
}

#[test]
fn reveal_plan_on_windows_selects_the_file_in_explorer() {
    let plan = show_in_folder_plan(Platform::Windows, "C:\\docs\\a.pdf".to_string()).unwrap();
    assert_eq!(plan.program, "explorer");
    assert_eq!(plan.args, vec!["/select,".to_string(), "C:\\docs\\a.pdf".to_string()]);
}

#[test]
fn reveal_plan_elsewhere_is_unsupported() {
    for platform in [Platform::Linux, Platform::MacOs, Platform::Other] {
        let r = show_in_folder_plan(platform, "/tmp/a.pdf".to_string());
        assert!(matches!(r, Err(CommandError::UnsupportedPlatform)));
    }
}

#[test]
fn unsupported_platform_message() {
    let r = show_in_folder_plan(Platform::Linux, "/tmp/a.pdf".to_string());
    assert_eq!(r.unwrap_err().message(), "Not supported on this OS");
}

#[test]
fn launch_success_passes_through() {
    assert!(show_in_folder_result(Ok(())).is_ok());
}

#[test]
fn launch_failure_message_carries_os_error() {
    let r = show_in_folder_result(Err("spawn failed".to_string()));
    match &r {
        Err(CommandError::LaunchFailure { os_error }) => assert_eq!(os_error, "spawn failed"),
        other => panic!("expected a launch failure, got {:?}", other),
    }
    assert_eq!(r.unwrap_err().message(), "Failed to open explorer: spawn failed");
}
