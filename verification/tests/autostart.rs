use kestrel::autostart::{
    autostart_path_in, desktop_entry, enable_plan, encode_exec_argument,
    validate_executable_path, AutostartError, DESKTOP_FILE_NAME,
};

#[test]
fn enable_writes_valid_entry() {
    let (path, entry) = enable_plan("/home/user/.config", "/opt/Kestrel/bin/Kestrel")
        .expect("valid plan");
    assert_eq!(
        path,
        "/home/user/.config/autostart/io.github.kamleshkc2002.Kestrel.desktop"
    );
    assert_eq!(
        entry,
        "[Desktop Entry]\nType=Application\nName=Kestrel\nExec=\"/opt/Kestrel/bin/Kestrel\"\n"
    );
}

#[test]
fn exec_argument_escapes_desktop_syntax() {
    let entry = desktop_entry("/tmp/bin/Kestrel $night\\build%1\"");
    assert!(entry.contains("Exec=\""));
    assert!(entry.contains("\\$night\\\\build%%1\\\""));
    assert_eq!(encode_exec_argument("a`b"), "\"a\\`b\"");
}

#[test]
fn explicit_paths_name_only_the_kestrel_entry() {
    let path = autostart_path_in("/tmp/config/").expect("autostart path");
    assert!(path.ends_with(DESKTOP_FILE_NAME));
    assert_eq!(path, "/tmp/config/autostart/io.github.kamleshkc2002.Kestrel.desktop");
}

#[test]
fn relative_executable_is_an_actionable_typed_error() {
    let error = enable_plan("/tmp/config", "Kestrel").expect_err("relative executable must fail");
    assert!(matches!(error, AutostartError::ExecutableNotAbsolute { .. }));
    assert_eq!(
        error.describe(),
        "Kestrel executable path must be absolute: Kestrel"
    );
}

#[test]
fn relative_config_home_and_control_characters_are_refused() {
    assert_eq!(
        autostart_path_in("config"),
        Err(AutostartError::ConfigHomeNotAbsolute {
            path: "config".to_string()
        })
    );
    assert_eq!(
        autostart_path_in(""),
        Err(AutostartError::ConfigHomeNotAbsolute {
            path: String::new()
        })
    );
    assert!(matches!(
        validate_executable_path("/bin/kes\ntrel"),
        Err(AutostartError::ExecutableContainsControlCharacter { .. })
    ));
    assert!(matches!(
        validate_executable_path("/bin/kes\u{85}trel"),
        Err(AutostartError::ExecutableContainsControlCharacter { .. })
    ));
    assert!(validate_executable_path("/bin/kestrel").is_ok());
}

#[test]
fn errors_describe_their_paths() {
    assert_eq!(
        AutostartError::Install {
            from: "/a".to_string(),
            to: "/b".to_string(),
            source: "denied".to_string()
        }
        .describe(),
        "cannot atomically install autostart file /a as /b: denied"
    );
    assert_eq!(
        AutostartError::MissingConfigHome.describe(),
        "cannot resolve the user configuration directory: set XDG_CONFIG_HOME or HOME"
    );
}
