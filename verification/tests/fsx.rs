use shell_scene::action::DirState;
use shell_scene::action::WriteState;
use shell_scene::fsx::cast_file_name;
use shell_scene::fsx::default_cast_name;
use shell_scene::fsx::ensure_writable_dir;
use shell_scene::fsx::home_dir;
use shell_scene::fsx::now_yyyymmdd_hhmmss;
use shell_scene::fsx::validate_workdir;
use shell_scene::fsx::CAST_DIR;
use shell_scene::fsx::WRITABLE_PROBE;

#[test]
fn cast_file_is_named_after_session_and_time() {
    assert_eq!(cast_file_name("cast", "20240102-030405"), "cast-20240102-030405.cast");
    assert_eq!(cast_file_name("", ""), "-.cast");
}

#[test]
fn time_stamp_has_date_and_time_of_day() {
    let stamp = now_yyyymmdd_hhmmss();
    let chars: Vec<char> = stamp.chars().collect();
    assert_eq!(chars.len(), 15);
    for (i, c) in chars.iter().enumerate() {
        if i == 8 {
            assert_eq!(*c, '-');
        } else {
            assert!(c.is_ascii_digit());
        }
    }
}

#[test]
fn default_cast_name_is_built_around_a_time_stamp() {
    let name = default_cast_name("demo");
    assert!(name.starts_with("demo-"));
    assert!(name.ends_with(".cast"));
    assert_eq!(name.len(), "demo-".len() + 15 + ".cast".len());
}

#[test]
fn fixed_names() {
    assert_eq!(WRITABLE_PROBE, ".writable_probe.tmp");
    assert_eq!(CAST_DIR, "casts");
}

#[test]
fn set_home_is_the_home_directory() {
    assert_eq!(home_dir(Some("/home/me".to_string())), Ok("/home/me".to_string()));
    assert_eq!(home_dir(Some(String::new())), Ok(String::new()));
}

#[test]
fn unset_home_is_an_error() {
    assert_eq!(home_dir(None), Err("Could not determine $HOME".to_string()));
}

#[test]
fn usable_working_directory_passes() {
    assert_eq!(validate_workdir("/tmp", DirState::Usable), Ok(()));
}

#[test]
fn missing_working_directory_is_named() {
    assert_eq!(
        validate_workdir("/nowhere", DirState::Missing),
        Err("WORKING_DIRECTORY does not exist: /nowhere".to_string())
    );
}

#[test]
fn unreadable_working_directory_is_named() {
    assert_eq!(
        validate_workdir("/root", DirState::Unreadable),
        Err("WORKING_DIRECTORY is not readable: /root".to_string())
    );
}

#[test]
fn writable_directory_passes() {
    assert_eq!(ensure_writable_dir(&WriteState::Writable), Ok(()));
}

#[test]
fn directory_that_cannot_be_created_is_named_with_the_reason() {
    let state = WriteState::CreateFailed {
        dir: "/proc/x".to_string(),
        reason: "Permission denied (os error 13)".to_string(),
    };
    assert_eq!(
        ensure_writable_dir(&state),
        Err("Directory does not exist and could not be created: /proc/x (Permission denied (os \
             error 13))"
            .to_string())
    );
}

#[test]
fn directory_that_cannot_be_written_is_named() {
    let state = WriteState::NotWritable { dir: "/usr".to_string() };
    assert_eq!(ensure_writable_dir(&state), Err("Directory is not writable: /usr".to_string()));
}
