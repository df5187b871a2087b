use anothernote::errors::Error;
use anothernote::exit_code;
use anothernote::launcher::SpawnOutcome;
use anothernote::note::run;
use anothernote::note::run_with;
use anothernote::note::DirOutcome;
use anothernote::note_path;
use anothernote::notes_dir;
use anothernote::Note;

fn sample_note() -> Note {
    Note::new("meeting-notes".to_string(), "2024-01-01".to_string())
}

#[test]
fn header_matches_template() {
    let n = sample_note();
    assert_eq!(n.header_content(), "# meeting-notes\n## 2024-01-01\n\n");
}

#[test]
fn path_helpers_build_expected_strings() {
    assert_eq!(notes_dir("/home/u"), "/home/u/notes");
    assert_eq!(note_path("/home/u", "meeting-notes"), "/home/u/notes/meeting-notes.md");
}

#[test]
fn resolve_fresh_title_succeeds() {
    let n = sample_note();
    let r = n.path_from_filename(&Some("/home/u".to_string()), DirOutcome::Created, false);
    assert_eq!(r, Ok("/home/u/notes/meeting-notes.md".to_string()));
}

#[test]
fn resolve_duplicate_fails_idempotently() {
    let n = sample_note();
    let home = Some("/home/u".to_string());
    let r1 = n.path_from_filename(&home, DirOutcome::AlreadyExists, true);
    let r2 = n.path_from_filename(&home, DirOutcome::AlreadyExists, true);
    let expected = Err(Error::DuplicateError("/home/u/notes/meeting-notes.md".to_string()));
    assert_eq!(r1, expected);
    assert_eq!(r2, expected);
}

#[test]
fn resolve_existing_directory_is_not_an_error() {
    let n = sample_note();
    let home = Some("/home/u".to_string());
    let first = n.path_from_filename(&home, DirOutcome::Created, false);
    let second = n.path_from_filename(&home, DirOutcome::AlreadyExists, false);
    assert_eq!(first, Ok("/home/u/notes/meeting-notes.md".to_string()));
    assert_eq!(first, second);
}

#[test]
fn resolve_without_home_is_environment_error() {
    let n = sample_note();
    let r = n.path_from_filename(&None, DirOutcome::Created, false);
    assert_eq!(r, Err(Error::EnvironmentError));
}

#[test]
fn resolve_mkdir_failure_is_io_error() {
    let n = sample_note();
    let r = n.path_from_filename(&Some("/home/u".to_string()), DirOutcome::Failed, false);
    assert_eq!(r, Err(Error::IOError));
}

#[test]
fn create_rechecks_for_duplicates() {
    let mut n = sample_note();
    n.path = "/home/u/notes/meeting-notes.md".to_string();
    let r = n.create_file(true, true);
    assert_eq!(r, Err(Error::DuplicateError("/home/u/notes/meeting-notes.md".to_string())));
}

#[test]
fn create_write_failure_is_io_error() {
    let n = sample_note();
    assert_eq!(n.create_file(false, false), Err(Error::IOError));
}

#[test]
fn create_fresh_file_succeeds() {
    let n = sample_note();
    assert_eq!(n.create_file(false, true), Ok(()));
}

#[test]
fn missing_argument_fails_with_exit_code_one() {
    let args = vec!["notetool".to_string()];
    let outs: Vec<SpawnOutcome> = Vec::new();
    let r = run_with(
        &args,
        &Some("/home/u".to_string()),
        "2024-01-01".to_string(),
        DirOutcome::Created,
        false,
        false,
        true,
        "linux",
        &outs,
    );
    assert_eq!(r, Err(Error::MissingArgument));
    assert_eq!(exit_code(&r), 1);
}

#[test]
fn run_without_title_reports_missing_argument() {
    let args = vec!["notetool".to_string()];
    let outs: Vec<SpawnOutcome> = Vec::new();
    let r = run(&args, DirOutcome::Created, false, false, true, "linux", &outs);
    assert_eq!(r, Err(Error::MissingArgument));
}

#[test]
fn meeting_notes_scenario() {
    let mut n = sample_note();
    let r = n.build(
        &Some("/home/u".to_string()),
        DirOutcome::Created,
        false,
        false,
        true,
        "linux",
        &vec![SpawnOutcome::Launched],
    );
    assert_eq!(r, Ok(()));
    assert_eq!(n.path, "/home/u/notes/meeting-notes.md");
    assert_eq!(n.header_content(), "# meeting-notes\n## 2024-01-01\n\n");
    assert_eq!(exit_code(&r), 0);
}

#[test]
fn build_duplicate_leaves_path_unattached() {
    let mut n = sample_note();
    let r = n.build(
        &Some("/home/u".to_string()),
        DirOutcome::Created,
        true,
        false,
        true,
        "linux",
        &vec![SpawnOutcome::Launched],
    );
    assert_eq!(r, Err(Error::DuplicateError("/home/u/notes/meeting-notes.md".to_string())));
    assert_eq!(n.path, "");
}

#[test]
fn secondary_shell_rescues_the_launch() {
    let n = sample_note();
    let outs = vec![SpawnOutcome::NotFound, SpawnOutcome::NotFound, SpawnOutcome::Launched];
    assert_eq!(n.open_file_with_editor("linux", &outs), Ok(()));
}

#[test]
fn gui_permission_error_is_immediately_fatal() {
    let n = sample_note();
    let outs = vec![SpawnOutcome::Failed, SpawnOutcome::Launched, SpawnOutcome::Launched];
    assert_eq!(n.open_file_with_editor("linux", &outs), Err(Error::LaunchExhausted));
}

#[test]
fn gui_launch_succeeds_directly() {
    let n = sample_note();
    assert_eq!(n.open_file_with_editor("macos", &vec![SpawnOutcome::Launched]), Ok(()));
}

#[test]
fn all_fallbacks_not_found_exhausts_the_chain() {
    let n = sample_note();
    let outs = vec![SpawnOutcome::NotFound, SpawnOutcome::NotFound, SpawnOutcome::NotFound];
    assert_eq!(n.open_file_with_editor("linux", &outs), Err(Error::LaunchExhausted));
}

#[test]
fn unknown_platform_cannot_fall_back() {
    let n = sample_note();
    let outs = vec![SpawnOutcome::NotFound, SpawnOutcome::Launched];
    assert_eq!(n.open_file_with_editor("windows", &outs), Err(Error::UnsupportedPlatform));
}

#[test]
fn error_messages_are_fixed() {
    assert_eq!(Error::MissingArgument.message(), "please provide a filename");
    assert_eq!(Error::EnvironmentError.message(), "couldn't find your home dir");
    assert_eq!(
        Error::DuplicateError("/home/u/notes/a.md".to_string()).message(),
        "file already exists: /home/u/notes/a.md"
    );
    assert_eq!(Error::IOError.message(), "couldn't create the note");
    assert_eq!(Error::UnsupportedPlatform.message(), "unsupported platform");
    assert_eq!(Error::LaunchExhausted.message(), "couldn't open file");
}

#[test]
fn exit_code_reflects_success() {
    assert_eq!(exit_code(&Ok(())), 0);
    assert_eq!(exit_code(&Err(Error::LaunchExhausted)), 1);
}
