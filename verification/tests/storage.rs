use usage_tracker::storage::{
    default_file_name, default_formats, first_load_step, first_save_step, format_of_extension,
    last_load_step, next_load_step, next_save_step, save_failed, DataFile, Found, LoadStep,
    SaveStep,
};
use usage_tracker::{FileFormat, Timestamp, UsageInformation, UsageTrackerError};

fn data_file() -> DataFile {
    DataFile { path: String::from("/data/usages.json"), format: FileFormat::Json }
}

fn changed_pair() -> (UsageInformation, UsageInformation) {
    let loaded = UsageInformation::new();
    let mut current = loaded.clone();
    current.add(&String::from("kettle")).unwrap();
    (loaded, current)
}

/// Takes the steps of saving on a file system that is told by whether the
/// data file and the backup exist, and returns the steps with the file
/// system they leave.
fn run(
    loaded: &UsageInformation,
    current: &UsageInformation,
    backup: bool,
    mut target_exists: bool,
    mut backup_exists: bool,
) -> (Vec<SaveStep>, bool, bool) {
    let mut steps = Vec::new();
    let mut next = first_save_step(loaded, current, backup);
    while let Some(step) = next {
        steps.push(step);
        let found = match step {
            SaveStep::CheckBackup => backup_exists,
            SaveStep::CheckPrevious | SaveStep::CheckTarget => target_exists,
            SaveStep::ClearBackup => {
                backup_exists = false;
                false
            }
            SaveStep::KeepPrevious => {
                backup_exists = true;
                target_exists = false;
                false
            }
            SaveStep::ClearTarget => {
                target_exists = false;
                false
            }
            SaveStep::Write => {
                target_exists = true;
                false
            }
        };
        next = next_save_step(step, found);
    }
    (steps, target_exists, backup_exists)
}

#[test]
fn data_files_have_default_names() {
    assert_eq!(default_file_name(FileFormat::Json), "usages.json");
    assert_eq!(default_file_name(FileFormat::Ron), "default.ron");
    assert_eq!(default_formats(), vec![FileFormat::Json, FileFormat::Ron]);
    assert_eq!(FileFormat::Json.extension(), "json");
    assert_eq!(FileFormat::Ron.extension(), "ron");
}

#[test]
fn the_backup_stands_beside_the_data_file() {
    assert_eq!(data_file().backup_path(), "/data/usages.json.bak");
}

#[test]
fn the_extension_tells_the_format() {
    assert_eq!(format_of_extension(Some("json")), Ok(FileFormat::Json));
    assert_eq!(format_of_extension(None), Err(UsageTrackerError::FormatNotSpecified));
    assert_eq!(
        format_of_extension(Some("ron")),
        Err(UsageTrackerError::UnsupportedFormat { extension: String::from("ron") })
    );
    assert_eq!(
        format_of_extension(Some("JSON")),
        Err(UsageTrackerError::UnsupportedFormat { extension: String::from("JSON") })
    );
    assert_eq!(
        format_of_extension(Some("")),
        Err(UsageTrackerError::UnsupportedFormat { extension: String::new() })
    );
    assert_eq!(
        format_of_extension(Some("jso")),
        Err(UsageTrackerError::UnsupportedFormat { extension: String::from("jso") })
    );
}

#[test]
fn what_stands_at_a_path_is_told_by_two_answers() {
    assert_eq!(Found::of(false, false), Found::Nothing);
    assert_eq!(Found::of(false, true), Found::Nothing);
    assert_eq!(Found::of(true, true), Found::File);
    assert_eq!(Found::of(true, false), Found::Other);
}

#[test]
fn the_first_candidate_that_exists_is_loaded() {
    assert_eq!(first_load_step(2), LoadStep::Probe { index: 0 });
    assert_eq!(next_load_step(2, 0, Found::File), LoadStep::Read { index: 0 });
    assert_eq!(next_load_step(2, 0, Found::Nothing), LoadStep::Probe { index: 1 });
    assert_eq!(next_load_step(2, 1, Found::File), LoadStep::Read { index: 1 });
    assert_eq!(last_load_step(&vec![Found::File, Found::File]), LoadStep::Read { index: 0 });
    assert_eq!(last_load_step(&vec![Found::Nothing, Found::File]), LoadStep::Read { index: 1 });
    assert_eq!(last_load_step(&vec![Found::File, Found::Other]), LoadStep::Read { index: 0 });
}

#[test]
fn no_candidate_means_an_empty_registry() {
    assert_eq!(first_load_step(0), LoadStep::StartEmpty);
    assert_eq!(next_load_step(2, 1, Found::Nothing), LoadStep::StartEmpty);
    assert_eq!(next_load_step(1, 0, Found::Nothing), LoadStep::StartEmpty);
    assert_eq!(next_load_step(1, usize::MAX, Found::Nothing), LoadStep::StartEmpty);
    assert_eq!(next_load_step(1, 1, Found::File), LoadStep::StartEmpty);
    assert_eq!(next_load_step(0, 0, Found::Other), LoadStep::StartEmpty);
    assert_eq!(last_load_step(&vec![]), LoadStep::StartEmpty);
    assert_eq!(last_load_step(&vec![Found::Nothing, Found::Nothing]), LoadStep::StartEmpty);
}

#[test]
fn a_candidate_that_is_no_file_is_refused() {
    assert_eq!(next_load_step(2, 0, Found::Other), LoadStep::Refuse { index: 0 });
    assert_eq!(last_load_step(&vec![Found::Other, Found::File]), LoadStep::Refuse { index: 0 });
    assert_eq!(
        last_load_step(&vec![Found::Nothing, Found::Other]),
        LoadStep::Refuse { index: 1 }
    );
    assert_eq!(
        data_file().not_a_file(),
        UsageTrackerError::PathIsNotFile { path: String::from("/data/usages.json") }
    );
}

#[test]
fn failures_of_loading_name_the_file() {
    assert_eq!(
        data_file().unreadable(String::from("permission denied")),
        UsageTrackerError::IoError {
            context: String::from("could not open file: /data/usages.json"),
            cause: String::from("permission denied"),
        }
    );
    assert_eq!(
        data_file().malformed(String::from("expected value at line 1")),
        UsageTrackerError::ParseError {
            path: String::from("/data/usages.json"),
            format: FileFormat::Json,
            cause: String::from("expected value at line 1"),
        }
    );
}

#[test]
fn unchanged_usage_information_is_not_saved() {
    let mut loaded = UsageInformation::new();
    loaded
        .record_use_at(&String::from("kettle"), true, Timestamp::from_unix(1, 0).unwrap())
        .unwrap();
    let mut current = loaded.clone();
    assert_eq!(first_save_step(&loaded, &current, true), None);
    assert_eq!(first_save_step(&loaded, &current, false), None);
    // Operations that fail or only read leave nothing to save.
    assert!(current.add(&String::from("kettle")).is_err());
    assert!(current.prune(&String::from("lamp"), &None).is_err());
    current.remove(&String::from("lamp"));
    let _ = current.list();
    assert_eq!(first_save_step(&loaded, &current, true), None);
    assert_eq!(run(&loaded, &current, true, true, true), (vec![], true, true));
    // A change that is taken back leaves nothing to save either.
    current.add(&String::from("lamp")).unwrap();
    assert_eq!(first_save_step(&loaded, &current, true), Some(SaveStep::CheckBackup));
    current.remove(&String::from("lamp"));
    assert_eq!(first_save_step(&loaded, &current, true), None);
}

#[test]
fn saving_with_backup_moves_the_old_file_aside() {
    let (loaded, current) = changed_pair();
    assert_eq!(
        run(&loaded, &current, true, true, true),
        (
            vec![
                SaveStep::CheckBackup,
                SaveStep::ClearBackup,
                SaveStep::CheckPrevious,
                SaveStep::KeepPrevious,
                SaveStep::CheckTarget,
                SaveStep::Write,
            ],
            true,
            true
        )
    );
    assert_eq!(
        run(&loaded, &current, true, true, false),
        (
            vec![
                SaveStep::CheckBackup,
                SaveStep::CheckPrevious,
                SaveStep::KeepPrevious,
                SaveStep::CheckTarget,
                SaveStep::Write,
            ],
            true,
            true
        )
    );
}

#[test]
fn saving_with_backup_and_no_old_file_leaves_no_backup() {
    let (loaded, current) = changed_pair();
    assert_eq!(
        run(&loaded, &current, true, false, true),
        (
            vec![
                SaveStep::CheckBackup,
                SaveStep::ClearBackup,
                SaveStep::CheckPrevious,
                SaveStep::CheckTarget,
                SaveStep::Write,
            ],
            true,
            false
        )
    );
    assert_eq!(
        run(&loaded, &current, true, false, false),
        (
            vec![
                SaveStep::CheckBackup,
                SaveStep::CheckPrevious,
                SaveStep::CheckTarget,
                SaveStep::Write
            ],
            true,
            false
        )
    );
}

#[test]
fn saving_without_backup_deletes_the_old_file() {
    let (loaded, current) = changed_pair();
    assert_eq!(
        run(&loaded, &current, false, true, true),
        (vec![SaveStep::CheckTarget, SaveStep::ClearTarget, SaveStep::Write], true, true)
    );
    assert_eq!(
        run(&loaded, &current, false, false, false),
        (vec![SaveStep::CheckTarget, SaveStep::Write], true, false)
    );
}

#[test]
fn each_step_of_saving_has_its_successor() {
    assert_eq!(next_save_step(SaveStep::CheckBackup, true), Some(SaveStep::ClearBackup));
    assert_eq!(next_save_step(SaveStep::CheckBackup, false), Some(SaveStep::CheckPrevious));
    assert_eq!(next_save_step(SaveStep::ClearBackup, false), Some(SaveStep::CheckPrevious));
    assert_eq!(next_save_step(SaveStep::ClearBackup, true), Some(SaveStep::CheckPrevious));
    assert_eq!(next_save_step(SaveStep::CheckPrevious, true), Some(SaveStep::KeepPrevious));
    assert_eq!(next_save_step(SaveStep::CheckPrevious, false), Some(SaveStep::CheckTarget));
    assert_eq!(next_save_step(SaveStep::KeepPrevious, false), Some(SaveStep::CheckTarget));
    assert_eq!(next_save_step(SaveStep::CheckTarget, true), Some(SaveStep::ClearTarget));
    assert_eq!(next_save_step(SaveStep::CheckTarget, false), Some(SaveStep::Write));
    assert_eq!(next_save_step(SaveStep::ClearTarget, false), Some(SaveStep::Write));
    assert_eq!(next_save_step(SaveStep::Write, false), None);
    assert_eq!(next_save_step(SaveStep::Write, true), None);
}

#[test]
fn failures_of_saving_say_which_step_failed() {
    let io = |context: &str| UsageTrackerError::IoError {
        context: String::from(context),
        cause: String::from("disk on fire"),
    };
    let failed = |step| save_failed(step, &data_file(), String::from("disk on fire"));
    assert_eq!(failed(SaveStep::ClearBackup), io("couldn't clear backup file path"));
    assert_eq!(failed(SaveStep::CheckBackup), io("couldn't clear backup file path"));
    assert_eq!(
        failed(SaveStep::KeepPrevious),
        io("couldn't move old data file to backup location")
    );
    assert_eq!(
        failed(SaveStep::CheckPrevious),
        io("couldn't move old data file to backup location")
    );
    assert_eq!(failed(SaveStep::ClearTarget), io("couldn't clear data file path"));
    assert_eq!(failed(SaveStep::CheckTarget), io("couldn't clear data file path"));
    assert_eq!(failed(SaveStep::Write), io("could not create file: /data/usages.json"));
}
