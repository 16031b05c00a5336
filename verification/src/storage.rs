//! The decisions of loading and saving usage information.
//!
//! Nothing here touches the file system. Loading and saving are laid out as
//! small steps: the caller carries out a step on the file system, reports
//! what it found, and is told the next step. A failure of a step ends the
//! run; [`DataFile`] and [`save_failed`] word the errors.

use crate::error::{prefixed, UsageTrackerError};
use crate::format::FileFormat;
use crate::names::same_text;
use crate::usage_information::UsageInformation;
use vstd::prelude::*;
use vstd::string::*;

verus! {

/// What is appended to the path of a data file to name its backup.
pub open spec fn backup_suffix() -> Seq<char> {
    ".bak"@
}

/// The name that the data file of format `format` has in the application's
/// data directory.
pub open spec fn default_file_name_text(format: FileFormat) -> Seq<char> {
    match format {
        FileFormat::Json => "usages"@ + "."@ + format.extension_text(),
        FileFormat::Ron => "default"@ + "."@ + format.extension_text(),
    }
}

/// The format that a data file with the extension `extension` has, where it
/// is one that can be both read and written.
pub open spec fn format_named_by(extension: Seq<char>) -> Option<FileFormat> {
    if extension == "json"@ {
        Some(FileFormat::Json)
    } else {
        None
    }
}

/// A file that holds, or is to hold, usage information.
#[derive(Debug, PartialEq, Eq)]
pub struct DataFile {
    /// Where the file stands.
    pub path: String,
    /// The format of its content.
    pub format: FileFormat,
}

impl DataFile {
    /// The error for something that stands at the path and is no file.
    pub fn not_a_file(&self) -> (r: UsageTrackerError)
        ensures
            r matches UsageTrackerError::PathIsNotFile { path } && path@ == self.path@,
    {
        UsageTrackerError::PathIsNotFile { path: self.path.clone() }
    }

    /// The error for a file that could not be opened, with what the file
    /// system reported.
    pub fn unreadable(&self, cause: String) -> (r: UsageTrackerError)
        ensures
            r matches UsageTrackerError::IoError { context, cause: c } && context@
                == "could not open file: "@ + self.path@ && c@ == cause@,
    {
        UsageTrackerError::IoError { context: prefixed("could not open file: ", &self.path), cause }
    }

    /// The error for a file whose content could not be decoded, or could
    /// not be encoded for it, with what the codec reported.
    pub fn malformed(&self, cause: String) -> (r: UsageTrackerError)
        ensures
            r matches UsageTrackerError::ParseError { path, format, cause: c } && path@
                == self.path@ && format == self.format && c@ == cause@,
    {
        UsageTrackerError::ParseError { path: self.path.clone(), format: self.format, cause }
    }

    /// The path of the backup of this file: the path with the backup suffix
    /// appended.
    pub fn backup_path(&self) -> (r: String)
        ensures
            r@ == self.path@ + backup_suffix(),
    {
        let mut path = self.path.clone();
        path.append(".bak");
        path
    }
}

impl Clone for DataFile {
    fn clone(&self) -> (r: Self)
        ensures
            r == *self,
    {
        DataFile { path: self.path.clone(), format: self.format }
    }
}

/// The name that the data file of format `format` has in the application's
/// data directory.
pub fn default_file_name(format: FileFormat) -> (r: String)
    ensures
        r@ == default_file_name_text(format),
{
    let mut name = match format {
        FileFormat::Json => String::from_str("usages"),
        FileFormat::Ron => String::from_str("default"),
    };
    name.append(".");
    name.append(format.extension());
    name
}

/// The formats of the data files in the application's data directory, in
/// the order in which the files are tried: the one that is written comes
/// first, the one of earlier versions second.
pub fn default_formats() -> (r: Vec<FileFormat>)
    ensures
        r@ == seq![FileFormat::Json, FileFormat::Ron],
{
    let mut formats = Vec::new();
    formats.push(FileFormat::Json);
    formats.push(FileFormat::Ron);
    formats
}

/// Tells the format of a data file by the extension of its name.
///
/// # Possible errors
/// - `UsageTrackerError::FormatNotSpecified`, where there is no extension
/// - `UsageTrackerError::UnsupportedFormat`, where the extension names no
///   format that can be read and written
pub fn format_of_extension(extension: Option<&str>) -> (r: Result<FileFormat, UsageTrackerError>)
    ensures
        match extension {
            None => r == Err::<FileFormat, UsageTrackerError>(
                UsageTrackerError::FormatNotSpecified,
            ),
            Some(text) => match format_named_by(text@) {
                Some(format) => r == Ok::<FileFormat, UsageTrackerError>(format),
                None => r matches Err(UsageTrackerError::UnsupportedFormat { extension: e }) && e@
                    == text@,
            },
        },
{
    match extension {
        None => Err(UsageTrackerError::FormatNotSpecified),
        Some(text) => {
            if same_text(text, "json") {
                Ok(FileFormat::Json)
            } else {
                Err(UsageTrackerError::UnsupportedFormat { extension: String::from_str(text) })
            }
        },
    }
}

/// What stands at a path.
#[derive(Clone, Copy, Debug, PartialEq, Eq, Structural)]
pub enum Found {
    /// Nothing.
    Nothing,
    /// A regular file.
    File,
    /// Something else, such as a directory.
    Other,
}

impl Found {
    /// What stands at a path of which the file system says whether anything
    /// exists there and whether that is a regular file.
    pub open spec fn told_by(exists: bool, is_file: bool) -> Found {
        if !exists {
            Found::Nothing
        } else if is_file {
            Found::File
        } else {
            Found::Other
        }
    }

    /// What stands at a path of which the file system says whether anything
    /// exists there and whether that is a regular file.
    pub fn of(exists: bool, is_file: bool) -> (r: Found)
        ensures
            r == Self::told_by(exists, is_file),
    {
        if !exists {
            Found::Nothing
        } else if is_file {
            Found::File
        } else {
            Found::Other
        }
    }
}

/// What to do next, or in the end, when usage information is looked for in
/// a list of candidate files.
#[derive(Clone, Copy, Debug, PartialEq, Eq, Structural)]
pub enum LoadStep {
    /// Look at what stands at the path of the candidate at `index`.
    Probe { index: usize },
    /// Read the candidate at `index`: it is the file to load.
    Read { index: usize },
    /// There is no data: start with an empty registry.
    StartEmpty,
    /// Give up: what stands at the path of the candidate at `index` is no
    /// file.
    Refuse { index: usize },
}

/// The step with which the look through `count` candidates begins.
pub open spec fn load_begins(count: nat) -> LoadStep {
    if count == 0 {
        LoadStep::StartEmpty
    } else {
        LoadStep::Probe { index: 0 }
    }
}

/// The step that follows when `found` stands at the path of the candidate
/// at `index`, of `count` candidates. An index past the candidates is taken
/// for the end of the look.
pub open spec fn load_goes_on(count: nat, index: usize, found: Found) -> LoadStep {
    if index >= count {
        LoadStep::StartEmpty
    } else {
        match found {
            Found::File => LoadStep::Read { index },
            Found::Other => LoadStep::Refuse { index },
            Found::Nothing => if index + 1 < count {
                LoadStep::Probe { index: (index + 1) as usize }
            } else {
                LoadStep::StartEmpty
            },
        }
    }
}

impl LoadStep {
    /// Whether this step names no candidate that is not among `count`
    /// candidates.
    pub open spec fn within(self, count: nat) -> bool {
        match self {
            LoadStep::Probe { index } => index < count,
            LoadStep::Read { index } => index < count,
            LoadStep::Refuse { index } => index < count,
            LoadStep::StartEmpty => true,
        }
    }
}

/// Where the look through candidates ends when it goes on from the
/// candidate at `index` and `found[i]` is what stands at the path of
/// candidate `i`: the first candidate at whose path something stands
/// decides, and what comes after it is not looked at.
pub open spec fn load_ends(found: Seq<Found>, index: nat) -> LoadStep
    decreases found.len() - index,
{
    if index >= found.len() {
        LoadStep::StartEmpty
    } else {
        match found[index as int] {
            Found::File => LoadStep::Read { index: index as usize },
            Found::Other => LoadStep::Refuse { index: index as usize },
            Found::Nothing => load_ends(found, index + 1),
        }
    }
}

/// The step with which the look through `count` candidates begins.
pub fn first_load_step(count: usize) -> (r: LoadStep)
    ensures
        r == load_begins(count as nat),
        r.within(count as nat),
{
    if count == 0 {
        LoadStep::StartEmpty
    } else {
        LoadStep::Probe { index: 0 }
    }
}

/// The step that follows when `found` stands at the path of the candidate
/// at `index`, of `count` candidates.
pub fn next_load_step(count: usize, index: usize, found: Found) -> (r: LoadStep)
    ensures
        r == load_goes_on(count as nat, index, found),
        r.within(count as nat),
{
    if index >= count {
        return LoadStep::StartEmpty;
    }
    match found {
        Found::File => LoadStep::Read { index },
        Found::Other => LoadStep::Refuse { index },
        Found::Nothing => if index + 1 < count {
            LoadStep::Probe { index: index + 1 }
        } else {
            LoadStep::StartEmpty
        },
    }
}

/// Follows the steps through a list of candidates of which `found` says
/// what stands at each path, and returns the step at which the look ends.
pub fn last_load_step(found: &Vec<Found>) -> (r: LoadStep)
    ensures
        r == load_ends(found@, 0),
{
    let mut step = first_load_step(found.len());
    loop
        invariant
            step.within(found@.len()),
            load_ends(found@, 0) == match step {
                LoadStep::Probe { index } => load_ends(found@, index as nat),
                _ => step,
            },
        decreases
                match step {
                    LoadStep::Probe { index } => found@.len() - index,
                    _ => 0,
                },
    {
        match step {
            LoadStep::Probe { index } => {
                proof {
                    reveal_with_fuel(load_ends, 2);
                }
                step = next_load_step(found.len(), index, found[index]);
            },
            _ => {
                return step;
            },
        }
    }
}

/// The look through candidates ends at the first candidate at whose path
/// something stands: a file there is read, anything else is refused, and
/// nothing stands at the paths of the candidates before it. Where nothing
/// stands at any path, the registry starts empty.
pub proof fn lemma_first_found_decides(found: Seq<Found>, from: nat)
    requires
        found.len() <= usize::MAX,
    ensures
        match load_ends(found, from) {
            LoadStep::Probe { index } => false,
            LoadStep::Read { index } => from <= index < found.len() && found[index as int]
                == Found::File && forall|i: int| from <= i < index ==> found[i] == Found::Nothing,
            LoadStep::Refuse { index } => from <= index < found.len() && found[index as int]
                == Found::Other && forall|i: int| from <= i < index ==> found[i] == Found::Nothing,
            LoadStep::StartEmpty => forall|i: int|
                from <= i < found.len() ==> found[i] == Found::Nothing,
        },
    decreases found.len() - from,
{
    if from < found.len() && found[from as int] == Found::Nothing {
        lemma_first_found_decides(found, from + 1);
    }
}

/// A step of saving usage information to a data file.
#[derive(Clone, Copy, Debug, PartialEq, Eq, Structural)]
pub enum SaveStep {
    /// Ask whether a file stands at the backup path.
    CheckBackup,
    /// Delete the file at the backup path.
    ClearBackup,
    /// Ask whether the data file exists, to keep it as the backup.
    CheckPrevious,
    /// Move the data file to the backup path.
    KeepPrevious,
    /// Ask whether the data file exists, to make room for the new one.
    CheckTarget,
    /// Delete the data file.
    ClearTarget,
    /// Write the usage information to the data file.
    Write,
}

impl SaveStep {
    /// Whether this step asks a question of the file system instead of
    /// changing it.
    pub open spec fn asks(self) -> bool {
        self == SaveStep::CheckBackup || self == SaveStep::CheckPrevious || self
            == SaveStep::CheckTarget
    }
}

/// The step with which saving begins: none at all where the usage
/// information has not changed since it was loaded.
pub open spec fn save_begins(changed: bool, backup: bool) -> Option<SaveStep> {
    if !changed {
        None
    } else if backup {
        Some(SaveStep::CheckBackup)
    } else {
        Some(SaveStep::CheckTarget)
    }
}

/// The step that follows the step `done`, where `found` is the answer to
/// the question that `done` asked; after a step that asks nothing `found`
/// does not matter. After the data file is written nothing follows.
pub open spec fn save_goes_on(done: SaveStep, found: bool) -> Option<SaveStep> {
    match done {
        SaveStep::CheckBackup => if found {
            Some(SaveStep::ClearBackup)
        } else {
            Some(SaveStep::CheckPrevious)
        },
        SaveStep::ClearBackup => Some(SaveStep::CheckPrevious),
        SaveStep::CheckPrevious => if found {
            Some(SaveStep::KeepPrevious)
        } else {
            Some(SaveStep::CheckTarget)
        },
        SaveStep::KeepPrevious => Some(SaveStep::CheckTarget),
        SaveStep::CheckTarget => if found {
            Some(SaveStep::ClearTarget)
        } else {
            Some(SaveStep::Write)
        },
        SaveStep::ClearTarget => Some(SaveStep::Write),
        SaveStep::Write => None,
    }
}

/// The step with which saving begins: none at all where the usage
/// information `current` holds what `loaded` held when it was loaded. With
/// `backup` the old data file is kept as a backup, without it the old data
/// file is deleted.
pub fn first_save_step(loaded: &UsageInformation, current: &UsageInformation, backup: bool) -> (r:
    Option<SaveStep>)
    ensures
        r == save_begins(loaded@ != current@, backup),
{
    let changed = loaded != current;
    if !changed {
        None
    } else if backup {
        Some(SaveStep::CheckBackup)
    } else {
        Some(SaveStep::CheckTarget)
    }
}

/// The step that follows the step `done`, where `found` is the answer to
/// the question that `done` asked.
pub fn next_save_step(done: SaveStep, found: bool) -> (r: Option<SaveStep>)
    ensures
        r == save_goes_on(done, found),
{
    match done {
        SaveStep::CheckBackup => if found {
            Some(SaveStep::ClearBackup)
        } else {
            Some(SaveStep::CheckPrevious)
        },
        SaveStep::ClearBackup => Some(SaveStep::CheckPrevious),
        SaveStep::CheckPrevious => if found {
            Some(SaveStep::KeepPrevious)
        } else {
            Some(SaveStep::CheckTarget)
        },
        SaveStep::KeepPrevious => Some(SaveStep::CheckTarget),
        SaveStep::CheckTarget => if found {
            Some(SaveStep::ClearTarget)
        } else {
            Some(SaveStep::Write)
        },
        SaveStep::ClearTarget => Some(SaveStep::Write),
        SaveStep::Write => None,
    }
}

/// The error for a step of saving to `target` that failed, with what the
/// file system reported.
pub fn save_failed(step: SaveStep, target: &DataFile, cause: String) -> (r: UsageTrackerError)
    ensures
        r matches UsageTrackerError::IoError { context, cause: c } && c@ == cause@ && context@
            == save_failure_text(step, target.path@),
{
    let context = match step {
        SaveStep::CheckBackup | SaveStep::ClearBackup => String::from_str(
            "couldn't clear backup file path",
        ),
        SaveStep::CheckPrevious | SaveStep::KeepPrevious => String::from_str(
            "couldn't move old data file to backup location",
        ),
        SaveStep::CheckTarget | SaveStep::ClearTarget => String::from_str(
            "couldn't clear data file path",
        ),
        SaveStep::Write => prefixed("could not create file: ", &target.path),
    };
    UsageTrackerError::IoError { context, cause }
}

/// What is said of a step of saving to the file at `path` that failed.
pub open spec fn save_failure_text(step: SaveStep, path: Seq<char>) -> Seq<char> {
    match step {
        SaveStep::CheckBackup | SaveStep::ClearBackup => "couldn't clear backup file path"@,
        SaveStep::CheckPrevious | SaveStep::KeepPrevious =>
            "couldn't move old data file to backup location"@,
        SaveStep::CheckTarget | SaveStep::ClearTarget => "couldn't clear data file path"@,
        SaveStep::Write => "could not create file: "@ + path,
    }
}

/// What stands at the two paths that saving touches: the content of the
/// file at each, if there is a file.
pub ghost struct Paths {
    /// The content of the data file.
    pub target: Option<int>,
    /// The content of the backup file.
    pub backup: Option<int>,
}

/// The answer of the file system `paths` to the question that `step` asks.
pub open spec fn answer(step: SaveStep, paths: Paths) -> bool {
    match step {
        SaveStep::CheckBackup => paths.backup is Some,
        SaveStep::CheckPrevious | SaveStep::CheckTarget => paths.target is Some,
        _ => false,
    }
}

/// The file system after `step` has been carried out on `paths` without
/// failure, where `content` is what is to be saved.
pub open spec fn carried_out(step: SaveStep, paths: Paths, content: int) -> Paths {
    match step {
        SaveStep::ClearBackup => Paths { backup: None, ..paths },
        SaveStep::KeepPrevious => Paths { backup: paths.target, target: None },
        SaveStep::ClearTarget => Paths { target: None, ..paths },
        SaveStep::Write => Paths { target: Some(content), ..paths },
        _ => paths,
    }
}

/// The number of steps that can still follow.
pub open spec fn steps_left(step: Option<SaveStep>) -> nat {
    match step {
        None => 0,
        Some(SaveStep::Write) => 1,
        Some(SaveStep::ClearTarget) => 2,
        Some(SaveStep::CheckTarget) => 3,
        Some(SaveStep::KeepPrevious) => 4,
        Some(SaveStep::CheckPrevious) => 5,
        Some(SaveStep::ClearBackup) => 6,
        Some(SaveStep::CheckBackup) => 7,
    }
}

/// The steps that are taken from `step` on when none fails, on a file
/// system that starts as `paths`.
pub open spec fn steps_from(step: Option<SaveStep>, paths: Paths, content: int) -> Seq<SaveStep>
    decreases steps_left(step),
{
    match step {
        None => Seq::empty(),
        Some(s) => seq![s] + steps_from(
            save_goes_on(s, answer(s, paths)),
            carried_out(s, paths, content),
            content,
        ),
    }
}

/// The file system after the steps from `step` on have been taken without
/// failure.
pub open spec fn paths_after(step: Option<SaveStep>, paths: Paths, content: int) -> Paths
    decreases steps_left(step),
{
    match step {
        None => paths,
        Some(s) => paths_after(
            save_goes_on(s, answer(s, paths)),
            carried_out(s, paths, content),
            content,
        ),
    }
}

/// The steps of saving as they are meant to be: an old backup is deleted,
/// the data file is moved to the backup path, and the new data file is
/// written; without backups the data file is deleted instead. Usage
/// information that has not changed is not saved.
pub open spec fn save_protocol(changed: bool, backup: bool, paths: Paths) -> Seq<SaveStep> {
    if !changed {
        Seq::empty()
    } else if backup {
        seq![SaveStep::CheckBackup] + (if paths.backup is Some {
            seq![SaveStep::ClearBackup]
        } else {
            Seq::empty()
        }) + seq![SaveStep::CheckPrevious] + (if paths.target is Some {
            seq![SaveStep::KeepPrevious]
        } else {
            Seq::empty()
        }) + seq![SaveStep::CheckTarget, SaveStep::Write]
    } else {
        seq![SaveStep::CheckTarget] + (if paths.target is Some {
            seq![SaveStep::ClearTarget]
        } else {
            Seq::empty()
        }) + seq![SaveStep::Write]
    }
}

/// A step either asks or changes: a step that asks leaves the file system
/// as it is, and after a step that changes it the answer is not looked at.
pub proof fn lemma_steps_ask_or_change(step: SaveStep, paths: Paths, content: int)
    ensures
        step.asks() ==> carried_out(step, paths, content) == paths,
        !step.asks() ==> save_goes_on(step, true) == save_goes_on(step, false),
{
}

/// Usage information that has not changed is not saved: no step is taken,
/// so nothing is written and no backup is made or deleted.
pub proof fn lemma_unchanged_is_not_saved(backup: bool, paths: Paths, content: int)
    ensures
        save_begins(false, backup) is None,
        steps_from(save_begins(false, backup), paths, content) == Seq::<SaveStep>::empty(),
        paths_after(save_begins(false, backup), paths, content) == paths,
{
}

/// Following the steps one by one takes exactly the steps of the protocol.
pub proof fn lemma_steps_follow_protocol(changed: bool, backup: bool, paths: Paths, content: int)
    ensures
        steps_from(save_begins(changed, backup), paths, content) == save_protocol(
            changed,
            backup,
            paths,
        ),
{
    reveal_with_fuel(steps_from, 8);
    assert(steps_from(save_begins(changed, backup), paths, content) =~= save_protocol(
        changed,
        backup,
        paths,
    ));
}

/// Saving changed usage information leaves the new content in the data
/// file. With backups, what the data file held before is then found at the
/// backup path, and nothing is found there if there was no data file;
/// without backups the backup path is left as it was.
pub proof fn lemma_saved(backup: bool, paths: Paths, content: int)
    ensures
        paths_after(save_begins(true, backup), paths, content).target == Some(content),
        paths_after(save_begins(true, backup), paths, content).backup == if backup {
            paths.target
        } else {
            paths.backup
        },
{
    reveal_with_fuel(paths_after, 8);
}

/// The file system after the first `count` of the steps from `step` on have
/// been taken without failure, or all of them where they are fewer.
pub open spec fn paths_amid(step: Option<SaveStep>, paths: Paths, content: int, count: nat) -> Paths
    decreases count,
{
    match step {
        None => paths,
        Some(s) => if count == 0 {
            paths
        } else {
            paths_amid(
                save_goes_on(s, answer(s, paths)),
                carried_out(s, paths, content),
                content,
                (count - 1) as nat,
            )
        },
    }
}

/// With backups, what the data file held before saving is never lost: after
/// any number of steps, so wherever a failure may end the run, it is found
/// in the data file or at the backup path.
pub proof fn lemma_backup_keeps_previous(paths: Paths, content: int, count: nat)
    requires
        paths.target is Some,
    ensures
        paths_amid(save_begins(true, true), paths, content, count).target == paths.target
            || paths_amid(save_begins(true, true), paths, content, count).backup == paths.target,
{
    reveal_with_fuel(paths_amid, 9);
    if count > 7 {
        lemma_run_is_over(save_begins(true, true), paths, content, count, 7);
    }
}

/// Once the steps have all been taken, more steps change nothing.
proof fn lemma_run_is_over(
    step: Option<SaveStep>,
    paths: Paths,
    content: int,
    count: nat,
    enough: nat,
)
    requires
        steps_left(step) <= enough <= count,
    ensures
        paths_amid(step, paths, content, count) == paths_amid(step, paths, content, enough),
    decreases enough,
{
    if let Some(s) = step {
        if enough > 0 {
            lemma_run_is_over(
                save_goes_on(s, answer(s, paths)),
                carried_out(s, paths, content),
                content,
                (count - 1) as nat,
                (enough - 1) as nat,
            );
        }
    }
}

} // verus!
