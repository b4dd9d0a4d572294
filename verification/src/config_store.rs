//! The one thing the tool remembers between runs: the base address of the
//! proxy, kept as plain text in a file of the user's configuration directory.

use std::path::PathBuf;
use vstd::prelude::*;
use crate::error::ConfigError;
use crate::host;
use crate::plan::{
    at_root,
    ending,
    entry,
    fails_at,
    first_failure,
    next_position,
    optional_path,
    turn_view,
    Location,
    LocationView,
    Step,
    StepView,
};
use crate::settings::{Settings, SettingsView};
use crate::text::{trim, trimmed};

verus! {

/// Where the proxy address is kept.
#[derive(Debug, PartialEq, Eq)]
pub struct ConfigPath {
    /// The directory that holds the file. It is created before the file is used.
    pub directory: Location,
    /// The file itself.
    pub file: Location,
}

/// The mathematical content of a `ConfigPath`.
pub struct ConfigPathView {
    pub directory: LocationView,
    pub file: LocationView,
}

impl View for ConfigPath {
    type V = ConfigPathView;

    open spec fn view(&self) -> ConfigPathView {
        ConfigPathView { directory: self.directory@, file: self.file@ }
    }
}

/// What a look at the stored file found.
#[derive(Clone, Debug, PartialEq, Eq)]
pub enum StoredFile {
    /// The place of the file could not be determined.
    Unresolved,
    /// The directory could not be created, or the file could not be read.
    Unreadable,
    /// There is no file.
    Absent,
    /// The file holds this text.
    Holds(String),
}

/// The mathematical content of a `StoredFile`.
pub enum StoredFileView {
    Unresolved,
    Unreadable,
    Absent,
    Holds(Seq<char>),
}

impl View for StoredFile {
    type V = StoredFileView;

    open spec fn view(&self) -> StoredFileView {
        match self {
            StoredFile::Unresolved => StoredFileView::Unresolved,
            StoredFile::Unreadable => StoredFileView::Unreadable,
            StoredFile::Absent => StoredFileView::Absent,
            StoredFile::Holds(content) => StoredFileView::Holds(content@),
        }
    }
}

/// The place of the file in the configuration directory `dir`, where the
/// platform named one.
pub open spec fn config_path_in(dir: Option<PathBuf>, settings: SettingsView) -> Result<
    ConfigPathView,
    ConfigError,
> {
    match dir {
        None => Err(ConfigError::PathResolution),
        Some(dir) => Ok(
            ConfigPathView {
                directory: at_root(dir),
                file: entry(at_root(dir), settings.config_file_name),
            },
        ),
    }
}

/// The mathematical content of a resolved path or of the failure to resolve it.
pub open spec fn path_view(path: Result<ConfigPath, ConfigError>) -> Result<
    ConfigPathView,
    ConfigError,
> {
    match path {
        Ok(path) => Ok(path@),
        Err(error) => Err(error),
    }
}

/// The steps that store `url`: the file is written with exactly that text.
pub open spec fn save_steps(path: ConfigPathView, url: Seq<char>) -> Seq<StepView> {
    seq![StepView::WriteFile { at: path.file, content: url }]
}

/// The proxy address that a look at the stored file yields: the text of the
/// file without the whitespace around it.
pub open spec fn loaded(found: StoredFileView) -> Result<Seq<char>, ConfigError> {
    match found {
        StoredFileView::Unresolved => Err(ConfigError::PathResolution),
        StoredFileView::Unreadable => Err(ConfigError::Io),
        StoredFileView::Absent => Err(ConfigError::NotConfigured),
        StoredFileView::Holds(content) => Ok(trimmed(content)),
    }
}

/// The steps that erase the stored address. Where no file is present there
/// is nothing to do; where one is, it is deleted, and its directory with it
/// if that leaves the directory empty.
pub open spec fn remove_steps(path: ConfigPathView, present: bool) -> Seq<StepView> {
    if present {
        seq![
            StepView::RemoveFile { at: path.file },
            StepView::RemoveEmptyDirectory { at: path.directory },
        ]
    } else {
        Seq::empty()
    }
}

/// The mathematical content of a loaded address or of the failure to load it.
pub open spec fn text_view(loaded: Result<String, ConfigError>) -> Result<Seq<char>, ConfigError> {
    match loaded {
        Ok(text) => Ok(text@),
        Err(error) => Err(error),
    }
}

/// What the failure of a step means for the store: nothing where the step
/// may fail without harm.
pub open spec fn failure_of(step: StepView) -> Option<ConfigError> {
    if crate::plan::is_required(step) {
        Some(ConfigError::Io)
    } else {
        None
    }
}

/// What is to be done next with a plan of the store, given of each step
/// taken so far whether it failed. The steps are taken in order. The first
/// step that fails and may not fail ends the plan, and no later step is
/// taken; a step that may fail is passed over. Once every step was taken
/// the plan is completed.
pub open spec fn next_step_of(steps: Seq<StepView>, failed: Seq<bool>) -> Result<
    Option<int>,
    ConfigError,
> {
    match ending(steps, failed) {
        Some(_) => Err(ConfigError::Io),
        None => Ok(next_position(steps, failed)),
    }
}

impl ConfigPath {
    /// The step by which the containing directory comes to exist.
    pub fn prepare(&self) -> (step: Step)
        ensures
            step@ == (StepView::CreateDirectory { at: self@.directory }),
    {
        Step::CreateDirectory { at: self.directory.clone_location() }
    }
}

/// The place of the file in the configuration directory `dir`, where the
/// platform named one.
pub fn config_path(dir: Option<&PathBuf>, settings: &Settings) -> (path: Result<
    ConfigPath,
    ConfigError,
>)
    ensures
        path_view(path) == config_path_in(optional_path(dir), settings@),
{
    match dir {
        None => Err(ConfigError::PathResolution),
        Some(dir) => {
            let directory = Location::new(dir);
            let file = directory.join(settings.config_file_name.as_str());
            Ok(ConfigPath { directory, file })
        },
    }
}

/// The place of the file for the current user. The configuration directory
/// is looked up on the host; whatever the host answers, the path is the one
/// that `config_path_in` gives for that answer.
pub fn resolve_path(settings: &Settings) -> (path: Result<ConfigPath, ConfigError>)
    ensures
        exists|dir: Option<PathBuf>| path_view(path) == config_path_in(dir, settings@),
        match path {
            Ok(path) => path@.directory.relative.len() == 0 && path@.file == entry(
                path@.directory,
                settings@.config_file_name,
            ),
            Err(error) => error == ConfigError::PathResolution,
        },
{
    let dirs = host::project_dirs(
        settings.qualifier.as_str(),
        settings.organization.as_str(),
        settings.application.as_str(),
    );
    match dirs {
        None => config_path(None, settings),
        Some(dirs) => {
            let dir = host::config_dir(&dirs);
            config_path(Some(&dir), settings)
        },
    }
}

/// The steps that store `url`.
pub fn save(path: &ConfigPath, url: &str) -> (steps: Vec<Step>)
    ensures
        steps.deep_view() == save_steps(path@, url@),
{
    let mut steps: Vec<Step> = Vec::new();
    steps.push(Step::WriteFile { at: path.file.clone_location(), content: url.to_owned() });
    steps
}

/// The proxy address that a look at the stored file yields.
pub fn load(found: StoredFile) -> (address: Result<String, ConfigError>)
    ensures
        text_view(address) == loaded(found@),
{
    match found {
        StoredFile::Unresolved => Err(ConfigError::PathResolution),
        StoredFile::Unreadable => Err(ConfigError::Io),
        StoredFile::Absent => Err(ConfigError::NotConfigured),
        StoredFile::Holds(content) => Ok(trim(content.as_str())),
    }
}

/// The steps that erase the stored address, given whether the file is present.
pub fn remove(path: &ConfigPath, present: bool) -> (steps: Vec<Step>)
    ensures
        steps.deep_view() == remove_steps(path@, present),
{
    let mut steps: Vec<Step> = Vec::new();
    if present {
        steps.push(Step::RemoveFile { at: path.file.clone_location() });
        steps.push(Step::RemoveEmptyDirectory { at: path.directory.clone_location() });
    }
    steps
}

/// What the failure of `step` means for the store.
pub fn failure(step: &Step) -> (error: Option<ConfigError>)
    ensures
        error == failure_of(step@),
{
    if step.required() {
        Some(ConfigError::Io)
    } else {
        None
    }
}

/// What is to be done next with a plan of the store: the position of the
/// step to take, nothing once the plan is completed, or the error with
/// which the plan ended. `failed` tells of each step taken so far whether it
/// failed.
pub fn next_step(steps: &Vec<Step>, failed: &Vec<bool>) -> (next: Result<Option<usize>, ConfigError>)
    ensures
        turn_view(next) == next_step_of(steps.deep_view(), failed@),
        next is Err <==> exists|at: int| fails_at(steps.deep_view(), failed@, at),
{
    match first_failure(steps, failed) {
        Some(_) => Err(ConfigError::Io),
        None => if failed.len() < steps.len() {
            Ok(Some(failed.len()))
        } else {
            Ok(None)
        },
    }
}

} // verus!
