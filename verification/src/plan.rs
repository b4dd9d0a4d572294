//! Places in the file system and the steps by which the program changes the
//! host: files, directories, helper programs and registry keys.
//!
//! The library never touches the host. It says which steps are to be taken,
//! in which order, and which of them may fail without harm.

use std::path::PathBuf;
use vstd::prelude::*;
use crate::host::copy_path;

verus! {

/// A place in the file system: a directory that the platform named, and a
/// path below it whose parts are separated by `/`. An empty path is the
/// directory itself. The directory is kept as the host named it.
#[derive(Debug, PartialEq, Eq)]
pub struct Location {
    pub root: PathBuf,
    pub relative: String,
}

/// The mathematical content of a `Location`.
pub struct LocationView {
    pub root: PathBuf,
    pub relative: Seq<char>,
}

impl View for Location {
    type V = LocationView;

    open spec fn view(&self) -> LocationView {
        LocationView { root: self.root, relative: self.relative@ }
    }
}

impl Clone for Location {
    fn clone(&self) -> (location: Location)
        ensures
            location@ == self@,
    {
        self.clone_location()
    }
}

impl DeepView for Location {
    type V = LocationView;

    open spec fn deep_view(&self) -> LocationView {
        self@
    }
}

/// The path that may be missing, as a value.
pub open spec fn optional_path(path: Option<&PathBuf>) -> Option<PathBuf> {
    match path {
        Some(path) => Some(*path),
        None => None,
    }
}

/// The directory `root` itself.
pub open spec fn at_root(root: PathBuf) -> LocationView {
    LocationView { root, relative: Seq::empty() }
}

/// The entry `name` of the directory `parent`.
pub open spec fn entry(parent: LocationView, name: Seq<char>) -> LocationView {
    LocationView {
        root: parent.root,
        relative: if parent.relative.len() == 0 {
            name
        } else {
            parent.relative + "/"@ + name
        },
    }
}

impl Location {
    /// The directory `root` itself.
    pub fn new(root: &PathBuf) -> (location: Location)
        ensures
            location@ == at_root(*root),
    {
        Location { root: copy_path(root), relative: String::new() }
    }

    /// The entry `name` of this directory.
    pub fn join(&self, name: &str) -> (location: Location)
        ensures
            location@ == entry(self@, name@),
    {
        let mut relative = self.relative.clone();
        if relative.as_str().is_empty() {
            relative.append(name);
        } else {
            relative.append("/");
            relative.append(name);
        }
        Location { root: copy_path(&self.root), relative }
    }

    /// A copy of this location.
    pub fn clone_location(&self) -> (location: Location)
        ensures
            location@ == self@,
    {
        Location { root: copy_path(&self.root), relative: self.relative.clone() }
    }
}

/// One change to the host, or one helper to run.
#[derive(Debug, PartialEq, Eq)]
pub enum Step {
    /// Create the directory and the directories above it, where absent.
    CreateDirectory { at: Location },
    /// Write the text to the file, replacing what it held.
    WriteFile { at: Location, content: String },
    /// Copy the running executable to the file.
    CopyExecutable { to: Location },
    /// Delete the file, if it is present.
    RemoveFile { at: Location },
    /// Delete the directory with all it holds, if it is present.
    RemoveTree { at: Location },
    /// Delete the directory if it is empty; a failure is passed over.
    RemoveEmptyDirectory { at: Location },
    /// Run a helper program with the arguments, followed by the target where
    /// there is one, and wait for it. How it exits is never examined. Where
    /// `required` holds, a helper that cannot be started is a failure.
    RunHelper { program: String, arguments: Vec<String>, target: Option<Location>, required: bool },
    /// Under the current user's registry root, create the key where absent
    /// and set the named value; the empty name is the key's default value.
    SetRegistryValue { key: String, name: String, value: String },
    /// Under the current user's registry root, delete the key with all below it.
    DeleteRegistryTree { key: String },
}

/// The mathematical content of a `Step`.
pub enum StepView {
    CreateDirectory { at: LocationView },
    WriteFile { at: LocationView, content: Seq<char> },
    CopyExecutable { to: LocationView },
    RemoveFile { at: LocationView },
    RemoveTree { at: LocationView },
    RemoveEmptyDirectory { at: LocationView },
    RunHelper {
        program: Seq<char>,
        arguments: Seq<Seq<char>>,
        target: Option<LocationView>,
        required: bool,
    },
    SetRegistryValue { key: Seq<char>, name: Seq<char>, value: Seq<char> },
    DeleteRegistryTree { key: Seq<char> },
}

impl View for Step {
    type V = StepView;

    open spec fn view(&self) -> StepView {
        match self {
            Step::CreateDirectory { at } => StepView::CreateDirectory { at: at@ },
            Step::WriteFile { at, content } => StepView::WriteFile { at: at@, content: content@ },
            Step::CopyExecutable { to } => StepView::CopyExecutable { to: to@ },
            Step::RemoveFile { at } => StepView::RemoveFile { at: at@ },
            Step::RemoveTree { at } => StepView::RemoveTree { at: at@ },
            Step::RemoveEmptyDirectory { at } => StepView::RemoveEmptyDirectory { at: at@ },
            Step::RunHelper { program, arguments, target, required } => StepView::RunHelper {
                program: program@,
                arguments: arguments.deep_view(),
                target: target.deep_view(),
                required: *required,
            },
            Step::SetRegistryValue { key, name, value } => StepView::SetRegistryValue {
                key: key@,
                name: name@,
                value: value@,
            },
            Step::DeleteRegistryTree { key } => StepView::DeleteRegistryTree { key: key@ },
        }
    }
}

impl DeepView for Step {
    type V = StepView;

    open spec fn deep_view(&self) -> StepView {
        self@
    }
}

/// Whether a failure of the step fails the operation that it belongs to.
pub open spec fn is_required(step: StepView) -> bool {
    match step {
        StepView::RemoveEmptyDirectory { .. } => false,
        StepView::RunHelper { required, .. } => required,
        _ => true,
    }
}

impl Step {
    /// Whether a failure of this step fails the operation that it belongs to.
    pub fn required(&self) -> (yes: bool)
        ensures
            yes == is_required(self@),
    {
        match self {
            Step::RemoveEmptyDirectory { .. } => false,
            Step::RunHelper { required, .. } => *required,
            _ => true,
        }
    }
}

/// The step at position `at` was taken, failed, and may not fail.
/// `failed` tells of each step taken so far whether it failed.
pub open spec fn fails_at(steps: Seq<StepView>, failed: Seq<bool>, at: int) -> bool {
    &&& 0 <= at < steps.len()
    &&& at < failed.len()
    &&& failed[at]
    &&& is_required(steps[at])
}

/// The plan ends at position `at`: that step is the first that failed and
/// may not fail.
pub open spec fn ends_at(steps: Seq<StepView>, failed: Seq<bool>, at: int) -> bool {
    &&& fails_at(steps, failed, at)
    &&& forall|earlier: int| 0 <= earlier < at ==> !fails_at(steps, failed, earlier)
}

/// The position at which the plan ends before its time, if it does.
pub open spec fn ending(steps: Seq<StepView>, failed: Seq<bool>) -> Option<int> {
    if exists|at: int| fails_at(steps, failed, at) {
        Some(choose|at: int| ends_at(steps, failed, at))
    } else {
        None
    }
}

/// The step to take next, where the plan goes on: the one after those taken
/// so far. There is none where the plan has ended or every step was taken.
pub open spec fn next_position(steps: Seq<StepView>, failed: Seq<bool>) -> Option<int> {
    if ending(steps, failed) is None && failed.len() < steps.len() {
        Some(failed.len() as int)
    } else {
        None
    }
}

/// Where a step failed that may not fail, the plan has a first such step.
proof fn lemma_first_failure_exists(steps: Seq<StepView>, failed: Seq<bool>, at: int)
    requires
        fails_at(steps, failed, at),
    ensures
        exists|first: int| ends_at(steps, failed, first),
    decreases at,
{
    if exists|earlier: int| 0 <= earlier < at && fails_at(steps, failed, earlier) {
        let earlier = choose|earlier: int| 0 <= earlier < at && fails_at(steps, failed, earlier);
        lemma_first_failure_exists(steps, failed, earlier);
    } else {
        assert(ends_at(steps, failed, at));
    }
}

/// A plan ends before its time exactly at the first step that failed and
/// may not fail; steps that may fail do not end it.
pub proof fn law_ending(steps: Seq<StepView>, failed: Seq<bool>)
    ensures
        match ending(steps, failed) {
            Some(at) => ends_at(steps, failed, at),
            None => forall|at: int| !fails_at(steps, failed, at),
        },
{
    if exists|at: int| fails_at(steps, failed, at) {
        let at = choose|at: int| fails_at(steps, failed, at);
        lemma_first_failure_exists(steps, failed, at);
    }
}

/// The first position at which a step failed that may not fail.
pub fn first_failure(steps: &Vec<Step>, failed: &Vec<bool>) -> (at: Option<usize>)
    ensures
        match at {
            Some(at) => ending(steps.deep_view(), failed@) == Some(at as int) && ends_at(
                steps.deep_view(),
                failed@,
                at as int,
            ),
            None => ending(steps.deep_view(), failed@) is None,
        },
{
    let mut at: usize = 0;
    while at < steps.len() && at < failed.len()
        invariant
            forall|earlier: int| 0 <= earlier < at ==> !fails_at(steps.deep_view(), failed@, earlier),
        decreases steps.len() - at,
    {
        if failed[at] && steps[at].required() {
            proof {
                assert(ends_at(steps.deep_view(), failed@, at as int));
                law_ending(steps.deep_view(), failed@);
            }
            return Some(at);
        }
        at += 1;
    }
    None
}

/// The mathematical content of what is to be done next: the position of the
/// step to take, nothing where the plan is completed, or the error with
/// which it ended.
pub open spec fn turn_view<E>(turn: Result<Option<usize>, E>) -> Result<Option<int>, E> {
    match turn {
        Ok(Some(at)) => Ok(Some(at as int)),
        Ok(None) => Ok(None),
        Err(error) => Err(error),
    }
}

} // verus!
