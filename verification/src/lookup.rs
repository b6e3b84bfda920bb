//! The order of the steps that find, and if need be build, the driver for a
//! toolchain.
//!
//! The caller performs each step that `next_step` asks for (reading the
//! environment, testing or creating a directory, running or building the
//! driver) and answers it with one `bool`: the answer to a question, or
//! whether an action succeeded.

use vstd::prelude::*;
use vstd::string::*;

use crate::builder::{
    create_dir_failed_message, write_failed_message, DEFAULT_DRIVERS_DIR, DRIVER_FILE,
    README_FILE,
};

verus! {

/// Which directory holds the drivers.
#[derive(Clone, Copy, PartialEq, Eq, Structural, Debug)]
pub enum DriversDir {
    /// The directory that the driver path variable names.
    Override,
    /// `.dynlint_drivers` in the home directory.
    Default,
}

/// A place in the file system that a step is about.
#[derive(Clone, Copy, PartialEq, Eq, Structural, Debug)]
pub enum Location {
    /// The directory that the driver path variable names.
    OverrideDir,
    /// `.dynlint_drivers` in the home directory.
    DefaultDir,
    /// The toolchain's directory inside the drivers directory.
    ToolchainDir(DriversDir),
    /// The driver inside the toolchain's directory.
    Driver(DriversDir),
}

/// Why no driver could be provided.
#[derive(Clone, Copy, PartialEq, Eq, Structural, Debug)]
pub enum LookupError {
    /// The driver path variable names something that is not a directory.
    OverrideNotADirectory,
    /// There is no home directory to hold the drivers.
    HomeNotFound,
    /// A directory could not be created.
    CreateDirFailed(Location),
    /// The README of the default drivers directory could not be written.
    WriteReadmeFailed,
    /// Building the driver failed.
    BuildFailed,
}

/// What the caller is asked to do next.
#[derive(Clone, Copy, PartialEq, Eq, Structural, Debug)]
pub enum LookupStep {
    /// Read the driver path variable; answer whether it is set.
    ReadDriverPathVar,
    /// Find the home directory; answer whether there is one.
    FindHome,
    /// Answer whether the location is a directory.
    CheckIsDir(Location),
    /// Create the directory (with its parents); answer whether that worked.
    CreateDir(Location),
    /// Write the README into the default drivers directory; answer whether
    /// that worked.
    WriteReadme,
    /// Answer whether the location exists.
    CheckExists(Location),
    /// Run the driver to learn its version; answer whether it is outdated.
    CheckVersion,
    /// Build the driver into its place; answer whether that worked.
    Build,
    /// Done: the driver in the given drivers directory is ready.
    Finish(DriversDir),
    /// Done: no driver can be provided.
    Fail(LookupError),
}

/// How far the lookup has come: which answer it waits for.
#[derive(Clone, Copy, PartialEq, Eq, Structural, Debug)]
pub enum LookupState {
    AwaitVar,
    AwaitOverrideIsDir,
    AwaitHome,
    AwaitDefaultIsDir,
    AwaitDefaultCreated,
    AwaitReadme,
    AwaitToolchainDirIsDir(DriversDir),
    AwaitToolchainDirCreated(DriversDir),
    AwaitDriverExists(DriversDir),
    AwaitVersion(DriversDir),
    AwaitBuild(DriversDir),
    Finished(DriversDir),
    Failed(LookupError),
}

/// The step that looks at the toolchain's directory inside `d`.
pub open spec fn toolchain_dir_check(d: DriversDir) -> (LookupState, LookupStep) {
    (LookupState::AwaitToolchainDirIsDir(d), LookupStep::CheckIsDir(Location::ToolchainDir(d)))
}

/// The step that looks for the driver inside `d`.
pub open spec fn driver_check(d: DriversDir) -> (LookupState, LookupStep) {
    (LookupState::AwaitDriverExists(d), LookupStep::CheckExists(Location::Driver(d)))
}

/// The end of a lookup that failed for `e`.
pub open spec fn failure(e: LookupError) -> (LookupState, LookupStep) {
    (LookupState::Failed(e), LookupStep::Fail(e))
}

/// The table of the lookup: the state that follows `state` on `answer`, and
/// the step asked for there.
pub open spec fn next_spec(state: LookupState, answer: bool) -> (LookupState, LookupStep) {
    match state {
        LookupState::AwaitVar => if answer {
            (LookupState::AwaitOverrideIsDir, LookupStep::CheckIsDir(Location::OverrideDir))
        } else {
            (LookupState::AwaitHome, LookupStep::FindHome)
        },
        LookupState::AwaitOverrideIsDir => if answer {
            toolchain_dir_check(DriversDir::Override)
        } else {
            failure(LookupError::OverrideNotADirectory)
        },
        LookupState::AwaitHome => if answer {
            (LookupState::AwaitDefaultIsDir, LookupStep::CheckIsDir(Location::DefaultDir))
        } else {
            failure(LookupError::HomeNotFound)
        },
        LookupState::AwaitDefaultIsDir => if answer {
            toolchain_dir_check(DriversDir::Default)
        } else {
            (LookupState::AwaitDefaultCreated, LookupStep::CreateDir(Location::DefaultDir))
        },
        LookupState::AwaitDefaultCreated => if answer {
            (LookupState::AwaitReadme, LookupStep::WriteReadme)
        } else {
            failure(LookupError::CreateDirFailed(Location::DefaultDir))
        },
        LookupState::AwaitReadme => if answer {
            toolchain_dir_check(DriversDir::Default)
        } else {
            failure(LookupError::WriteReadmeFailed)
        },
        LookupState::AwaitToolchainDirIsDir(d) => if answer {
            driver_check(d)
        } else {
            (
                LookupState::AwaitToolchainDirCreated(d),
                LookupStep::CreateDir(Location::ToolchainDir(d)),
            )
        },
        LookupState::AwaitToolchainDirCreated(d) => if answer {
            driver_check(d)
        } else {
            failure(LookupError::CreateDirFailed(Location::ToolchainDir(d)))
        },
        LookupState::AwaitDriverExists(d) => if answer {
            (LookupState::AwaitVersion(d), LookupStep::CheckVersion)
        } else {
            (LookupState::AwaitBuild(d), LookupStep::Build)
        },
        LookupState::AwaitVersion(d) => if answer {
            (LookupState::AwaitBuild(d), LookupStep::Build)
        } else {
            (LookupState::Finished(d), LookupStep::Finish(d))
        },
        LookupState::AwaitBuild(d) => if answer {
            (LookupState::Finished(d), LookupStep::Finish(d))
        } else {
            failure(LookupError::BuildFailed)
        },
        LookupState::Finished(d) => (LookupState::Finished(d), LookupStep::Finish(d)),
        LookupState::Failed(e) => failure(e),
    }
}

/// Starts a lookup: its first state and the first step asked for.
pub fn start() -> (r: (LookupState, LookupStep))
    ensures
        r == (LookupState::AwaitVar, LookupStep::ReadDriverPathVar),
{
    (LookupState::AwaitVar, LookupStep::ReadDriverPathVar)
}

/// Advances a lookup in `state` by the `answer` to the step last asked for,
/// and returns the next state with the step asked for there. A finished or
/// failed lookup stays as it is.
pub fn next_step(state: LookupState, answer: bool) -> (r: (LookupState, LookupStep))
    ensures
        r == next_spec(state, answer),
{
    match state {
        LookupState::AwaitVar => if answer {
            (LookupState::AwaitOverrideIsDir, LookupStep::CheckIsDir(Location::OverrideDir))
        } else {
            (LookupState::AwaitHome, LookupStep::FindHome)
        },
        LookupState::AwaitOverrideIsDir => if answer {
            check_toolchain_dir(DriversDir::Override)
        } else {
            fail(LookupError::OverrideNotADirectory)
        },
        LookupState::AwaitHome => if answer {
            (LookupState::AwaitDefaultIsDir, LookupStep::CheckIsDir(Location::DefaultDir))
        } else {
            fail(LookupError::HomeNotFound)
        },
        LookupState::AwaitDefaultIsDir => if answer {
            check_toolchain_dir(DriversDir::Default)
        } else {
            (LookupState::AwaitDefaultCreated, LookupStep::CreateDir(Location::DefaultDir))
        },
        LookupState::AwaitDefaultCreated => if answer {
            (LookupState::AwaitReadme, LookupStep::WriteReadme)
        } else {
            fail(LookupError::CreateDirFailed(Location::DefaultDir))
        },
        LookupState::AwaitReadme => if answer {
            check_toolchain_dir(DriversDir::Default)
        } else {
            fail(LookupError::WriteReadmeFailed)
        },
        LookupState::AwaitToolchainDirIsDir(d) => if answer {
            check_driver(d)
        } else {
            (
                LookupState::AwaitToolchainDirCreated(d),
                LookupStep::CreateDir(Location::ToolchainDir(d)),
            )
        },
        LookupState::AwaitToolchainDirCreated(d) => if answer {
            check_driver(d)
        } else {
            fail(LookupError::CreateDirFailed(Location::ToolchainDir(d)))
        },
        LookupState::AwaitDriverExists(d) => if answer {
            (LookupState::AwaitVersion(d), LookupStep::CheckVersion)
        } else {
            (LookupState::AwaitBuild(d), LookupStep::Build)
        },
        LookupState::AwaitVersion(d) => if answer {
            (LookupState::AwaitBuild(d), LookupStep::Build)
        } else {
            (LookupState::Finished(d), LookupStep::Finish(d))
        },
        LookupState::AwaitBuild(d) => if answer {
            (LookupState::Finished(d), LookupStep::Finish(d))
        } else {
            fail(LookupError::BuildFailed)
        },
        LookupState::Finished(d) => (LookupState::Finished(d), LookupStep::Finish(d)),
        LookupState::Failed(e) => fail(e),
    }
}

fn check_toolchain_dir(d: DriversDir) -> (r: (LookupState, LookupStep))
    ensures
        r == toolchain_dir_check(d),
{
    (LookupState::AwaitToolchainDirIsDir(d), LookupStep::CheckIsDir(Location::ToolchainDir(d)))
}

fn check_driver(d: DriversDir) -> (r: (LookupState, LookupStep))
    ensures
        r == driver_check(d),
{
    (LookupState::AwaitDriverExists(d), LookupStep::CheckExists(Location::Driver(d)))
}

fn fail(e: LookupError) -> (r: (LookupState, LookupStep))
    ensures
        r == failure(e),
{
    (LookupState::Failed(e), LookupStep::Fail(e))
}


// ---------------------------------------------------------------------------
// Laws of the lookup
// ---------------------------------------------------------------------------

/// Whether a lookup in `state` is over.
pub open spec fn is_done(state: LookupState) -> bool {
    state is Finished || state is Failed
}

/// How far along the lookup `state` is.
pub open spec fn stage(state: LookupState) -> nat {
    match state {
        LookupState::AwaitVar => 0,
        LookupState::AwaitOverrideIsDir => 1,
        LookupState::AwaitHome => 1,
        LookupState::AwaitDefaultIsDir => 2,
        LookupState::AwaitDefaultCreated => 3,
        LookupState::AwaitReadme => 4,
        LookupState::AwaitToolchainDirIsDir(_) => 5,
        LookupState::AwaitToolchainDirCreated(_) => 6,
        LookupState::AwaitDriverExists(_) => 7,
        LookupState::AwaitVersion(_) => 8,
        LookupState::AwaitBuild(_) => 9,
        LookupState::Finished(_) => 10,
        LookupState::Failed(_) => 10,
    }
}

/// The state that a lookup in `state` reaches after the `answers`, in order.
pub open spec fn run(state: LookupState, answers: Seq<bool>) -> LookupState
    decreases answers.len(),
{
    if answers.len() == 0 {
        state
    } else {
        run(next_spec(state, answers[0]).0, answers.drop_first())
    }
}

/// Every step of a lookup that is not over moves it strictly forward, and a
/// lookup that is over stays over.
pub proof fn lemma_step_moves_forward(state: LookupState, answer: bool)
    ensures
        !is_done(state) ==> stage(next_spec(state, answer).0) > stage(state),
        is_done(state) ==> next_spec(state, answer).0 == state,
        is_done(next_spec(state, answer).0) <==> stage(next_spec(state, answer).0) == 10,
{
}

proof fn lemma_run_ends(state: LookupState, answers: Seq<bool>)
    requires
        stage(state) + answers.len() >= 10,
    ensures
        is_done(run(state, answers)),
    decreases answers.len(),
{
    lemma_step_moves_forward(state, true);
    lemma_step_moves_forward(state, false);
    if answers.len() > 0 {
        lemma_run_ends(next_spec(state, answers[0]).0, answers.drop_first());
    }
}

/// Whatever the answers, a lookup is over after at most ten of them.
pub proof fn lemma_lookup_ends(answers: Seq<bool>)
    requires
        answers.len() >= 10,
    ensures
        is_done(run(start_state(), answers)),
{
    lemma_run_ends(start_state(), answers);
}

/// The state in which every lookup begins.
pub open spec fn start_state() -> LookupState {
    LookupState::AwaitVar
}

/// A driver is built only when it was found missing, or found outdated.
pub proof fn lemma_build_only_when_needed(state: LookupState, answer: bool)
    ensures
        next_spec(state, answer).1 is Build ==> (state is AwaitDriverExists && !answer) || (
        state is AwaitVersion && answer),
{
}

/// A driver's version is checked only once the driver is known to exist.
pub proof fn lemma_version_checked_only_if_present(state: LookupState, answer: bool)
    ensures
        next_spec(state, answer).1 is CheckVersion ==> state is AwaitDriverExists && answer,
{
}

/// A lookup finishes (for the first time) only with a driver that exists and
/// is current, or that was just built.
pub proof fn lemma_finish_only_when_ready(state: LookupState, answer: bool)
    ensures
        next_spec(state, answer).1 is Finish && !(state is Finished) ==> (state is AwaitVersion
            && !answer) || (state is AwaitBuild && answer),
{
}

/// The README is written only into a default drivers directory that was just
/// created.
pub proof fn lemma_readme_only_in_new_dir(state: LookupState, answer: bool)
    ensures
        next_spec(state, answer).1 is WriteReadme ==> state is AwaitDefaultCreated && answer,
{
}

/// Whether a lookup in `state` has committed to the directory that the driver
/// path variable names.
pub open spec fn uses_override(state: LookupState) -> bool {
    match state {
        LookupState::AwaitOverrideIsDir => true,
        LookupState::AwaitToolchainDirIsDir(d) => d == DriversDir::Override,
        LookupState::AwaitToolchainDirCreated(d) => d == DriversDir::Override,
        LookupState::AwaitDriverExists(d) => d == DriversDir::Override,
        LookupState::AwaitVersion(d) => d == DriversDir::Override,
        LookupState::AwaitBuild(d) => d == DriversDir::Override,
        LookupState::Finished(d) => d == DriversDir::Override,
        LookupState::Failed(_) => true,
        _ => false,
    }
}

/// Whether `step` touches the home directory or the default drivers directory.
pub open spec fn touches_default(step: LookupStep) -> bool {
    match step {
        LookupStep::FindHome => true,
        LookupStep::WriteReadme => true,
        LookupStep::CheckIsDir(l) => l == Location::DefaultDir || l == Location::ToolchainDir(
            DriversDir::Default,
        ),
        LookupStep::CreateDir(l) => l == Location::DefaultDir || l == Location::ToolchainDir(
            DriversDir::Default,
        ),
        LookupStep::CheckExists(l) => l == Location::Driver(DriversDir::Default),
        LookupStep::Finish(d) => d == DriversDir::Default,
        _ => false,
    }
}

/// When the driver path variable is set, the lookup keeps to the directory it
/// names: from then on no step touches the home directory or the default
/// drivers directory, and the driver it finishes with lies in the named one.
pub proof fn lemma_override_is_kept(state: LookupState, answer: bool)
    ensures
        next_spec(LookupState::AwaitVar, true).0 == LookupState::AwaitOverrideIsDir,
        uses_override(LookupState::AwaitOverrideIsDir),
        uses_override(state) ==> uses_override(next_spec(state, answer).0) && !touches_default(
            next_spec(state, answer).1,
        ),
{
}


// ---------------------------------------------------------------------------
// Where the locations are, and what failures say
// ---------------------------------------------------------------------------

/// The directory from which a location's path starts.
#[derive(Clone, Copy, PartialEq, Eq, Structural, Debug)]
pub enum PathRoot {
    /// The directory that the driver path variable names.
    DriverPathVar,
    /// The home directory.
    Home,
}

/// A path: a root directory and the components that follow it.
pub struct LocationPath {
    /// Where the path starts.
    pub root: PathRoot,
    /// The components joined onto the root, in order.
    pub components: Vec<String>,
}

/// The root and components of the drivers directory `d`.
pub open spec fn drivers_dir_components(d: DriversDir) -> (PathRoot, Seq<Seq<char>>) {
    match d {
        DriversDir::Override => (PathRoot::DriverPathVar, seq![]),
        DriversDir::Default => (PathRoot::Home, seq![DEFAULT_DRIVERS_DIR@]),
    }
}

/// The root and components of `location`, for the driver of `toolchain`.
pub open spec fn location_components(location: Location, toolchain: Seq<char>) -> (
    PathRoot,
    Seq<Seq<char>>,
) {
    match location {
        Location::OverrideDir => drivers_dir_components(DriversDir::Override),
        Location::DefaultDir => drivers_dir_components(DriversDir::Default),
        Location::ToolchainDir(d) => (
            drivers_dir_components(d).0,
            drivers_dir_components(d).1.push(toolchain),
        ),
        Location::Driver(d) => (
            drivers_dir_components(d).0,
            drivers_dir_components(d).1.push(toolchain).push(DRIVER_FILE@),
        ),
    }
}

/// The views of a list of strings.
pub open spec fn string_views(v: Seq<String>) -> Seq<Seq<char>> {
    v.map_values(|c: String| c@)
}

/// Returns where `location` is, for the driver of `toolchain`.
pub fn location_path(location: Location, toolchain: &str) -> (path: LocationPath)
    ensures
        (path.root, string_views(path.components@)) == location_components(location, toolchain@),
{
    let (root, dir) = match location {
        Location::OverrideDir => (PathRoot::DriverPathVar, None),
        Location::DefaultDir => (PathRoot::Home, None),
        Location::ToolchainDir(d) => match d {
            DriversDir::Override => (PathRoot::DriverPathVar, Some(d)),
            DriversDir::Default => (PathRoot::Home, Some(d)),
        },
        Location::Driver(d) => match d {
            DriversDir::Override => (PathRoot::DriverPathVar, Some(d)),
            DriversDir::Default => (PathRoot::Home, Some(d)),
        },
    };
    let mut components: Vec<String> = Vec::new();
    if root == PathRoot::Home {
        components.push(String::from_str(DEFAULT_DRIVERS_DIR));
    }
    if dir.is_some() {
        components.push(String::from_str(toolchain));
    }
    if location matches Location::Driver(_) {
        components.push(String::from_str(DRIVER_FILE));
    }
    let path = LocationPath { root, components };
    assert(string_views(path.components@) =~= location_components(location, toolchain@).1);
    path
}

/// Returns where the README of the default drivers directory is.
pub fn readme_path() -> (path: LocationPath)
    ensures
        path.root == PathRoot::Home,
        string_views(path.components@) == seq![DEFAULT_DRIVERS_DIR@, README_FILE@],
{
    let mut components: Vec<String> = Vec::new();
    components.push(String::from_str(DEFAULT_DRIVERS_DIR));
    components.push(String::from_str(README_FILE));
    let path = LocationPath { root: PathRoot::Home, components };
    assert(string_views(path.components@) =~= seq![DEFAULT_DRIVERS_DIR@, README_FILE@]);
    path
}

impl LookupError {
    /// The message that reports this error, where `path` is how the failed
    /// location (or README) is shown. A failed build is reported by the
    /// build's own error, so it has none here.
    pub fn message(&self, path: &str) -> (m: Option<String>)
        ensures
            *self == LookupError::OverrideNotADirectory ==> (m matches Some(t) && t@
                == "Condition failed: `dynlint_drivers.is_dir()`"@),
            *self == LookupError::HomeNotFound ==> (m matches Some(t) && t@
                == "Could not find HOME directory"@),
            self is CreateDirFailed ==> (m matches Some(t) && t@ == "`create_dir_all` failed for `"@
                + path@ + "`"@),
            *self == LookupError::WriteReadmeFailed ==> (m matches Some(t) && t@
                == "`write` failed for `"@ + path@ + "`"@),
            *self == LookupError::BuildFailed ==> m is None,
    {
        match self {
            LookupError::OverrideNotADirectory => Some(
                String::from_str("Condition failed: `dynlint_drivers.is_dir()`"),
            ),
            LookupError::HomeNotFound => Some(String::from_str("Could not find HOME directory")),
            LookupError::CreateDirFailed(_) => Some(create_dir_failed_message(path)),
            LookupError::WriteReadmeFailed => Some(write_failed_message(path)),
            LookupError::BuildFailed => None,
        }
    }
}

/// Whether a lookup in `state` has read the driver path variable as set.
pub open spec fn var_was_set(state: LookupState) -> bool {
    match state {
        LookupState::AwaitOverrideIsDir => true,
        LookupState::AwaitToolchainDirIsDir(d) => d == DriversDir::Override,
        LookupState::AwaitToolchainDirCreated(d) => d == DriversDir::Override,
        LookupState::AwaitDriverExists(d) => d == DriversDir::Override,
        LookupState::AwaitVersion(d) => d == DriversDir::Override,
        LookupState::AwaitBuild(d) => d == DriversDir::Override,
        LookupState::Finished(d) => d == DriversDir::Override,
        _ => false,
    }
}

/// Whether a lookup in `state` has found the home directory.
pub open spec fn home_was_found(state: LookupState) -> bool {
    match state {
        LookupState::AwaitDefaultIsDir => true,
        LookupState::AwaitDefaultCreated => true,
        LookupState::AwaitReadme => true,
        LookupState::AwaitToolchainDirIsDir(d) => d == DriversDir::Default,
        LookupState::AwaitToolchainDirCreated(d) => d == DriversDir::Default,
        LookupState::AwaitDriverExists(d) => d == DriversDir::Default,
        LookupState::AwaitVersion(d) => d == DriversDir::Default,
        LookupState::AwaitBuild(d) => d == DriversDir::Default,
        LookupState::Finished(d) => d == DriversDir::Default,
        _ => false,
    }
}

/// Whether `step` is about a path that starts at `root`.
pub open spec fn step_uses_root(step: LookupStep, root: PathRoot) -> bool {
    match step {
        LookupStep::CheckIsDir(l) => location_components(l, seq![]).0 == root,
        LookupStep::CreateDir(l) => location_components(l, seq![]).0 == root,
        LookupStep::CheckExists(l) => location_components(l, seq![]).0 == root,
        LookupStep::WriteReadme => root == PathRoot::Home,
        LookupStep::Finish(d) => drivers_dir_components(d).0 == root,
        _ => false,
    }
}

/// A lookup asks about a path under the driver path variable only once it
/// has read that variable as set, and about a path under the home directory
/// only once it has found that directory: the state it moves to records it,
/// and such a state is entered only from one that records it too, or by that
/// very answer. It asks to check or build the driver only in a state that
/// names the driver's directory.
pub proof fn lemma_paths_known_before_use(state: LookupState, answer: bool)
    ensures
        step_uses_root(next_spec(state, answer).1, PathRoot::DriverPathVar) ==> var_was_set(
            next_spec(state, answer).0,
        ),
        var_was_set(next_spec(state, answer).0) ==> var_was_set(state) || (state
            == LookupState::AwaitVar && answer),
        step_uses_root(next_spec(state, answer).1, PathRoot::Home) ==> home_was_found(
            next_spec(state, answer).0,
        ),
        home_was_found(next_spec(state, answer).0) ==> home_was_found(state) || (state
            == LookupState::AwaitHome && answer),
        next_spec(state, answer).1 is CheckVersion ==> next_spec(state, answer).0 is AwaitVersion,
        next_spec(state, answer).1 is Build ==> next_spec(state, answer).0 is AwaitBuild,
{
}


// ---------------------------------------------------------------------------
// A second lookup repeats the first
// ---------------------------------------------------------------------------

/// What the environment and file system answer a lookup, for the drivers
/// directory that the lookup settles on.
pub struct World {
    pub var_set: bool,
    pub override_is_dir: bool,
    pub home_found: bool,
    pub default_is_dir: bool,
    pub toolchain_dir_is_dir: bool,
    pub driver_exists: bool,
    pub driver_outdated: bool,
}

/// The answer that `world` gives to `step`; every action succeeds.
pub open spec fn world_answer(world: World, step: LookupStep) -> bool {
    match step {
        LookupStep::ReadDriverPathVar => world.var_set,
        LookupStep::FindHome => world.home_found,
        LookupStep::CheckIsDir(Location::OverrideDir) => world.override_is_dir,
        LookupStep::CheckIsDir(Location::DefaultDir) => world.default_is_dir,
        LookupStep::CheckIsDir(_) => world.toolchain_dir_is_dir,
        LookupStep::CheckExists(_) => world.driver_exists,
        LookupStep::CheckVersion => world.driver_outdated,
        _ => true,
    }
}

/// The world after `step` succeeded in `world`: a created directory is one,
/// and a built driver exists and is current (see
/// `version::lemma_same_version_is_current`).
pub open spec fn world_after(world: World, step: LookupStep) -> World {
    match step {
        LookupStep::CreateDir(Location::DefaultDir) => World { default_is_dir: true, ..world },
        LookupStep::CreateDir(_) => World { toolchain_dir_is_dir: true, ..world },
        LookupStep::Build => World { driver_exists: true, driver_outdated: false, ..world },
        _ => world,
    }
}

/// Whether `step` changes the file system.
pub open spec fn writes(step: LookupStep) -> bool {
    step is CreateDir || step is WriteReadme || step is Build
}

/// The step that a lookup in `state` asks for.
pub open spec fn step_of(state: LookupState) -> LookupStep {
    match state {
        LookupState::AwaitVar => LookupStep::ReadDriverPathVar,
        LookupState::AwaitOverrideIsDir => LookupStep::CheckIsDir(Location::OverrideDir),
        LookupState::AwaitHome => LookupStep::FindHome,
        LookupState::AwaitDefaultIsDir => LookupStep::CheckIsDir(Location::DefaultDir),
        LookupState::AwaitDefaultCreated => LookupStep::CreateDir(Location::DefaultDir),
        LookupState::AwaitReadme => LookupStep::WriteReadme,
        LookupState::AwaitToolchainDirIsDir(d) => LookupStep::CheckIsDir(Location::ToolchainDir(d)),
        LookupState::AwaitToolchainDirCreated(d) => LookupStep::CreateDir(Location::ToolchainDir(d)),
        LookupState::AwaitDriverExists(d) => LookupStep::CheckExists(Location::Driver(d)),
        LookupState::AwaitVersion(_) => LookupStep::CheckVersion,
        LookupState::AwaitBuild(_) => LookupStep::Build,
        LookupState::Finished(d) => LookupStep::Finish(d),
        LookupState::Failed(e) => LookupStep::Fail(e),
    }
}

/// Each state asks for one fixed step: the step that comes with a state is
/// always the one that state asks for, from the start on.
pub proof fn lemma_state_fixes_step(state: LookupState, answer: bool)
    ensures
        next_spec(state, answer).1 == step_of(next_spec(state, answer).0),
        start_state() == LookupState::AwaitVar && step_of(start_state())
            == LookupStep::ReadDriverPathVar,
{
}

/// A lookup from `state` run against `world` for at most `fuel` answers: its
/// last state, the world after it, and whether it changed the file system.
pub open spec fn drive(state: LookupState, world: World, fuel: nat) -> (LookupState, World, bool)
    decreases fuel,
{
    if fuel == 0 || is_done(state) {
        (state, world, false)
    } else {
        let step = step_of(state);
        let rest = drive(
            next_spec(state, world_answer(world, step)).0,
            world_after(world, step),
            (fuel - 1) as nat,
        );
        (rest.0, rest.1, rest.2 || writes(step))
    }
}

/// A whole lookup against `world`.
pub open spec fn lookup_in(world: World) -> (LookupState, World, bool) {
    drive(start_state(), world, 10)
}

/// Whether the drivers directory `d` is, in `world`, the one to use and in place.
pub open spec fn dir_ready(d: DriversDir, world: World) -> bool {
    match d {
        DriversDir::Override => world.var_set && world.override_is_dir,
        DriversDir::Default => !world.var_set && world.home_found && world.default_is_dir,
    }
}

/// What a lookup in `state` has learnt of `world` and made true in it.
pub open spec fn settled_so_far(state: LookupState, world: World) -> bool {
    match state {
        LookupState::AwaitVar => true,
        LookupState::AwaitOverrideIsDir => world.var_set,
        LookupState::AwaitHome => !world.var_set,
        LookupState::AwaitDefaultIsDir => !world.var_set && world.home_found,
        LookupState::AwaitDefaultCreated => !world.var_set && world.home_found,
        LookupState::AwaitReadme => dir_ready(DriversDir::Default, world),
        LookupState::AwaitToolchainDirIsDir(d) => dir_ready(d, world),
        LookupState::AwaitToolchainDirCreated(d) => dir_ready(d, world),
        LookupState::AwaitDriverExists(d) => dir_ready(d, world) && world.toolchain_dir_is_dir,
        LookupState::AwaitVersion(d) => dir_ready(d, world) && world.toolchain_dir_is_dir
            && world.driver_exists,
        LookupState::AwaitBuild(d) => dir_ready(d, world) && world.toolchain_dir_is_dir,
        LookupState::Finished(d) => dir_ready(d, world) && world.toolchain_dir_is_dir
            && world.driver_exists && !world.driver_outdated,
        LookupState::Failed(_) => true,
    }
}

proof fn lemma_drive_keeps_settled(state: LookupState, world: World, fuel: nat)
    requires
        settled_so_far(state, world),
    ensures
        settled_so_far(drive(state, world, fuel).0, drive(state, world, fuel).1),
    decreases fuel,
{
    if fuel > 0 && !is_done(state) {
        let step = step_of(state);
        lemma_drive_keeps_settled(
            next_spec(state, world_answer(world, step)).0,
            world_after(world, step),
            (fuel - 1) as nat,
        );
    }
}

proof fn lemma_drive_done(state: LookupState, world: World, fuel: nat)
    requires
        is_done(state),
    ensures
        drive(state, world, fuel) == (state, world, false),
{
}

/// A lookup that found (or built) the driver, repeated in the world it left,
/// finds the same driver again and changes nothing: it neither creates a
/// directory, nor writes the README, nor builds.
pub proof fn lemma_second_lookup_repeats(world: World)
    requires
        lookup_in(world).0 is Finished,
    ensures
        lookup_in(lookup_in(world).1).0 == lookup_in(world).0,
        !lookup_in(lookup_in(world).1).2,
{
    let first = lookup_in(world);
    let w = first.1;
    lemma_drive_keeps_settled(start_state(), world, 10);
    let d = first.0->Finished_0;
    assert(settled_so_far(LookupState::Finished(d), w));
    if w.var_set {
        assert(d == DriversDir::Override);
        assert(drive(LookupState::AwaitVar, w, 10) == drive(LookupState::AwaitOverrideIsDir, w, 9));
        assert(drive(LookupState::AwaitOverrideIsDir, w, 9) == drive(
            LookupState::AwaitToolchainDirIsDir(d),
            w,
            8,
        ));
        assert(drive(LookupState::AwaitToolchainDirIsDir(d), w, 8) == drive(
            LookupState::AwaitDriverExists(d),
            w,
            7,
        ));
        assert(drive(LookupState::AwaitDriverExists(d), w, 7) == drive(
            LookupState::AwaitVersion(d),
            w,
            6,
        ));
        assert(drive(LookupState::AwaitVersion(d), w, 6) == drive(LookupState::Finished(d), w, 5));
        lemma_drive_done(LookupState::Finished(d), w, 5);
    } else {
        assert(d == DriversDir::Default);
        assert(drive(LookupState::AwaitVar, w, 10) == drive(LookupState::AwaitHome, w, 9));
        assert(drive(LookupState::AwaitHome, w, 9) == drive(LookupState::AwaitDefaultIsDir, w, 8));
        assert(drive(LookupState::AwaitDefaultIsDir, w, 8) == drive(
            LookupState::AwaitToolchainDirIsDir(d),
            w,
            7,
        ));
        assert(drive(LookupState::AwaitToolchainDirIsDir(d), w, 7) == drive(
            LookupState::AwaitDriverExists(d),
            w,
            6,
        ));
        assert(drive(LookupState::AwaitDriverExists(d), w, 6) == drive(
            LookupState::AwaitVersion(d),
            w,
            5,
        ));
        assert(drive(LookupState::AwaitVersion(d), w, 5) == drive(LookupState::Finished(d), w, 4));
        lemma_drive_done(LookupState::Finished(d), w, 4);
    }
}


// ---------------------------------------------------------------------------
// Where the drivers lie
// ---------------------------------------------------------------------------

/// The location of the drivers directory `d`.
pub open spec fn drivers_location(d: DriversDir) -> Location {
    match d {
        DriversDir::Override => Location::OverrideDir,
        DriversDir::Default => Location::DefaultDir,
    }
}

/// The drivers directories: the one the driver path variable names is that
/// directory itself; the default one is `.dynlint_drivers` in the home
/// directory.
pub proof fn lemma_drivers_dirs(toolchain: Seq<char>)
    ensures
        location_components(Location::OverrideDir, toolchain) == (
            PathRoot::DriverPathVar,
            Seq::<Seq<char>>::empty(),
        ),
        location_components(Location::DefaultDir, toolchain) == (
            PathRoot::Home,
            seq![DEFAULT_DRIVERS_DIR@],
        ),
{
}

/// A toolchain's directory lies directly in its drivers directory, under the
/// toolchain's own name, and the driver lies directly in the toolchain's
/// directory, for both drivers directories and every toolchain.
pub proof fn lemma_driver_lies_in_toolchain_dir(d: DriversDir, toolchain: Seq<char>)
    ensures
        location_components(Location::ToolchainDir(d), toolchain) == (
            location_components(drivers_location(d), toolchain).0,
            location_components(drivers_location(d), toolchain).1.push(toolchain),
        ),
        location_components(Location::Driver(d), toolchain) == (
            location_components(Location::ToolchainDir(d), toolchain).0,
            location_components(Location::ToolchainDir(d), toolchain).1.push(DRIVER_FILE@),
        ),
{
}

/// Each toolchain has a driver of its own: in a drivers directory, the
/// drivers (and the toolchain directories) of different toolchains are at
/// different paths.
pub proof fn lemma_toolchains_have_own_drivers(d: DriversDir, t1: Seq<char>, t2: Seq<char>)
    requires
        t1 != t2,
    ensures
        location_components(Location::ToolchainDir(d), t1) != location_components(
            Location::ToolchainDir(d),
            t2,
        ),
        location_components(Location::Driver(d), t1) != location_components(
            Location::Driver(d),
            t2,
        ),
{
    let a = location_components(Location::Driver(d), t1).1;
    let b = location_components(Location::Driver(d), t2).1;
    assert(a[a.len() - 2] == t1);
    assert(b[b.len() - 2] == t2);
    let x = location_components(Location::ToolchainDir(d), t1).1;
    let y = location_components(Location::ToolchainDir(d), t2).1;
    assert(x[x.len() - 1] == t1);
    assert(y[y.len() - 1] == t2);
}

} // verus!
