use dynlint::lookup::{next_step, start, DriversDir, Location, LookupError, LookupState, LookupStep};

/// Runs a lookup on the given answers and returns every step asked for.
fn steps(answers: &[bool]) -> Vec<LookupStep> {
    let (mut state, mut step) = start();
    let mut out = vec![step];
    for &a in answers {
        let r: (LookupState, LookupStep) = next_step(state, a);
        state = r.0;
        step = r.1;
        out.push(step);
    }
    out
}

#[test]
fn current_driver_under_override() {
    assert_eq!(
        steps(&[true, true, true, true, false]),
        vec![
            LookupStep::ReadDriverPathVar,
            LookupStep::CheckIsDir(Location::OverrideDir),
            LookupStep::CheckIsDir(Location::ToolchainDir(DriversDir::Override)),
            LookupStep::CheckExists(Location::Driver(DriversDir::Override)),
            LookupStep::CheckVersion,
            LookupStep::Finish(DriversDir::Override),
        ]
    );
}

#[test]
fn override_that_is_not_a_directory_fails() {
    assert_eq!(
        steps(&[true, false]).last(),
        Some(&LookupStep::Fail(LookupError::OverrideNotADirectory))
    );
}

#[test]
fn first_use_creates_everything_and_builds() {
    assert_eq!(
        steps(&[false, true, false, true, true, false, true, false, true]),
        vec![
            LookupStep::ReadDriverPathVar,
            LookupStep::FindHome,
            LookupStep::CheckIsDir(Location::DefaultDir),
            LookupStep::CreateDir(Location::DefaultDir),
            LookupStep::WriteReadme,
            LookupStep::CheckIsDir(Location::ToolchainDir(DriversDir::Default)),
            LookupStep::CreateDir(Location::ToolchainDir(DriversDir::Default)),
            LookupStep::CheckExists(Location::Driver(DriversDir::Default)),
            LookupStep::Build,
            LookupStep::Finish(DriversDir::Default),
        ]
    );
}

#[test]
fn outdated_driver_is_rebuilt() {
    let s = steps(&[false, true, true, true, true, true, true]);
    assert_eq!(s[5], LookupStep::CheckVersion);
    assert_eq!(s[6], LookupStep::Build);
    assert_eq!(s[7], LookupStep::Finish(DriversDir::Default));
}

#[test]
fn failures_stop_the_lookup() {
    assert_eq!(steps(&[false, false]).last(), Some(&LookupStep::Fail(LookupError::HomeNotFound)));
    assert_eq!(
        steps(&[false, true, false, false]).last(),
        Some(&LookupStep::Fail(LookupError::CreateDirFailed(Location::DefaultDir)))
    );
    assert_eq!(
        steps(&[false, true, false, true, false]).last(),
        Some(&LookupStep::Fail(LookupError::WriteReadmeFailed))
    );
    assert_eq!(
        steps(&[true, true, false, false]).last(),
        Some(&LookupStep::Fail(LookupError::CreateDirFailed(Location::ToolchainDir(
            DriversDir::Override
        ))))
    );
    assert_eq!(
        steps(&[true, true, true, false, false]).last(),
        Some(&LookupStep::Fail(LookupError::BuildFailed))
    );
}

#[test]
fn finished_lookup_stays_finished() {
    let s = steps(&[true, true, true, true, false, true, false, true]);
    assert_eq!(s[5..], [LookupStep::Finish(DriversDir::Override); 4]);
}

#[test]
fn every_lookup_ends_within_ten_answers() {
    for bits in 0u32..1024 {
        let answers: Vec<bool> = (0..10).map(|i| bits & (1 << i) != 0).collect();
        let last = *steps(&answers).last().unwrap();
        assert!(matches!(last, LookupStep::Finish(_) | LookupStep::Fail(_)));
    }
}

use dynlint::lookup::{location_path, readme_path, PathRoot};

#[test]
fn locations_resolve_to_components() {
    let p = location_path(Location::OverrideDir, "nightly");
    assert_eq!(p.root, PathRoot::DriverPathVar);
    assert!(p.components.is_empty());
    let p = location_path(Location::DefaultDir, "nightly");
    assert_eq!(p.root, PathRoot::Home);
    assert_eq!(p.components, vec![".dynlint_drivers"]);
    let p = location_path(Location::ToolchainDir(DriversDir::Override), "nightly");
    assert_eq!(p.root, PathRoot::DriverPathVar);
    assert_eq!(p.components, vec!["nightly"]);
    let p = location_path(Location::Driver(DriversDir::Default), "nightly");
    assert_eq!(p.root, PathRoot::Home);
    assert_eq!(p.components, vec![".dynlint_drivers", "nightly", "dynlint-driver"]);
    let p = readme_path();
    assert_eq!(p.root, PathRoot::Home);
    assert_eq!(p.components, vec![".dynlint_drivers", "README.txt"]);
}

#[test]
fn lookup_errors_have_messages() {
    assert_eq!(
        LookupError::HomeNotFound.message("").as_deref(),
        Some("Could not find HOME directory")
    );
    assert_eq!(
        LookupError::OverrideNotADirectory.message("").as_deref(),
        Some("Condition failed: `dynlint_drivers.is_dir()`")
    );
    assert_eq!(
        LookupError::CreateDirFailed(Location::DefaultDir).message("/h/.dynlint_drivers").as_deref(),
        Some("`create_dir_all` failed for `/h/.dynlint_drivers`")
    );
    assert_eq!(
        LookupError::WriteReadmeFailed.message("/h/.dynlint_drivers/README.txt").as_deref(),
        Some("`write` failed for `/h/.dynlint_drivers/README.txt`")
    );
    assert_eq!(LookupError::BuildFailed.message("/x"), None);
}
