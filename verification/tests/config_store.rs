use std::path::PathBuf;

use vpn_link_handler::config_store::{
    config_path, failure, load, next_step, remove, resolve_path, save, ConfigPath, StoredFile,
};
use vpn_link_handler::error::ConfigError;
use vpn_link_handler::plan::{Location, Step};
use vpn_link_handler::settings::Settings;

fn sample_path() -> ConfigPath {
    config_path(Some(&PathBuf::from("/home/u/.config/linkhandler")), &Settings::standard())
        .unwrap()
}

#[test]
fn config_path_is_the_file_in_the_directory() {
    let path = sample_path();
    assert_eq!(
        path.directory,
        Location { root: PathBuf::from("/home/u/.config/linkhandler"), relative: String::new() }
    );
    assert_eq!(
        path.file,
        Location {
            root: PathBuf::from("/home/u/.config/linkhandler"),
            relative: "proxy_url.txt".to_string()
        }
    );
}

#[test]
fn config_path_without_directory_fails() {
    assert_eq!(config_path(None, &Settings::standard()), Err(ConfigError::PathResolution));
}

#[test]
fn resolve_path_names_the_file_or_fails_to_resolve() {
    let settings = Settings::standard();
    match resolve_path(&settings) {
        Ok(path) => {
            assert_eq!(path.file.relative, "proxy_url.txt");
            assert_eq!(path.directory.relative, "");
            assert_eq!(path.file.root, path.directory.root);
            assert!(path.directory.root.is_absolute());
            assert_eq!(resolve_path(&settings), Ok(path));
        }
        Err(error) => assert_eq!(error, ConfigError::PathResolution),
    }
}

#[test]
fn prepare_creates_the_directory() {
    let path = sample_path();
    assert_eq!(path.prepare(), Step::CreateDirectory { at: path.directory.clone() });
}

#[test]
fn save_writes_the_address_verbatim() {
    let path = sample_path();
    assert_eq!(
        save(&path, " http://10.0.0.5:8001/ \n"),
        vec![Step::WriteFile {
            at: path.file.clone(),
            content: " http://10.0.0.5:8001/ \n".to_string()
        }]
    );
}

#[test]
fn load_trims_the_stored_text() {
    assert_eq!(
        load(StoredFile::Holds("  http://10.0.0.5:8001\n".to_string())),
        Ok("http://10.0.0.5:8001".to_string())
    );
    assert_eq!(load(StoredFile::Holds(String::new())), Ok(String::new()));
}

#[test]
fn load_without_file_is_not_configured() {
    assert_eq!(load(StoredFile::Absent), Err(ConfigError::NotConfigured));
}

#[test]
fn load_failures() {
    assert_eq!(load(StoredFile::Unreadable), Err(ConfigError::Io));
    assert_eq!(load(StoredFile::Unresolved), Err(ConfigError::PathResolution));
}

#[test]
fn save_then_load_round_trip() {
    let path = sample_path();
    for url in ["http://10.0.0.5:8001", " http://h:1 ", "\thttp://h/\r\n", "x", "a b"] {
        let steps = save(&path, url);
        assert_eq!(steps.len(), 1);
        let written = match &steps[0] {
            Step::WriteFile { at, content } => {
                assert_eq!(at, &path.file);
                content.clone()
            }
            other => panic!("unexpected step {other:?}"),
        };
        assert_eq!(load(StoredFile::Holds(written)), Ok(url.trim().to_string()));
    }
}

#[test]
fn remove_deletes_file_then_directory() {
    let path = sample_path();
    assert_eq!(
        remove(&path, true),
        vec![
            Step::RemoveFile { at: path.file.clone() },
            Step::RemoveEmptyDirectory { at: path.directory.clone() },
        ]
    );
}

#[test]
fn remove_of_absent_file_does_nothing() {
    assert_eq!(remove(&sample_path(), false), Vec::<Step>::new());
}

#[test]
fn failed_directory_removal_is_no_error() {
    let path = sample_path();
    let steps = remove(&path, true);
    assert_eq!(failure(&steps[0]), Some(ConfigError::Io));
    assert_eq!(failure(&steps[1]), None);
    assert_eq!(failure(&path.prepare()), Some(ConfigError::Io));
    assert_eq!(failure(&save(&path, "x")[0]), Some(ConfigError::Io));
}

#[test]
fn remove_twice_in_a_row_never_fails() {
    let path = sample_path();
    let first = remove(&path, true);
    assert!(first.iter().any(|step| *step == Step::RemoveFile { at: path.file.clone() }));
    let second = remove(&path, false);
    assert!(second.is_empty());
    assert!(second.iter().all(|step| failure(step).is_none()));
    let never_configured = remove(&path, false);
    assert!(never_configured.is_empty());
}

#[test]
fn store_plans_end_at_the_first_failed_required_step() {
    let path = sample_path();
    let removal = remove(&path, true);
    assert_eq!(next_step(&removal, &vec![]), Ok(Some(0)));
    assert_eq!(next_step(&removal, &vec![false]), Ok(Some(1)));
    assert_eq!(next_step(&removal, &vec![false, false]), Ok(None));
    assert_eq!(next_step(&removal, &vec![false, true]), Ok(None));
    assert_eq!(next_step(&removal, &vec![true]), Err(ConfigError::Io));
    assert_eq!(next_step(&save(&path, "x"), &vec![true]), Err(ConfigError::Io));
    assert_eq!(next_step(&vec![path.prepare()], &vec![true]), Err(ConfigError::Io));
    assert_eq!(next_step(&remove(&path, false), &vec![]), Ok(None));
}
