use std::path::PathBuf;

use vpn_link_handler::plan::{first_failure, Location, Step};
use vpn_link_handler::settings::Settings;

#[test]
fn location_new_is_the_directory_itself() {
    assert_eq!(
        Location::new(&PathBuf::from("/home/u")),
        Location { root: PathBuf::from("/home/u"), relative: String::new() }
    );
}

#[test]
fn location_join_separates_with_slash() {
    let base = Location::new(&PathBuf::from("/home/u"));
    let first = base.join("Applications");
    assert_eq!(first.root, PathBuf::from("/home/u"));
    assert_eq!(first.relative, "Applications");
    assert_eq!(first.join("X.app").relative, "Applications/X.app");
    assert_eq!(first.join("X.app").join("Contents").relative, "Applications/X.app/Contents");
}

#[test]
fn clone_location_copies() {
    let at = Location::new(&PathBuf::from("/r")).join("a");
    assert_eq!(at.clone_location(), at);
}

#[test]
fn required_steps() {
    let at = Location::new(&PathBuf::from("/r"));
    assert!(Step::CreateDirectory { at: at.clone() }.required());
    assert!(Step::WriteFile { at: at.clone(), content: String::new() }.required());
    assert!(Step::CopyExecutable { to: at.clone() }.required());
    assert!(Step::RemoveFile { at: at.clone() }.required());
    assert!(Step::RemoveTree { at: at.clone() }.required());
    assert!(Step::DeleteRegistryTree { key: String::new() }.required());
    assert!(Step::SetRegistryValue {
        key: String::new(),
        name: String::new(),
        value: String::new()
    }
    .required());
    assert!(!Step::RemoveEmptyDirectory { at: at.clone() }.required());
    let helper = |required| Step::RunHelper {
        program: "p".to_string(),
        arguments: Vec::new(),
        target: None,
        required,
    };
    assert!(helper(true).required());
    assert!(!helper(false).required());
}

#[test]
fn standard_settings() {
    let s = Settings::standard();
    assert_eq!(s.discovery_port, 32800);
    assert_eq!(s.discovery_message, "GP_DISCOVER");
    assert_eq!(s.receive_timeout_ms, 1500);
    assert_eq!(s.reply_capacity, 1024);
    assert_eq!(s.proxy_port, 8001);
    assert_eq!(s.scheme, "globalprotect");
    assert_eq!(s.app_name, "VPN Link Handler");
    assert_eq!(s.binary_name, "vpn-link-handler");
    assert_eq!(s.config_file_name, "proxy_url.txt");
    assert_eq!(s.qualifier, "com");
    assert_eq!(s.organization, "gpproxy");
    assert_eq!(s.application, "linkhandler");
}

#[test]
fn first_failure_is_the_first_required_step_that_failed() {
    let at = Location::new(&PathBuf::from("/r"));
    let steps = vec![
        Step::RemoveEmptyDirectory { at: at.clone() },
        Step::RemoveFile { at: at.clone() },
        Step::WriteFile { at: at.clone(), content: String::new() },
    ];
    assert_eq!(first_failure(&steps, &vec![]), None);
    assert_eq!(first_failure(&steps, &vec![false, false, false]), None);
    assert_eq!(first_failure(&steps, &vec![true]), None);
    assert_eq!(first_failure(&steps, &vec![true, false, false]), None);
    assert_eq!(first_failure(&steps, &vec![true, true]), Some(1));
    assert_eq!(first_failure(&steps, &vec![false, true, true]), Some(1));
    assert_eq!(first_failure(&steps, &vec![false, false, true]), Some(2));
    assert_eq!(first_failure(&steps, &vec![false, false, false, true]), None);
    assert_eq!(first_failure(&Vec::new(), &vec![true]), None);
}
