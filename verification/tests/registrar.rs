use std::path::PathBuf;

use vpn_link_handler::error::RegistrationError;
use vpn_link_handler::plan::{Location, Step};
use vpn_link_handler::registrar::{
    failure, install_handler, linux_install_steps, linux_uninstall_steps, macos_install_steps,
    macos_uninstall_steps, next_step, plan_install, plan_uninstall, uninstall_handler,
    user_directory,
    windows_install_steps, windows_uninstall_steps, Platform,
};
use vpn_link_handler::settings::Settings;

const LSREGISTER: &str = "/System/Library/Frameworks/CoreServices.framework/Frameworks/LaunchServices.framework/Support/lsregister";

const PLIST: &str = r#"<?xml version="1.0" encoding="UTF-8"?>
<!DOCTYPE plist PUBLIC "-//Apple//DTD PLIST 1.0//EN" "http://www.apple.com/DTDs/PropertyList-1.0.dtd">
<plist version="1.0">
<dict>
    <key>CFBundleExecutable</key>
    <string>vpn-link-handler</string>
    <key>CFBundleIdentifier</key>
    <string>com.gpproxy.linkhandler</string>
    <key>CFBundleName</key>
    <string>VPN Link Handler</string>
    <key>CFBundleDisplayName</key>
    <string>VPN Link Handler</string>
    <key>CFBundleURLTypes</key>
    <array>
        <dict>
            <key>CFBundleURLName</key>
            <string>VPN Login Link</string>
            <key>CFBundleURLSchemes</key>
            <array>
                <string>globalprotect</string>
            </array>
        </dict>
    </array>
</dict>
</plist>"#;

fn dir(path: &str) -> PathBuf {
    PathBuf::from(path)
}

fn place(root: &str, relative: &str) -> Location {
    Location { root: dir(root), relative: relative.to_string() }
}

fn lsregister(home: &str) -> Step {
    Step::RunHelper {
        program: LSREGISTER.to_string(),
        arguments: vec!["-f".to_string()],
        target: Some(place(home, "Applications/VPN Link Handler.app")),
        required: false,
    }
}

#[test]
fn windows_install_writes_protocol_and_command() {
    let steps = windows_install_steps(&Settings::standard(), "C:\\Program Files\\h.exe");
    assert_eq!(
        steps,
        vec![
            Step::SetRegistryValue {
                key: "Software\\Classes\\globalprotect".to_string(),
                name: String::new(),
                value: "URL:VPN Link Handler Protocol".to_string(),
            },
            Step::SetRegistryValue {
                key: "Software\\Classes\\globalprotect".to_string(),
                name: "URL Protocol".to_string(),
                value: String::new(),
            },
            Step::SetRegistryValue {
                key: "Software\\Classes\\globalprotect\\shell\\open\\command".to_string(),
                name: String::new(),
                value: "\"C:\\Program Files\\h.exe\" \"%1\"".to_string(),
            },
        ]
    );
}

#[test]
fn windows_uninstall_deletes_the_subtree() {
    assert_eq!(
        windows_uninstall_steps(&Settings::standard()),
        vec![Step::DeleteRegistryTree { key: "Software\\Classes\\globalprotect".to_string() }]
    );
}

#[test]
fn linux_install_writes_entry_and_sets_default() {
    let steps =
        linux_install_steps(&Settings::standard(), "/opt/vpn/handler", &dir("/home/u/.local/share"));
    assert_eq!(
        steps,
        vec![
            Step::CreateDirectory { at: place("/home/u/.local/share", "applications") },
            Step::WriteFile {
                at: place("/home/u/.local/share", "applications/vpn-link-handler.desktop"),
                content: "[Desktop Entry]\nType=Application\nName=VPN Link Handler\nExec=/opt/vpn/handler %u\nStartupNotify=false\nMimeType=x-scheme-handler/globalprotect;\n"
                    .to_string(),
            },
            Step::RunHelper {
                program: "xdg-mime".to_string(),
                arguments: vec![
                    "default".to_string(),
                    "vpn-link-handler.desktop".to_string(),
                    "x-scheme-handler/globalprotect".to_string(),
                ],
                target: None,
                required: true,
            },
        ]
    );
}

#[test]
fn linux_uninstall_removes_entry_and_refreshes() {
    assert_eq!(
        linux_uninstall_steps(&Settings::standard(), &dir("/home/u/.local/share")),
        vec![
            Step::RemoveFile {
                at: place("/home/u/.local/share", "applications/vpn-link-handler.desktop")
            },
            Step::RunHelper {
                program: "update-desktop-database".to_string(),
                arguments: Vec::new(),
                target: Some(place("/home/u/.local/share", "applications")),
                required: false,
            },
        ]
    );
}

#[test]
fn macos_install_builds_the_bundle() {
    assert_eq!(
        macos_install_steps(&Settings::standard(), &dir("/Users/u")),
        vec![
            Step::CreateDirectory {
                at: place("/Users/u", "Applications/VPN Link Handler.app/Contents/MacOS")
            },
            Step::CopyExecutable {
                to: place(
                    "/Users/u",
                    "Applications/VPN Link Handler.app/Contents/MacOS/vpn-link-handler"
                )
            },
            Step::WriteFile {
                at: place("/Users/u", "Applications/VPN Link Handler.app/Contents/Info.plist"),
                content: PLIST.to_string(),
            },
            lsregister("/Users/u"),
        ]
    );
}

#[test]
fn macos_uninstall_removes_the_bundle() {
    assert_eq!(
        macos_uninstall_steps(&Settings::standard(), &dir("/Users/u")),
        vec![
            Step::RemoveTree { at: place("/Users/u", "Applications/VPN Link Handler.app") },
            lsregister("/Users/u"),
        ]
    );
}

#[test]
fn plans_follow_the_settings() {
    let mut settings = Settings::standard();
    settings.scheme = "acme".to_string();
    settings.app_name = "Acme".to_string();
    settings.binary_name = "acme-bin".to_string();
    assert_eq!(
        windows_uninstall_steps(&settings),
        vec![Step::DeleteRegistryTree { key: "Software\\Classes\\acme".to_string() }]
    );
    assert_eq!(
        linux_uninstall_steps(&settings, &dir("/d"))[0],
        Step::RemoveFile { at: place("/d", "applications/acme-bin.desktop") }
    );
    assert_eq!(
        macos_uninstall_steps(&settings, &dir("/h"))[0],
        Step::RemoveTree { at: place("/h", "Applications/Acme.app") }
    );
}

#[test]
fn install_needs_the_executable() {
    let settings = Settings::standard();
    for platform in [Platform::Windows, Platform::Linux, Platform::MacOs] {
        assert_eq!(
            plan_install(platform, &settings, None, Some(&dir("/d"))),
            Err(RegistrationError::ExecutableUnknown)
        );
        assert_eq!(
            plan_install(platform, &settings, None, None),
            Err(RegistrationError::ExecutableUnknown)
        );
    }
}

#[test]
fn install_needs_the_user_directory_except_on_windows() {
    let settings = Settings::standard();
    assert_eq!(
        plan_install(Platform::Linux, &settings, Some("/e"), None),
        Err(RegistrationError::NoUserDirectory)
    );
    assert_eq!(
        plan_install(Platform::MacOs, &settings, Some("/e"), None),
        Err(RegistrationError::NoUserDirectory)
    );
    assert_eq!(
        plan_install(Platform::Windows, &settings, Some("e"), None),
        Ok(windows_install_steps(&settings, "e"))
    );
}

#[test]
fn plan_install_picks_the_platform() {
    let settings = Settings::standard();
    assert_eq!(
        plan_install(Platform::Linux, &settings, Some("/e"), Some(&dir("/d"))),
        Ok(linux_install_steps(&settings, "/e", &dir("/d")))
    );
    assert_eq!(
        plan_install(Platform::MacOs, &settings, Some("/e"), Some(&dir("/h"))),
        Ok(macos_install_steps(&settings, &dir("/h")))
    );
    assert_eq!(
        plan_install(Platform::Windows, &settings, Some("e"), Some(&dir("/d"))),
        Ok(windows_install_steps(&settings, "e"))
    );
}

#[test]
fn plan_uninstall_picks_the_platform() {
    let settings = Settings::standard();
    assert_eq!(
        plan_uninstall(Platform::Windows, &settings, None),
        Ok(windows_uninstall_steps(&settings))
    );
    assert_eq!(
        plan_uninstall(Platform::Linux, &settings, Some(&dir("/d"))),
        Ok(linux_uninstall_steps(&settings, &dir("/d")))
    );
    assert_eq!(
        plan_uninstall(Platform::MacOs, &settings, Some(&dir("/h"))),
        Ok(macos_uninstall_steps(&settings, &dir("/h")))
    );
    assert_eq!(
        plan_uninstall(Platform::Linux, &settings, None),
        Err(RegistrationError::NoUserDirectory)
    );
    assert_eq!(
        plan_uninstall(Platform::MacOs, &settings, None),
        Err(RegistrationError::NoUserDirectory)
    );
}

#[test]
fn windows_handler_needs_no_lookup() {
    let settings = Settings::standard();
    assert_eq!(user_directory(Platform::Windows), None);
    assert_eq!(
        install_handler(Platform::Windows, &settings, Some("e")),
        Ok(windows_install_steps(&settings, "e"))
    );
    assert_eq!(
        uninstall_handler(Platform::Windows, &settings),
        Ok(windows_uninstall_steps(&settings))
    );
}

#[test]
fn handler_plans_rest_on_the_directory_that_the_host_names() {
    let settings = Settings::standard();
    for platform in [Platform::Linux, Platform::MacOs] {
        let named = user_directory(platform);
        assert_eq!(
            install_handler(platform, &settings, Some("/e")),
            plan_install(platform, &settings, Some("/e"), named.as_ref())
        );
        assert_eq!(
            uninstall_handler(platform, &settings),
            plan_uninstall(platform, &settings, named.as_ref())
        );
        if let Some(named) = named {
            assert!(named.is_absolute());
        }
    }
}

#[test]
fn install_then_uninstall_removes_what_was_written() {
    let settings = Settings::standard();
    let written = match &linux_install_steps(&settings, "/e", &dir("/d"))[1] {
        Step::WriteFile { at, .. } => at.clone(),
        other => panic!("unexpected step {other:?}"),
    };
    assert_eq!(linux_uninstall_steps(&settings, &dir("/d"))[0], Step::RemoveFile { at: written });

    let bundle = match &macos_uninstall_steps(&settings, &dir("/h"))[0] {
        Step::RemoveTree { at } => at.clone(),
        other => panic!("unexpected step {other:?}"),
    };
    for step in macos_install_steps(&settings, &dir("/h")) {
        let at = match step {
            Step::CreateDirectory { at } => at,
            Step::CopyExecutable { to } => to,
            Step::WriteFile { at, .. } => at,
            Step::RunHelper { .. } => continue,
            other => panic!("unexpected step {other:?}"),
        };
        assert_eq!(at.root, bundle.root);
        assert!(at.relative.starts_with(&format!("{}/", bundle.relative)));
    }

    let subtree = match &windows_uninstall_steps(&settings)[0] {
        Step::DeleteRegistryTree { key } => key.clone(),
        other => panic!("unexpected step {other:?}"),
    };
    for step in windows_install_steps(&settings, "e") {
        match step {
            Step::SetRegistryValue { key, .. } => {
                assert!(key == subtree || key.starts_with(&format!("{subtree}\\")))
            }
            other => panic!("unexpected step {other:?}"),
        }
    }
}

#[test]
fn failure_of_each_kind_of_step() {
    let at = place("/r", "x");
    assert_eq!(
        failure(&Step::CreateDirectory { at: at.clone() }),
        Some(RegistrationError::WriteFailed)
    );
    assert_eq!(
        failure(&Step::WriteFile { at: at.clone(), content: String::new() }),
        Some(RegistrationError::WriteFailed)
    );
    assert_eq!(
        failure(&Step::CopyExecutable { to: at.clone() }),
        Some(RegistrationError::WriteFailed)
    );
    assert_eq!(
        failure(&Step::SetRegistryValue {
            key: "k".to_string(),
            name: String::new(),
            value: String::new()
        }),
        Some(RegistrationError::WriteFailed)
    );
    assert_eq!(
        failure(&Step::RemoveFile { at: at.clone() }),
        Some(RegistrationError::DeleteFailed)
    );
    assert_eq!(
        failure(&Step::RemoveTree { at: at.clone() }),
        Some(RegistrationError::DeleteFailed)
    );
    assert_eq!(
        failure(&Step::DeleteRegistryTree { key: "k".to_string() }),
        Some(RegistrationError::DeleteFailed)
    );
    assert_eq!(failure(&Step::RemoveEmptyDirectory { at: at.clone() }), None);
}

#[test]
fn only_the_mime_helper_must_start() {
    let settings = Settings::standard();
    assert_eq!(
        failure(&linux_install_steps(&settings, "/e", &dir("/d"))[2]),
        Some(RegistrationError::WriteFailed)
    );
    assert_eq!(failure(&linux_uninstall_steps(&settings, &dir("/d"))[1]), None);
    assert_eq!(failure(&macos_install_steps(&settings, &dir("/h"))[3]), None);
    assert_eq!(failure(&macos_uninstall_steps(&settings, &dir("/h"))[1]), None);
}

#[test]
fn plan_is_taken_step_by_step() {
    let steps = linux_install_steps(&Settings::standard(), "/e", &dir("/d"));
    assert_eq!(next_step(&steps, &vec![]), Ok(Some(0)));
    assert_eq!(next_step(&steps, &vec![false]), Ok(Some(1)));
    assert_eq!(next_step(&steps, &vec![false, false]), Ok(Some(2)));
    assert_eq!(next_step(&steps, &vec![false, false, false]), Ok(None));
    assert_eq!(next_step(&Vec::new(), &vec![]), Ok(None));
}

#[test]
fn first_failed_required_step_ends_the_plan() {
    let settings = Settings::standard();
    let install = linux_install_steps(&settings, "/e", &dir("/d"));
    assert_eq!(next_step(&install, &vec![true]), Err(RegistrationError::WriteFailed));
    assert_eq!(next_step(&install, &vec![false, true]), Err(RegistrationError::WriteFailed));
    assert_eq!(next_step(&install, &vec![false, false, true]), Err(RegistrationError::WriteFailed));
    let uninstall = linux_uninstall_steps(&settings, &dir("/d"));
    assert_eq!(next_step(&uninstall, &vec![true]), Err(RegistrationError::DeleteFailed));
    assert_eq!(
        next_step(&macos_uninstall_steps(&settings, &dir("/h")), &vec![true]),
        Err(RegistrationError::DeleteFailed)
    );
    assert_eq!(
        next_step(&windows_uninstall_steps(&settings), &vec![true]),
        Err(RegistrationError::DeleteFailed)
    );
    assert_eq!(
        next_step(&windows_install_steps(&settings, "e"), &vec![false, false, true]),
        Err(RegistrationError::WriteFailed)
    );
}

#[test]
fn failed_helper_that_may_fail_does_not_end_the_plan() {
    let settings = Settings::standard();
    assert_eq!(next_step(&linux_uninstall_steps(&settings, &dir("/d")), &vec![false, true]), Ok(None));
    assert_eq!(
        next_step(&macos_install_steps(&settings, &dir("/h")), &vec![false, false, false, true]),
        Ok(None)
    );
    assert_eq!(next_step(&macos_uninstall_steps(&settings, &dir("/h")), &vec![false, true]), Ok(None));
}
