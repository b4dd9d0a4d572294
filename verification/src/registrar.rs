//! Registration of this executable as the handler of the URL scheme, on
//! Windows, Linux and macOS.
//!
//! Each platform keeps the association in its own form: a registry subtree,
//! a desktop entry with a MIME default, or an application bundle known to
//! Launch Services. For each, the registrar says which steps install it and
//! which remove it.

use std::path::PathBuf;
use vstd::prelude::*;
use crate::error::RegistrationError;
use crate::host;
use crate::plan::{
    at_root,
    ending,
    entry,
    fails_at,
    first_failure,
    is_required,
    next_position,
    optional_path,
    turn_view,
    Location,
    LocationView,
    Step,
    StepView,
};
use crate::settings::{Settings, SettingsView};

verus! {

/// The platforms on which the handler can be registered.
#[derive(Clone, Copy, Debug, PartialEq, Eq, Structural)]
pub enum Platform {
    Windows,
    Linux,
    MacOs,
}

/// The registry key, below the current user's root, under which schemes are declared.
pub const CLASSES_KEY: &'static str = "Software\\Classes\\";

/// The key, below that of a scheme, that holds the command to open a link.
pub const COMMAND_SUBKEY: &'static str = "\\shell\\open\\command";

/// What precedes the name of the tool in the protocol declaration.
pub const DESCRIPTION_HEAD: &'static str = "URL:";

/// What follows the name of the tool in the protocol declaration.
pub const DESCRIPTION_TAIL: &'static str = " Protocol";

/// The registry value whose presence marks a key as a URL protocol.
pub const PROTOCOL_MARK: &'static str = "URL Protocol";

/// The quotation mark that opens the command line.
pub const COMMAND_OPEN: &'static str = "\"";

/// What follows the executable in the command line: the link, as first argument.
pub const COMMAND_TAIL: &'static str = "\" \"%1\"";

/// The directory, below the user's local data directory, that holds desktop entries.
pub const APPLICATIONS_DIRECTORY: &'static str = "applications";

/// The extension of a desktop entry.
pub const DESKTOP_SUFFIX: &'static str = ".desktop";

/// What precedes the scheme in its MIME type.
pub const MIME_PREFIX: &'static str = "x-scheme-handler/";

/// The desktop entry up to the name of the tool.
pub const ENTRY_HEAD: &'static str = "[Desktop Entry]\nType=Application\nName=";

/// The desktop entry between the name of the tool and the executable.
pub const ENTRY_EXEC: &'static str = "\nExec=";

/// The desktop entry between the executable and the MIME type.
pub const ENTRY_MIME: &'static str = " %u\nStartupNotify=false\nMimeType=";

/// The end of the desktop entry.
pub const ENTRY_END: &'static str = ";\n";

/// The helper that sets the default handler of a MIME type.
pub const MIME_HELPER: &'static str = "xdg-mime";

/// The first argument of that helper.
pub const MIME_HELPER_VERB: &'static str = "default";

/// The helper that refreshes the database of desktop entries.
pub const DESKTOP_DATABASE_HELPER: &'static str = "update-desktop-database";

/// The directory, below the user's home, that holds the user's applications.
pub const USER_APPLICATIONS: &'static str = "Applications";

/// The extension of an application bundle.
pub const BUNDLE_SUFFIX: &'static str = ".app";

/// The directory of a bundle that holds all of it.
pub const BUNDLE_CONTENTS: &'static str = "Contents";

/// The directory, below the contents, that holds the executable.
pub const BUNDLE_BINARIES: &'static str = "MacOS";

/// The file, below the contents, that describes the bundle.
pub const BUNDLE_PLIST: &'static str = "Info.plist";

/// The helper that registers a bundle with Launch Services.
pub const LAUNCH_SERVICES_HELPER: &'static str =
    "/System/Library/Frameworks/CoreServices.framework/Frameworks/LaunchServices.framework/Support/lsregister";

/// The argument that makes the helper register anew.
pub const LAUNCH_SERVICES_FLAG: &'static str = "-f";

/// The property list up to the name of the executable.
pub const PLIST_HEAD: &'static str =
    "<?xml version=\"1.0\" encoding=\"UTF-8\"?>\n<!DOCTYPE plist PUBLIC \"-//Apple//DTD PLIST 1.0//EN\" \"http://www.apple.com/DTDs/PropertyList-1.0.dtd\">\n<plist version=\"1.0\">\n<dict>\n    <key>CFBundleExecutable</key>\n    <string>";

/// The property list between the executable and the identifier of the bundle.
pub const PLIST_IDENTIFIER: &'static str =
    "</string>\n    <key>CFBundleIdentifier</key>\n    <string>";

/// The property list between the identifier and the name of the bundle.
pub const PLIST_NAME: &'static str = "</string>\n    <key>CFBundleName</key>\n    <string>";

/// The property list between the name and the display name.
pub const PLIST_DISPLAY_NAME: &'static str =
    "</string>\n    <key>CFBundleDisplayName</key>\n    <string>";

/// The property list between the display name and the scheme.
pub const PLIST_SCHEMES: &'static str =
    "</string>\n    <key>CFBundleURLTypes</key>\n    <array>\n        <dict>\n            <key>CFBundleURLName</key>\n            <string>VPN Login Link</string>\n            <key>CFBundleURLSchemes</key>\n            <array>\n                <string>";

/// The end of the property list.
pub const PLIST_END: &'static str =
    "</string>\n            </array>\n        </dict>\n    </array>\n</dict>\n</plist>";

/// What separates the parts of the bundle's identifier.
pub const IDENTIFIER_SEPARATOR: &'static str = ".";

/// The registry key, below the current user's root, that declares the scheme.
pub open spec fn scheme_key(settings: SettingsView) -> Seq<char> {
    CLASSES_KEY@ + settings.scheme
}

/// The registry key that holds the command by which a link is opened.
pub open spec fn command_key(settings: SettingsView) -> Seq<char> {
    scheme_key(settings) + COMMAND_SUBKEY@
}

/// The protocol declaration that the scheme key holds.
pub open spec fn protocol_description(settings: SettingsView) -> Seq<char> {
    DESCRIPTION_HEAD@ + settings.app_name + DESCRIPTION_TAIL@
}

/// The command line by which a link is opened: the executable in quotes,
/// then the link as its first argument.
pub open spec fn open_command(exe: Seq<char>) -> Seq<char> {
    COMMAND_OPEN@ + exe + COMMAND_TAIL@
}

/// The name of the desktop entry.
pub open spec fn desktop_file_name(settings: SettingsView) -> Seq<char> {
    settings.binary_name + DESKTOP_SUFFIX@
}

/// The MIME type that stands for the scheme.
pub open spec fn mime_type(settings: SettingsView) -> Seq<char> {
    MIME_PREFIX@ + settings.scheme
}

/// The text of the desktop entry.
pub open spec fn desktop_entry(settings: SettingsView, exe: Seq<char>) -> Seq<char> {
    ENTRY_HEAD@ + settings.app_name + ENTRY_EXEC@ + exe + ENTRY_MIME@ + mime_type(settings)
        + ENTRY_END@
}

/// The directory that holds the user's desktop entries.
pub open spec fn desktop_directory(data_dir: PathBuf) -> LocationView {
    entry(at_root(data_dir), APPLICATIONS_DIRECTORY@)
}

/// The place of the desktop entry.
pub open spec fn desktop_file(settings: SettingsView, data_dir: PathBuf) -> LocationView {
    entry(desktop_directory(data_dir), desktop_file_name(settings))
}

/// The identifier of the application bundle.
pub open spec fn bundle_identifier(settings: SettingsView) -> Seq<char> {
    settings.qualifier + IDENTIFIER_SEPARATOR@ + settings.organization + IDENTIFIER_SEPARATOR@
        + settings.application
}

/// The text of the bundle's `Info.plist`.
pub open spec fn bundle_plist(settings: SettingsView) -> Seq<char> {
    PLIST_HEAD@ + settings.binary_name + PLIST_IDENTIFIER@ + bundle_identifier(settings)
        + PLIST_NAME@ + settings.app_name + PLIST_DISPLAY_NAME@ + settings.app_name
        + PLIST_SCHEMES@ + settings.scheme + PLIST_END@
}

/// The place of the application bundle.
pub open spec fn bundle(settings: SettingsView, home: PathBuf) -> LocationView {
    entry(entry(at_root(home), USER_APPLICATIONS@), settings.app_name + BUNDLE_SUFFIX@)
}

/// The directory of the bundle that holds its executable.
pub open spec fn bundle_binaries(settings: SettingsView, home: PathBuf) -> LocationView {
    entry(entry(bundle(settings, home), BUNDLE_CONTENTS@), BUNDLE_BINARIES@)
}

/// The steps that register the handler on Windows.
pub open spec fn windows_install(settings: SettingsView, exe: Seq<char>) -> Seq<StepView> {
    seq![
        StepView::SetRegistryValue {
            key: scheme_key(settings),
            name: Seq::empty(),
            value: protocol_description(settings),
        },
        StepView::SetRegistryValue {
            key: scheme_key(settings),
            name: PROTOCOL_MARK@,
            value: Seq::empty(),
        },
        StepView::SetRegistryValue {
            key: command_key(settings),
            name: Seq::empty(),
            value: open_command(exe),
        },
    ]
}

/// The steps that remove the handler on Windows.
pub open spec fn windows_uninstall(settings: SettingsView) -> Seq<StepView> {
    seq![StepView::DeleteRegistryTree { key: scheme_key(settings) }]
}

/// The steps that register the handler on Linux.
pub open spec fn linux_install(settings: SettingsView, exe: Seq<char>, data_dir: PathBuf) -> Seq<
    StepView,
> {
    seq![
        StepView::CreateDirectory { at: desktop_directory(data_dir) },
        StepView::WriteFile {
            at: desktop_file(settings, data_dir),
            content: desktop_entry(settings, exe),
        },
        StepView::RunHelper {
            program: MIME_HELPER@,
            arguments: seq![MIME_HELPER_VERB@, desktop_file_name(settings), mime_type(settings)],
            target: None,
            required: true,
        },
    ]
}

/// The steps that remove the handler on Linux.
pub open spec fn linux_uninstall(settings: SettingsView, data_dir: PathBuf) -> Seq<StepView> {
    seq![
        StepView::RemoveFile { at: desktop_file(settings, data_dir) },
        StepView::RunHelper {
            program: DESKTOP_DATABASE_HELPER@,
            arguments: Seq::empty(),
            target: Some(desktop_directory(data_dir)),
            required: false,
        },
    ]
}

/// The helper run that makes Launch Services look at the bundle again.
pub open spec fn launch_services_refresh(settings: SettingsView, home: PathBuf) -> StepView {
    StepView::RunHelper {
        program: LAUNCH_SERVICES_HELPER@,
        arguments: seq![LAUNCH_SERVICES_FLAG@],
        target: Some(bundle(settings, home)),
        required: false,
    }
}

/// The steps that register the handler on macOS.
pub open spec fn macos_install(settings: SettingsView, home: PathBuf) -> Seq<StepView> {
    seq![
        StepView::CreateDirectory { at: bundle_binaries(settings, home) },
        StepView::CopyExecutable {
            to: entry(bundle_binaries(settings, home), settings.binary_name),
        },
        StepView::WriteFile {
            at: entry(entry(bundle(settings, home), BUNDLE_CONTENTS@), BUNDLE_PLIST@),
            content: bundle_plist(settings),
        },
        launch_services_refresh(settings, home),
    ]
}

/// The steps that remove the handler on macOS.
pub open spec fn macos_uninstall(settings: SettingsView, home: PathBuf) -> Seq<StepView> {
    seq![
        StepView::RemoveTree { at: bundle(settings, home) },
        launch_services_refresh(settings, home),
    ]
}

/// The steps that register the handler, or the reason why there are none.
/// `exe` is the path of the running executable, where it is known; `user_dir`
/// is the user's local data directory on Linux and the home directory on
/// macOS, where the platform named one. Windows needs no directory.
pub open spec fn install_plan(
    platform: Platform,
    settings: SettingsView,
    exe: Option<Seq<char>>,
    user_dir: Option<PathBuf>,
) -> Result<Seq<StepView>, RegistrationError> {
    match exe {
        None => Err(RegistrationError::ExecutableUnknown),
        Some(exe) => match platform {
            Platform::Windows => Ok(windows_install(settings, exe)),
            Platform::Linux => match user_dir {
                None => Err(RegistrationError::NoUserDirectory),
                Some(dir) => Ok(linux_install(settings, exe, dir)),
            },
            Platform::MacOs => match user_dir {
                None => Err(RegistrationError::NoUserDirectory),
                Some(dir) => Ok(macos_install(settings, dir)),
            },
        },
    }
}

/// The steps that remove the handler, or the reason why there are none.
pub open spec fn uninstall_plan(
    platform: Platform,
    settings: SettingsView,
    user_dir: Option<PathBuf>,
) -> Result<Seq<StepView>, RegistrationError> {
    match platform {
        Platform::Windows => Ok(windows_uninstall(settings)),
        Platform::Linux => match user_dir {
            None => Err(RegistrationError::NoUserDirectory),
            Some(dir) => Ok(linux_uninstall(settings, dir)),
        },
        Platform::MacOs => match user_dir {
            None => Err(RegistrationError::NoUserDirectory),
            Some(dir) => Ok(macos_uninstall(settings, dir)),
        },
    }
}

/// The mathematical content of a plan or of the reason why there is none.
pub open spec fn plan_view(plan: Result<Vec<Step>, RegistrationError>) -> Result<
    Seq<StepView>,
    RegistrationError,
> {
    match plan {
        Ok(steps) => Ok(steps.deep_view()),
        Err(error) => Err(error),
    }
}

/// The error that the failure of a step is for the registration: a failure
/// to delete where the step deletes, a failure to write in every other case.
pub open spec fn cause(step: StepView) -> RegistrationError {
    match step {
        StepView::RemoveFile { .. } => RegistrationError::DeleteFailed,
        StepView::RemoveTree { .. } => RegistrationError::DeleteFailed,
        StepView::RemoveEmptyDirectory { .. } => RegistrationError::DeleteFailed,
        StepView::DeleteRegistryTree { .. } => RegistrationError::DeleteFailed,
        _ => RegistrationError::WriteFailed,
    }
}

/// What the failure of a step means for the registration: nothing where the
/// step may fail without harm.
pub open spec fn failure_of(step: StepView) -> Option<RegistrationError> {
    if is_required(step) {
        Some(cause(step))
    } else {
        None
    }
}

/// What is to be done next with a plan of the registrar, given of each step
/// taken so far whether it failed. The steps are taken in order. The first
/// step that fails and may not fail ends the plan with its error, and no
/// later step is taken; a step that may fail is passed over. Once every
/// step was taken the plan is completed.
pub open spec fn next_step_of(steps: Seq<StepView>, failed: Seq<bool>) -> Result<
    Option<int>,
    RegistrationError,
> {
    match ending(steps, failed) {
        Some(at) => Err(cause(steps[at])),
        None => Ok(next_position(steps, failed)),
    }
}

fn scheme_key_text(settings: &Settings) -> (out: String)
    ensures
        out@ == scheme_key(settings@),
{
    let mut out = CLASSES_KEY.to_owned();
    out.append(settings.scheme.as_str());
    out
}

fn command_key_text(settings: &Settings) -> (out: String)
    ensures
        out@ == command_key(settings@),
{
    let mut out = scheme_key_text(settings);
    out.append(COMMAND_SUBKEY);
    out
}

fn protocol_description_text(settings: &Settings) -> (out: String)
    ensures
        out@ == protocol_description(settings@),
{
    let mut out = DESCRIPTION_HEAD.to_owned();
    out.append(settings.app_name.as_str());
    out.append(DESCRIPTION_TAIL);
    out
}

fn open_command_text(exe: &str) -> (out: String)
    ensures
        out@ == open_command(exe@),
{
    let mut out = COMMAND_OPEN.to_owned();
    out.append(exe);
    out.append(COMMAND_TAIL);
    out
}

fn desktop_file_name_text(settings: &Settings) -> (out: String)
    ensures
        out@ == desktop_file_name(settings@),
{
    let mut out = settings.binary_name.clone();
    out.append(DESKTOP_SUFFIX);
    out
}

fn mime_type_text(settings: &Settings) -> (out: String)
    ensures
        out@ == mime_type(settings@),
{
    let mut out = MIME_PREFIX.to_owned();
    out.append(settings.scheme.as_str());
    out
}

fn desktop_entry_text(settings: &Settings, exe: &str) -> (out: String)
    ensures
        out@ == desktop_entry(settings@, exe@),
{
    let mime = mime_type_text(settings);
    let mut out = ENTRY_HEAD.to_owned();
    out.append(settings.app_name.as_str());
    out.append(ENTRY_EXEC);
    out.append(exe);
    out.append(ENTRY_MIME);
    out.append(mime.as_str());
    out.append(ENTRY_END);
    out
}

fn bundle_identifier_text(settings: &Settings) -> (out: String)
    ensures
        out@ == bundle_identifier(settings@),
{
    let mut out = settings.qualifier.clone();
    out.append(IDENTIFIER_SEPARATOR);
    out.append(settings.organization.as_str());
    out.append(IDENTIFIER_SEPARATOR);
    out.append(settings.application.as_str());
    out
}

fn bundle_plist_text(settings: &Settings) -> (out: String)
    ensures
        out@ == bundle_plist(settings@),
{
    let identifier = bundle_identifier_text(settings);
    let mut out = PLIST_HEAD.to_owned();
    out.append(settings.binary_name.as_str());
    out.append(PLIST_IDENTIFIER);
    out.append(identifier.as_str());
    out.append(PLIST_NAME);
    out.append(settings.app_name.as_str());
    out.append(PLIST_DISPLAY_NAME);
    out.append(settings.app_name.as_str());
    out.append(PLIST_SCHEMES);
    out.append(settings.scheme.as_str());
    out.append(PLIST_END);
    out
}

fn desktop_directory_at(data_dir: &PathBuf) -> (at: Location)
    ensures
        at@ == desktop_directory(*data_dir),
{
    Location::new(data_dir).join(APPLICATIONS_DIRECTORY)
}

fn desktop_file_at(settings: &Settings, data_dir: &PathBuf) -> (at: Location)
    ensures
        at@ == desktop_file(settings@, *data_dir),
{
    let name = desktop_file_name_text(settings);
    desktop_directory_at(data_dir).join(name.as_str())
}

fn bundle_at(settings: &Settings, home: &PathBuf) -> (at: Location)
    ensures
        at@ == bundle(settings@, *home),
{
    let mut name = settings.app_name.clone();
    name.append(BUNDLE_SUFFIX);
    Location::new(home).join(USER_APPLICATIONS).join(name.as_str())
}

fn launch_services_refresh_step(settings: &Settings, home: &PathBuf) -> (step: Step)
    ensures
        step@ == launch_services_refresh(settings@, *home),
{
    let mut arguments: Vec<String> = Vec::new();
    arguments.push(LAUNCH_SERVICES_FLAG.to_owned());
    assert(arguments.deep_view() =~= seq![LAUNCH_SERVICES_FLAG@]);
    Step::RunHelper {
        program: LAUNCH_SERVICES_HELPER.to_owned(),
        arguments,
        target: Some(bundle_at(settings, home)),
        required: false,
    }
}

/// The steps that register the handler on Windows.
pub fn windows_install_steps(settings: &Settings, exe: &str) -> (steps: Vec<Step>)
    ensures
        steps.deep_view() == windows_install(settings@, exe@),
{
    let mut steps: Vec<Step> = Vec::new();
    steps.push(
        Step::SetRegistryValue {
            key: scheme_key_text(settings),
            name: String::new(),
            value: protocol_description_text(settings),
        },
    );
    steps.push(
        Step::SetRegistryValue {
            key: scheme_key_text(settings),
            name: PROTOCOL_MARK.to_owned(),
            value: String::new(),
        },
    );
    steps.push(
        Step::SetRegistryValue {
            key: command_key_text(settings),
            name: String::new(),
            value: open_command_text(exe),
        },
    );
    steps
}

/// The steps that remove the handler on Windows.
pub fn windows_uninstall_steps(settings: &Settings) -> (steps: Vec<Step>)
    ensures
        steps.deep_view() == windows_uninstall(settings@),
{
    let mut steps: Vec<Step> = Vec::new();
    steps.push(Step::DeleteRegistryTree { key: scheme_key_text(settings) });
    steps
}

/// The steps that register the handler on Linux.
pub fn linux_install_steps(settings: &Settings, exe: &str, data_dir: &PathBuf) -> (steps: Vec<
    Step,
>)
    ensures
        steps.deep_view() == linux_install(settings@, exe@, *data_dir),
{
    let mut arguments: Vec<String> = Vec::new();
    arguments.push(MIME_HELPER_VERB.to_owned());
    arguments.push(desktop_file_name_text(settings));
    arguments.push(mime_type_text(settings));
    assert(arguments.deep_view() =~= seq![
        MIME_HELPER_VERB@,
        desktop_file_name(settings@),
        mime_type(settings@),
    ]);
    let mut steps: Vec<Step> = Vec::new();
    steps.push(Step::CreateDirectory { at: desktop_directory_at(data_dir) });
    steps.push(
        Step::WriteFile {
            at: desktop_file_at(settings, data_dir),
            content: desktop_entry_text(settings, exe),
        },
    );
    steps.push(
        Step::RunHelper {
            program: MIME_HELPER.to_owned(),
            arguments,
            target: None,
            required: true,
        },
    );
    steps
}

/// The steps that remove the handler on Linux.
pub fn linux_uninstall_steps(settings: &Settings, data_dir: &PathBuf) -> (steps: Vec<Step>)
    ensures
        steps.deep_view() == linux_uninstall(settings@, *data_dir),
{
    let arguments: Vec<String> = Vec::new();
    assert(arguments.deep_view() =~= Seq::<Seq<char>>::empty());
    let mut steps: Vec<Step> = Vec::new();
    steps.push(Step::RemoveFile { at: desktop_file_at(settings, data_dir) });
    steps.push(
        Step::RunHelper {
            program: DESKTOP_DATABASE_HELPER.to_owned(),
            arguments,
            target: Some(desktop_directory_at(data_dir)),
            required: false,
        },
    );
    steps
}

/// The steps that register the handler on macOS.
pub fn macos_install_steps(settings: &Settings, home: &PathBuf) -> (steps: Vec<Step>)
    ensures
        steps.deep_view() == macos_install(settings@, *home),
{
    let contents = bundle_at(settings, home).join(BUNDLE_CONTENTS);
    let binaries = contents.join(BUNDLE_BINARIES);
    let executable = binaries.join(settings.binary_name.as_str());
    let plist = contents.join(BUNDLE_PLIST);
    let mut steps: Vec<Step> = Vec::new();
    steps.push(Step::CreateDirectory { at: binaries });
    steps.push(Step::CopyExecutable { to: executable });
    steps.push(Step::WriteFile { at: plist, content: bundle_plist_text(settings) });
    steps.push(launch_services_refresh_step(settings, home));
    steps
}

/// The steps that remove the handler on macOS.
pub fn macos_uninstall_steps(settings: &Settings, home: &PathBuf) -> (steps: Vec<Step>)
    ensures
        steps.deep_view() == macos_uninstall(settings@, *home),
{
    let mut steps: Vec<Step> = Vec::new();
    steps.push(Step::RemoveTree { at: bundle_at(settings, home) });
    steps.push(launch_services_refresh_step(settings, home));
    steps
}

/// The steps that register the handler on `platform`, from what the host
/// told: the path of the running executable and the user's directory.
pub fn plan_install(
    platform: Platform,
    settings: &Settings,
    exe: Option<&str>,
    user_dir: Option<&PathBuf>,
) -> (plan: Result<Vec<Step>, RegistrationError>)
    ensures
        plan_view(plan) == install_plan(
            platform,
            settings@,
            exe.deep_view(),
            optional_path(user_dir),
        ),
{
    match exe {
        None => Err(RegistrationError::ExecutableUnknown),
        Some(exe) => match platform {
            Platform::Windows => Ok(windows_install_steps(settings, exe)),
            Platform::Linux => match user_dir {
                None => Err(RegistrationError::NoUserDirectory),
                Some(dir) => Ok(linux_install_steps(settings, exe, dir)),
            },
            Platform::MacOs => match user_dir {
                None => Err(RegistrationError::NoUserDirectory),
                Some(dir) => Ok(macos_install_steps(settings, dir)),
            },
        },
    }
}

/// The steps that remove the handler on `platform`, from the user's
/// directory as the host told it.
pub fn plan_uninstall(
    platform: Platform,
    settings: &Settings,
    user_dir: Option<&PathBuf>,
) -> (plan: Result<Vec<Step>, RegistrationError>)
    ensures
        plan_view(plan) == uninstall_plan(platform, settings@, optional_path(user_dir)),
{
    match platform {
        Platform::Windows => Ok(windows_uninstall_steps(settings)),
        Platform::Linux => match user_dir {
            None => Err(RegistrationError::NoUserDirectory),
            Some(dir) => Ok(linux_uninstall_steps(settings, dir)),
        },
        Platform::MacOs => match user_dir {
            None => Err(RegistrationError::NoUserDirectory),
            Some(dir) => Ok(macos_uninstall_steps(settings, dir)),
        },
    }
}

/// The directory of the user on which the registration rests: the local data
/// directory on Linux, the home directory on macOS. Windows needs none, and
/// none is looked up there.
pub fn user_directory(platform: Platform) -> (dir: Option<PathBuf>)
    ensures
        platform == Platform::Windows ==> dir is None,
{
    match platform {
        Platform::Windows => None,
        Platform::Linux => match host::base_dirs() {
            Some(dirs) => Some(host::data_local_dir(&dirs)),
            None => None,
        },
        Platform::MacOs => match host::base_dirs() {
            Some(dirs) => Some(host::home_dir(&dirs)),
            None => None,
        },
    }
}

/// The steps that register the running executable as the handler of the
/// scheme. The user's directory is looked up on the host; whatever the host
/// answers, the plan is the one that `install_plan` gives for that answer.
pub fn install_handler(platform: Platform, settings: &Settings, exe: Option<&str>) -> (plan:
    Result<Vec<Step>, RegistrationError>)
    ensures
        exists|user_dir: Option<PathBuf>|
            plan_view(plan) == install_plan(platform, settings@, exe.deep_view(), user_dir),
        platform == Platform::Windows ==> plan_view(plan) == install_plan(
            platform,
            settings@,
            exe.deep_view(),
            None,
        ),
        exe is None ==> plan_view(plan) == Err::<Seq<StepView>, RegistrationError>(
            RegistrationError::ExecutableUnknown,
        ),
        exe is Some && plan is Err ==> platform != Platform::Windows && plan_view(plan) == Err::<
            Seq<StepView>,
            RegistrationError,
        >(RegistrationError::NoUserDirectory),
{
    let user_dir = user_directory(platform);
    match &user_dir {
        Some(dir) => plan_install(platform, settings, exe, Some(dir)),
        None => plan_install(platform, settings, exe, None),
    }
}

/// The steps that remove the handler of the scheme. The user's directory is
/// looked up on the host; whatever the host answers, the plan is the one
/// that `uninstall_plan` gives for that answer.
pub fn uninstall_handler(platform: Platform, settings: &Settings) -> (plan: Result<
    Vec<Step>,
    RegistrationError,
>)
    ensures
        exists|user_dir: Option<PathBuf>|
            plan_view(plan) == uninstall_plan(platform, settings@, user_dir),
        platform == Platform::Windows ==> plan_view(plan) == uninstall_plan(
            platform,
            settings@,
            None,
        ),
        plan is Err ==> platform != Platform::Windows && plan_view(plan) == Err::<
            Seq<StepView>,
            RegistrationError,
        >(RegistrationError::NoUserDirectory),
{
    let user_dir = user_directory(platform);
    match &user_dir {
        Some(dir) => plan_uninstall(platform, settings, Some(dir)),
        None => plan_uninstall(platform, settings, None),
    }
}

/// The error that the failure of `step` is for the registration.
fn cause_of(step: &Step) -> (error: RegistrationError)
    ensures
        error == cause(step@),
{
    match step {
        Step::RemoveFile { .. } => RegistrationError::DeleteFailed,
        Step::RemoveTree { .. } => RegistrationError::DeleteFailed,
        Step::RemoveEmptyDirectory { .. } => RegistrationError::DeleteFailed,
        Step::DeleteRegistryTree { .. } => RegistrationError::DeleteFailed,
        _ => RegistrationError::WriteFailed,
    }
}

/// What the failure of `step` means for the registration.
pub fn failure(step: &Step) -> (error: Option<RegistrationError>)
    ensures
        error == failure_of(step@),
        error is Some <==> is_required(step@),
{
    if step.required() {
        Some(cause_of(step))
    } else {
        None
    }
}

/// What is to be done next with a plan of the registrar: the position of
/// the step to take, nothing once the plan is completed, or the error with
/// which the plan ended. `failed` tells of each step taken so far whether it
/// failed.
pub fn next_step(steps: &Vec<Step>, failed: &Vec<bool>) -> (next: Result<
    Option<usize>,
    RegistrationError,
>)
    ensures
        turn_view(next) == next_step_of(steps.deep_view(), failed@),
        next is Err <==> exists|at: int| fails_at(steps.deep_view(), failed@, at),
{
    match first_failure(steps, failed) {
        Some(at) => Err(cause_of(&steps[at])),
        None => if failed.len() < steps.len() {
            Ok(Some(failed.len()))
        } else {
            Ok(None)
        },
    }
}

} // verus!
