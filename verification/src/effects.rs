//! A model of the host, as far as the steps change it, and what the plans
//! of the store and of the registrar do to it.
//!
//! The model knows files, directories and registry keys. A step that is
//! carried out changes the host as its name says; a helper program changes
//! nothing that the model knows. A step that may fail without harm is
//! either carried out or passed over, and every law holds in both cases.

use std::path::PathBuf;
use vstd::prelude::*;
use crate::config_store::{
    loaded,
    remove_steps,
    save_steps,
    ConfigPathView,
    StoredFileView,
};
use crate::plan::{entry, is_required, LocationView, StepView};
use crate::registrar::{
    bundle,
    bundle_binaries,
    bundle_plist,
    command_key,
    desktop_entry,
    desktop_file,
    install_plan,
    open_command,
    protocol_description,
    scheme_key,
    uninstall_plan,
    Platform,
    BUNDLE_CONTENTS,
    BUNDLE_PLIST,
    PROTOCOL_MARK,
};
use crate::settings::SettingsView;
use crate::text::{has_prefix, trimmed};

verus! {

/// What stands at a place of the file system.
pub enum Entry {
    Directory,
    Text(Seq<char>),
    Executable,
}

/// The part of the host that the steps change: the entries of the file
/// system, and the values of the registry keys below the current user's root.
pub struct Host {
    pub files: Map<LocationView, Entry>,
    pub registry: Map<Seq<char>, Map<Seq<char>, Seq<char>>>,
}

/// `inner` is `outer` or lies below it.
pub open spec fn within(inner: LocationView, outer: LocationView) -> bool {
    &&& inner.root == outer.root
    &&& (outer.relative.len() == 0 || inner.relative == outer.relative || has_prefix(
        inner.relative,
        outer.relative + "/"@,
    ))
}

/// The registry key `inner` is `outer` or lies below it.
pub open spec fn key_within(inner: Seq<char>, outer: Seq<char>) -> bool {
    inner == outer || has_prefix(inner, outer + "\\"@)
}

/// Something other than the directory itself stands within `at`.
pub open spec fn occupied(files: Map<LocationView, Entry>, at: LocationView) -> bool {
    exists|other: LocationView| other != at && files.contains_key(other) && within(other, at)
}

/// The host after `step` was carried out.
pub open spec fn after(host: Host, step: StepView) -> Host {
    match step {
        StepView::CreateDirectory { at } => Host {
            files: Map::new(
                |place: LocationView| host.files.contains_key(place) || within(at, place),
                |place: LocationView|
                    if host.files.contains_key(place) {
                        host.files[place]
                    } else {
                        Entry::Directory
                    },
            ),
            registry: host.registry,
        },
        StepView::WriteFile { at, content } => Host {
            files: host.files.insert(at, Entry::Text(content)),
            registry: host.registry,
        },
        StepView::CopyExecutable { to } => Host {
            files: host.files.insert(to, Entry::Executable),
            registry: host.registry,
        },
        StepView::RemoveFile { at } => Host {
            files: host.files.remove(at),
            registry: host.registry,
        },
        StepView::RemoveTree { at } => Host {
            files: Map::new(
                |place: LocationView| host.files.contains_key(place) && !within(place, at),
                |place: LocationView| host.files[place],
            ),
            registry: host.registry,
        },
        StepView::RemoveEmptyDirectory { at } => if occupied(host.files, at) {
            host
        } else {
            Host { files: host.files.remove(at), registry: host.registry }
        },
        StepView::RunHelper { .. } => host,
        StepView::SetRegistryValue { key, name, value } => Host {
            files: host.files,
            registry: host.registry.insert(
                key,
                if host.registry.contains_key(key) {
                    host.registry[key].insert(name, value)
                } else {
                    Map::empty().insert(name, value)
                },
            ),
        },
        StepView::DeleteRegistryTree { key } => Host {
            files: host.files,
            registry: Map::new(
                |other: Seq<char>| host.registry.contains_key(other) && !key_within(other, key),
                |other: Seq<char>| host.registry[other],
            ),
        },
    }
}

/// The host after the steps were taken in order. A step that may fail
/// without harm is passed over where its position is in `skipped`; every
/// other step is carried out.
pub open spec fn after_all(host: Host, steps: Seq<StepView>, skipped: Set<int>) -> Host
    decreases steps.len(),
{
    if steps.len() == 0 {
        host
    } else {
        let before = after_all(host, steps.drop_last(), skipped);
        if !is_required(steps.last()) && skipped.contains(steps.len() - 1) {
            before
        } else {
            after(before, steps.last())
        }
    }
}

/// What a look at the stored file finds on `host`.
pub open spec fn look(host: Host, path: ConfigPathView) -> StoredFileView {
    if host.files.contains_key(path.file) {
        match host.files[path.file] {
            Entry::Text(content) => StoredFileView::Holds(content),
            _ => StoredFileView::Unreadable,
        }
    } else {
        StoredFileView::Absent
    }
}

/// Whether the stored file is present on `host`.
pub open spec fn stored(host: Host, path: ConfigPathView) -> bool {
    host.files.contains_key(path.file)
}

/// An address that was saved is loaded again, without the whitespace around
/// it: on every host, after the steps of `save` for `url`, `load` yields
/// `url` trimmed.
pub proof fn law_save_then_load(host: Host, path: ConfigPathView, url: Seq<char>, skipped: Set<int>)
    ensures
        loaded(look(after_all(host, save_steps(path, url), skipped), path)) == Ok::<
            Seq<char>,
            crate::error::ConfigError,
        >(trimmed(url)),
{
    reveal_with_fuel(after_all, 2);
}

/// Removal is idempotent. After the steps of `remove` were taken, the file
/// is absent; a second `remove`, like one on a store that never held an
/// address, takes no step and so cannot fail, and leaves the host as it is.
pub proof fn law_remove_is_idempotent(host: Host, path: ConfigPathView, skipped: Set<int>)
    ensures
        ({
            let once = after_all(host, remove_steps(path, stored(host, path)), skipped);
            &&& !stored(once, path)
            &&& remove_steps(path, stored(once, path)) == Seq::<StepView>::empty()
            &&& forall|again: Set<int>|
                after_all(once, remove_steps(path, stored(once, path)), again) == once
        }),
{
    reveal_with_fuel(after_all, 3);
}

/// Whether the association between the scheme and the executable stands
/// on `host`, in the form that `platform` keeps it.
pub open spec fn registered(
    platform: Platform,
    settings: SettingsView,
    exe: Seq<char>,
    user_dir: PathBuf,
    host: Host,
) -> bool {
    match platform {
        Platform::Windows => {
            &&& host.registry.contains_key(scheme_key(settings))
            &&& host.registry[scheme_key(settings)].contains_pair(
                Seq::empty(),
                protocol_description(settings),
            )
            &&& host.registry[scheme_key(settings)].contains_pair(PROTOCOL_MARK@, Seq::empty())
            &&& host.registry.contains_key(command_key(settings))
            &&& host.registry[command_key(settings)].contains_pair(Seq::empty(), open_command(exe))
        },
        Platform::Linux => host.files.contains_pair(
            desktop_file(settings, user_dir),
            Entry::Text(desktop_entry(settings, exe)),
        ),
        Platform::MacOs => {
            &&& host.files.contains_pair(
                entry(bundle_binaries(settings, user_dir), settings.binary_name),
                Entry::Executable,
            )
            &&& host.files.contains_pair(
                entry(entry(bundle(settings, user_dir), BUNDLE_CONTENTS@), BUNDLE_PLIST@),
                Entry::Text(bundle_plist(settings)),
            )
        },
    }
}

/// Whether anything of the registration is left on `host`: a key of the
/// scheme's registry subtree, the desktop entry, or an entry of the bundle.
pub open spec fn residue(
    platform: Platform,
    settings: SettingsView,
    user_dir: PathBuf,
    host: Host,
) -> bool {
    match platform {
        Platform::Windows => exists|key: Seq<char>|
            host.registry.contains_key(key) && key_within(key, scheme_key(settings)),
        Platform::Linux => host.files.contains_key(desktop_file(settings, user_dir)),
        Platform::MacOs => exists|place: LocationView|
            host.files.contains_key(place) && within(place, bundle(settings, user_dir)),
    }
}

/// Installing registers, whatever stood on the host before, and uninstalling
/// right after leaves nothing of the registration behind.
pub proof fn law_install_then_uninstall(
    platform: Platform,
    settings: SettingsView,
    exe: Seq<char>,
    user_dir: PathBuf,
    host: Host,
    skipped_installing: Set<int>,
    skipped_uninstalling: Set<int>,
)
    ensures
        install_plan(platform, settings, Some(exe), Some(user_dir)) is Ok,
        uninstall_plan(platform, settings, Some(user_dir)) is Ok,
        ({
            let installed = after_all(
                host,
                install_plan(platform, settings, Some(exe), Some(user_dir))->Ok_0,
                skipped_installing,
            );
            let removed = after_all(
                installed,
                uninstall_plan(platform, settings, Some(user_dir))->Ok_0,
                skipped_uninstalling,
            );
            &&& registered(platform, settings, exe, user_dir, installed)
            &&& !residue(platform, settings, user_dir, removed)
        }),
{
    reveal_with_fuel(after_all, 5);
    lemma_registry_places_differ(settings);
    lemma_bundle_places_differ(settings, user_dir);
}

/// The key of the scheme and the key of its command differ, and the mark of
/// a protocol is not the name of a default value.
proof fn lemma_registry_places_differ(settings: SettingsView)
    ensures
        scheme_key(settings) != command_key(settings),
        PROTOCOL_MARK@ != Seq::<char>::empty(),
{
    reveal_strlit("\\shell\\open\\command");
    reveal_strlit("URL Protocol");
    assert(command_key(settings).len() > scheme_key(settings).len());
    assert(PROTOCOL_MARK@.len() > 0);
}

/// The executable and the property list of the bundle stand at different places.
proof fn lemma_bundle_places_differ(settings: SettingsView, home: PathBuf)
    ensures
        entry(bundle_binaries(settings, home), settings.binary_name) != entry(
            entry(bundle(settings, home), BUNDLE_CONTENTS@),
            BUNDLE_PLIST@,
        ),
{
    reveal_strlit("Applications");
    reveal_strlit("Contents");
    reveal_strlit("MacOS");
    reveal_strlit("Info.plist");
    reveal_strlit("/");
    let contents = entry(bundle(settings, home), BUNDLE_CONTENTS@);
    let executable = entry(bundle_binaries(settings, home), settings.binary_name);
    let plist = entry(contents, BUNDLE_PLIST@);
    let at = contents.relative.len() as int + 1;
    assert(plist.relative[at] == 'I');
    assert(executable.relative[at] == 'M');
}

/// Installing twice is installing once: the second installation writes over
/// the first and leaves the host as the first left it.
pub proof fn law_install_is_idempotent(
    platform: Platform,
    settings: SettingsView,
    exe: Seq<char>,
    user_dir: PathBuf,
    host: Host,
    skipped_first: Set<int>,
    skipped_second: Set<int>,
)
    ensures
        ({
            let plan = install_plan(platform, settings, Some(exe), Some(user_dir))->Ok_0;
            let once = after_all(host, plan, skipped_first);
            after_all(once, plan, skipped_second) == once
        }),
{
    let plan = install_plan(platform, settings, Some(exe), Some(user_dir))->Ok_0;
    let once = after_all(host, plan, skipped_first);
    let twice = after_all(once, plan, skipped_second);
    reveal_with_fuel(after_all, 5);
    lemma_registry_places_differ(settings);
    lemma_bundle_places_differ(settings, user_dir);
    assert(twice.registry =~~= once.registry);
    assert(twice.files =~= once.files);
}

/// Whether `place` belongs to the registration: the desktop entry itself,
/// or a place within the bundle. On Windows the registration holds no file.
pub open spec fn belongs(
    platform: Platform,
    settings: SettingsView,
    user_dir: PathBuf,
    place: LocationView,
) -> bool {
    match platform {
        Platform::Windows => false,
        Platform::Linux => place == desktop_file(settings, user_dir),
        Platform::MacOs => within(place, bundle(settings, user_dir)),
    }
}

/// Uninstalling touches nothing but the registration. Every place that does
/// not belong to it holds after the steps what it held before, and so does
/// every registry key outside the subtree of the scheme; a stored address
/// that stands at such a place is found as it was.
pub proof fn law_uninstall_touches_only_the_registration(
    platform: Platform,
    settings: SettingsView,
    user_dir: PathBuf,
    host: Host,
    path: ConfigPathView,
    skipped: Set<int>,
)
    ensures
        ({
            let removed = after_all(
                host,
                uninstall_plan(platform, settings, Some(user_dir))->Ok_0,
                skipped,
            );
            &&& forall|place: LocationView|
                !belongs(platform, settings, user_dir, place) ==> {
                    &&& #[trigger] removed.files.contains_key(place) == host.files.contains_key(
                        place,
                    )
                    &&& removed.files.contains_key(place) ==> removed.files[place]
                        == host.files[place]
                }
            &&& forall|key: Seq<char>|
                !key_within(key, scheme_key(settings)) ==> {
                    &&& #[trigger] removed.registry.contains_key(key)
                        == host.registry.contains_key(key)
                    &&& removed.registry.contains_key(key) ==> removed.registry[key]
                        == host.registry[key]
                }
            &&& !belongs(platform, settings, user_dir, path.file) ==> look(removed, path) == look(
                host,
                path,
            )
        }),
{
    reveal_with_fuel(after_all, 3);
}

} // verus!
