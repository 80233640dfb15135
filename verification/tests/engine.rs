//! Behavioural tests for the action engine, driven through a spy host that
//! records every requested mutation and can inject failures.

use harmonic::create_directory::CreateDirectory;
use harmonic::create_file::CreateFile;
use harmonic::create_volume::{CreateVolume, CreateVolumeError};
use harmonic::host::{EffectRecord, HostError, SpyHost};
use harmonic::place_channel_configuration::{
    PlaceChannelConfiguration, PlaceChannelConfigurationError,
};
use harmonic::place_nix_configuration::{PlaceNixConfiguration, PlaceNixConfigurationError};
use harmonic::registry::{execute_plan, revert_plan, Action, ActionError};
use harmonic::state::ActionState;

fn volume() -> CreateVolume {
    CreateVolume::plan("/dev/disk3".to_string(), "Nix Store".to_string(), false).unwrap()
}

#[test]
fn create_volume_plan_is_uncompleted() {
    let v = volume();
    assert_eq!(v.disk, "/dev/disk3");
    assert_eq!(v.name, "Nix Store");
    assert!(!v.case_sensitive);
    assert_eq!(v.action_state, ActionState::Uncompleted);
}

#[test]
fn create_volume_execute_issues_expected_command() {
    let mut v = volume();
    let mut host = SpyHost::new();
    v.execute(&mut host).unwrap();
    assert_eq!(v.action_state, ActionState::Completed);
    let effects = host.effects();
    assert_eq!(effects.len(), 1);
    match &effects[0] {
        EffectRecord::Run { program, args } => {
            assert_eq!(program, "/usr/sbin/diskutil");
            assert_eq!(
                args,
                &vec![
                    "apfs".to_string(),
                    "addVolume".to_string(),
                    "/dev/disk3".to_string(),
                    "APFS".to_string(),
                    "Nix Store".to_string(),
                    "-nomount".to_string(),
                ]
            );
        }
        other => panic!("unexpected effect: {:?}", other),
    }
}

#[test]
fn create_volume_case_sensitive_changes_format_argument() {
    let mut v =
        CreateVolume::plan("/dev/disk3".to_string(), "Nix Store".to_string(), true).unwrap();
    let mut host = SpyHost::new();
    v.execute(&mut host).unwrap();
    match &host.effects()[0] {
        EffectRecord::Run { args, .. } => {
            assert_eq!(args[3], "Case-sensitive APFS");
        }
        other => panic!("unexpected effect: {:?}", other),
    }
}

#[test]
fn create_volume_execute_is_idempotent() {
    let mut v = volume();
    let mut host = SpyHost::new();
    v.execute(&mut host).unwrap();
    assert_eq!(host.effects().len(), 1);
    v.execute(&mut host).unwrap();
    assert_eq!(host.effects().len(), 1, "a completed action must not touch the host again");
    assert_eq!(v.action_state, ActionState::Completed);
}

#[test]
fn create_volume_revert_is_a_noop_when_uncompleted() {
    let mut v = volume();
    let mut host = SpyHost::new();
    v.revert(&mut host).unwrap();
    assert_eq!(host.effects().len(), 0);
    assert_eq!(v.action_state, ActionState::Uncompleted);
}

#[test]
fn create_volume_round_trip_restores_planned_state() {
    let mut v = volume();
    let mut host = SpyHost::new();
    v.execute(&mut host).unwrap();
    v.revert(&mut host).unwrap();
    assert_eq!(v.action_state, ActionState::Uncompleted);
    let effects = host.effects();
    assert_eq!(effects.len(), 2);
    match (&effects[0], &effects[1]) {
        (
            EffectRecord::Run { args: apply, .. },
            EffectRecord::Run { program, args: undo },
        ) => {
            assert_eq!(apply[1], "addVolume");
            assert_eq!(undo[1], "deleteVolume");
            assert_eq!(program, "/usr/sbin/diskutil");
            assert_eq!(apply[4], "Nix Store");
            assert_eq!(undo[2], "Nix Store", "the volume name must be echoed in the undo");
        }
        other => panic!("unexpected effects: {:?}", other),
    }
}

#[test]
fn create_volume_failure_leaves_progress_and_reports_command_error() {
    let mut v = volume();
    let mut host = SpyHost::with_script(vec![Some(HostError::Status(1))]);
    let e = v.execute(&mut host).unwrap_err();
    match e {
        CreateVolumeError::Command(HostError::Status(code)) => assert_eq!(code, 1),
        other => panic!("unexpected error: {:?}", other),
    }
    assert_eq!(v.action_state, ActionState::Progress);
    assert_eq!(host.effects().len(), 1, "the attempt itself must be recorded");
}

#[test]
fn create_volume_describe_execute_names_disk_and_volume() {
    let v = volume();
    let d = v.describe_execute();
    assert_eq!(d.len(), 1);
    assert_eq!(d[0].description, "Create a volume on `/dev/disk3` named `Nix Store`");
    assert!(d[0].explanation.is_empty());
}

#[test]
fn create_volume_describe_is_empty_once_done() {
    let mut v = volume();
    let mut host = SpyHost::new();
    v.execute(&mut host).unwrap();
    assert!(v.describe_execute().is_empty());
    let d = v.describe_revert();
    assert_eq!(d.len(), 1);
    assert_eq!(d[0].description, "Remove the volume on `/dev/disk3` named `Nix Store`");
}

#[test]
fn create_volume_error_message() {
    let e = CreateVolumeError::Command(HostError::Status(1));
    assert_eq!(e.message(), "Failed to execute command");
}

fn nix_configuration() -> PlaceNixConfiguration {
    PlaceNixConfiguration::plan("nixbld".to_string(), None, false).unwrap()
}

#[test]
fn configuration_placement_plan_renders_content_and_children() {
    let p = nix_configuration();
    assert_eq!(p.create_directory.path, "/etc/nix");
    assert_eq!(p.create_directory.user, "root");
    assert_eq!(p.create_directory.group, "root");
    assert_eq!(p.create_directory.mode, 0o755);
    assert_eq!(p.create_file.path, "/etc/nix/nix.conf");
    assert_eq!(p.create_file.mode, 0o664);
    assert_eq!(p.create_file.buf, "\nbuild-users-group = nixbld\n");
    assert_eq!(p.state(), ActionState::Uncompleted);
}

#[test]
fn configuration_placement_keeps_extra_configuration_first() {
    let p = PlaceNixConfiguration::plan(
        "nixbld".to_string(),
        Some("experimental-features = flakes".to_string()),
        false,
    )
    .unwrap();
    assert_eq!(
        p.create_file.buf,
        "experimental-features = flakes\nbuild-users-group = nixbld\n"
    );
}

#[test]
fn configuration_placement_executes_directory_before_file() {
    let mut p = nix_configuration();
    let mut host = SpyHost::new();
    p.execute(&mut host).unwrap();
    assert_eq!(p.state(), ActionState::Completed);
    let effects = host.effects();
    assert_eq!(effects.len(), 2);
    match &effects[0] {
        EffectRecord::CreateDirectory { path, user, group, mode } => {
            assert_eq!(path, "/etc/nix");
            assert_eq!(user, "root");
            assert_eq!(group, "root");
            assert_eq!(*mode, 0o755);
        }
        other => panic!("the directory must come first, got {:?}", other),
    }
    match &effects[1] {
        EffectRecord::CreateFile { path, content, mode, .. } => {
            assert_eq!(path, "/etc/nix/nix.conf");
            assert_eq!(content, "\nbuild-users-group = nixbld\n");
            assert_eq!(*mode, 0o664);
        }
        other => panic!("the file must come second, got {:?}", other),
    }
}

#[test]
fn configuration_placement_reverts_file_before_directory() {
    let mut p = nix_configuration();
    let mut host = SpyHost::new();
    p.execute(&mut host).unwrap();
    p.revert(&mut host).unwrap();
    assert_eq!(p.state(), ActionState::Uncompleted);
    let effects = host.effects();
    assert_eq!(effects.len(), 4);
    match &effects[2] {
        EffectRecord::RemoveFile { path } => assert_eq!(path, "/etc/nix/nix.conf"),
        other => panic!("the file must be removed first, got {:?}", other),
    }
    match &effects[3] {
        EffectRecord::RemoveDirectory { path } => assert_eq!(path, "/etc/nix"),
        other => panic!("the directory must be removed last, got {:?}", other),
    }
}

#[test]
fn configuration_placement_attributes_second_child_failure() {
    let mut p = nix_configuration();
    let mut host = SpyHost::with_script(vec![None, Some(HostError::Io("injected".to_string()))]);
    let e = p.execute(&mut host).unwrap_err();
    match e {
        PlaceNixConfigurationError::CreateFile(_) => {}
        other => panic!("the error must name the file child, got {:?}", other),
    }
    assert_eq!(
        p.create_directory.action_state,
        ActionState::Completed,
        "the first child must stay completed"
    );
    assert_eq!(p.create_file.action_state, ActionState::Progress);
}

#[test]
fn configuration_placement_first_child_failure_leaves_file_untouched() {
    let mut p = nix_configuration();
    let mut host = SpyHost::with_script(vec![Some(HostError::Io("injected".to_string()))]);
    let e = p.execute(&mut host).unwrap_err();
    match e {
        PlaceNixConfigurationError::CreateDirectory(_) => {}
        other => panic!("the error must name the directory child, got {:?}", other),
    }
    assert_eq!(p.create_file.action_state, ActionState::Uncompleted);
    assert_eq!(host.effects().len(), 1);
}

fn channels() -> Vec<(String, String)> {
    vec![
        ("nixpkgs".to_string(), "https://example/nixpkgs".to_string()),
        ("nixos".to_string(), "https://example/nixos".to_string()),
    ]
}

#[test]
fn channel_configuration_renders_one_line_per_pair() {
    let p = PlaceChannelConfiguration::plan_in_home(channels(), "/root".to_string(), false);
    assert_eq!(
        p.create_file.buf,
        "https://example/nixpkgs nixpkgs\nhttps://example/nixos nixos"
    );
    assert_eq!(p.create_file.path, "/root/.nix-channels");
    assert_eq!(p.create_file.mode, 0o664);
    assert!(p.create_file.user.is_none());
    assert!(p.create_file.group.is_none());
    assert_eq!(p.state(), ActionState::Uncompleted);
}

#[test]
fn channel_configuration_empty_list_renders_empty_content() {
    let p = PlaceChannelConfiguration::plan_in_home(Vec::new(), "/root".to_string(), false);
    assert_eq!(p.create_file.buf, "");
}

#[test]
fn channel_configuration_plan_resolves_home_from_environment() {
    match PlaceChannelConfiguration::plan(channels(), false) {
        Ok(p) => {
            assert!(
                p.create_file.path.ends_with("/.nix-channels"),
                "destination must live under the home directory: {}",
                p.create_file.path
            );
            assert_eq!(
                p.create_file.buf,
                "https://example/nixpkgs nixpkgs\nhttps://example/nixos nixos"
            );
        }
        Err(e) => {
            assert!(matches!(e, PlaceChannelConfigurationError::NoRootHome));
        }
    }
}

#[test]
fn channel_configuration_executes_through_its_file_child() {
    let mut p = PlaceChannelConfiguration::plan_in_home(channels(), "/root".to_string(), false);
    let mut host = SpyHost::new();
    p.execute(&mut host).unwrap();
    assert_eq!(p.state(), ActionState::Completed);
    let effects = host.effects();
    assert_eq!(effects.len(), 1);
    match &effects[0] {
        EffectRecord::CreateFile { path, content, .. } => {
            assert_eq!(path, "/root/.nix-channels");
            assert_eq!(
                content,
                "https://example/nixpkgs nixpkgs\nhttps://example/nixos nixos"
            );
        }
        other => panic!("unexpected effect: {:?}", other),
    }
    p.revert(&mut host).unwrap();
    assert_eq!(p.state(), ActionState::Uncompleted);
    match &host.effects()[1] {
        EffectRecord::RemoveFile { path } => assert_eq!(path, "/root/.nix-channels"),
        other => panic!("unexpected effect: {:?}", other),
    }
}

#[test]
fn channel_configuration_describe_delegates_with_channel_context() {
    let p = PlaceChannelConfiguration::plan_in_home(channels(), "/root".to_string(), false);
    let d = p.describe_execute();
    assert_eq!(d.len(), 1);
    assert_eq!(d[0].description, "Create or overwrite the file `/root/.nix-channels`");
    assert_eq!(
        d[0].explanation,
        vec![
            "https://example/nixpkgs nixpkgs".to_string(),
            "https://example/nixos nixos".to_string(),
        ]
    );
    assert!(p.describe_revert().is_empty());
}

#[test]
fn configuration_placement_describe_aggregates_pending_children() {
    let p = nix_configuration();
    let d = p.describe_execute();
    assert_eq!(d.len(), 2);
    assert_eq!(d[0].description, "Create the directory `/etc/nix`");
    assert_eq!(d[1].description, "Create or overwrite the file `/etc/nix/nix.conf`");
    assert!(p.describe_revert().is_empty());

    let mut partial = nix_configuration();
    let mut host = SpyHost::with_script(vec![None, Some(HostError::Io("injected".to_string()))]);
    let _ = partial.execute(&mut host);
    let pending = partial.describe_execute();
    assert_eq!(pending.len(), 1, "the completed directory child must not be described again");
    assert_eq!(pending[0].description, "Create or overwrite the file `/etc/nix/nix.conf`");
}

#[test]
fn channel_configuration_error_messages() {
    assert_eq!(
        PlaceChannelConfigurationError::NoRootHome.message(),
        "No root home found to place channel configuration in"
    );
}

fn plan_of_three() -> Vec<Action> {
    let d = CreateDirectory::plan(
        "/etc/nix".to_string(),
        "root".to_string(),
        "root".to_string(),
        0o755,
        false,
    )
    .unwrap();
    let f = CreateFile::plan(
        "/etc/nix/nix.conf".to_string(),
        None,
        None,
        0o664,
        "settings".to_string(),
        false,
    )
    .unwrap();
    vec![Action::from(d), Action::from(f), Action::from(volume())]
}

#[test]
fn execute_plan_completes_every_action_in_order() {
    let mut actions = plan_of_three();
    let mut host = SpyHost::new();
    execute_plan(&mut actions, &mut host).unwrap();
    for a in &actions {
        assert_eq!(a.state(), ActionState::Completed);
    }
    let effects = host.effects();
    assert_eq!(effects.len(), 3);
    assert!(matches!(&effects[0], EffectRecord::CreateDirectory { .. }));
    assert!(matches!(&effects[1], EffectRecord::CreateFile { .. }));
    assert!(matches!(&effects[2], EffectRecord::Run { .. }));
}

#[test]
fn revert_plan_walks_the_plan_backwards() {
    let mut actions = plan_of_three();
    let mut host = SpyHost::new();
    execute_plan(&mut actions, &mut host).unwrap();
    revert_plan(&mut actions, &mut host).unwrap();
    for a in &actions {
        assert_eq!(a.state(), ActionState::Uncompleted);
    }
    let effects = host.effects();
    assert_eq!(effects.len(), 6);
    assert!(matches!(&effects[3], EffectRecord::Run { .. }));
    assert!(matches!(&effects[4], EffectRecord::RemoveFile { .. }));
    assert!(matches!(&effects[5], EffectRecord::RemoveDirectory { .. }));
}

#[test]
fn execute_plan_stops_at_the_first_failure() {
    let mut actions = plan_of_three();
    let mut host = SpyHost::with_script(vec![None, Some(HostError::Io("injected".to_string()))]);
    let (index, error) = execute_plan(&mut actions, &mut host).unwrap_err();
    assert_eq!(index, 1);
    assert!(matches!(error, ActionError::CreateFile(_)));
    assert_eq!(actions[0].state(), ActionState::Completed);
    assert_eq!(actions[1].state(), ActionState::Progress);
    assert_eq!(
        actions[2].state(),
        ActionState::Uncompleted,
        "actions past the failure must be left untouched"
    );
    assert_eq!(host.effects().len(), 2);
}

#[test]
fn executing_a_completed_plan_requests_nothing_more() {
    let mut actions = plan_of_three();
    let mut host = SpyHost::new();
    execute_plan(&mut actions, &mut host).unwrap();
    let applied = host.effects().len();
    execute_plan(&mut actions, &mut host).unwrap();
    assert_eq!(host.effects().len(), applied, "re-running a completed plan must be a no-op");
}

#[test]
fn revert_plan_failure_leaves_earlier_actions_untouched() {
    let mut actions = plan_of_three();
    let mut apply_host = SpyHost::new();
    execute_plan(&mut actions, &mut apply_host).unwrap();
    // The volume (last) reverts first and succeeds; the file removal fails.
    let mut undo_host =
        SpyHost::with_script(vec![None, Some(HostError::Io("injected".to_string()))]);
    let (index, error) = revert_plan(&mut actions, &mut undo_host).unwrap_err();
    assert_eq!(index, 1);
    assert!(matches!(error, ActionError::CreateFile(_)));
    assert_eq!(actions[2].state(), ActionState::Uncompleted);
    assert_eq!(actions[1].state(), ActionState::Progress);
    assert_eq!(
        actions[0].state(),
        ActionState::Completed,
        "actions that would revert after the failure must be left untouched"
    );
}

#[test]
fn create_file_round_trip_writes_then_removes() {
    let mut f = CreateFile::plan(
        "/etc/nix/nix.conf".to_string(),
        Some("root".to_string()),
        None,
        0o664,
        "settings".to_string(),
        false,
    )
    .unwrap();
    let mut host = SpyHost::new();
    f.execute(&mut host).unwrap();
    f.revert(&mut host).unwrap();
    assert_eq!(f.action_state, ActionState::Uncompleted);
    let effects = host.effects();
    assert_eq!(effects.len(), 2);
    match &effects[0] {
        EffectRecord::CreateFile { path, user, group, mode, content } => {
            assert_eq!(path, "/etc/nix/nix.conf");
            assert_eq!(user.as_deref(), Some("root"));
            assert!(group.is_none());
            assert_eq!(*mode, 0o664);
            assert_eq!(content, "settings");
        }
        other => panic!("unexpected effect: {:?}", other),
    }
    assert!(matches!(&effects[1], EffectRecord::RemoveFile { .. }));
}

#[test]
fn leaf_describe_texts_name_their_target() {
    let d = CreateDirectory::plan(
        "/etc/nix".to_string(),
        "root".to_string(),
        "root".to_string(),
        0o755,
        false,
    )
    .unwrap();
    assert_eq!(d.describe_execute()[0].description, "Create the directory `/etc/nix`");
    let f = CreateFile::plan(
        "/etc/nix/nix.conf".to_string(),
        None,
        None,
        0o664,
        "settings".to_string(),
        false,
    )
    .unwrap();
    assert_eq!(
        f.describe_execute()[0].description,
        "Create or overwrite the file `/etc/nix/nix.conf`"
    );
}

#[test]
fn actions_convert_into_the_registry_variant() {
    let v = volume();
    let a = Action::from(v);
    assert!(matches!(a, Action::DarwinCreateVolume(_)));
    let p = Action::from(nix_configuration());
    assert!(matches!(p, Action::PlaceNixConfiguration(_)));
    let c = Action::from(PlaceChannelConfiguration::plan_in_home(
        channels(),
        "/root".to_string(),
        false,
    ));
    assert!(matches!(c, Action::PlaceChannelConfiguration(_)));
}

#[test]
fn registry_describe_follows_the_lifecycle() {
    let mut a = Action::from(volume());
    assert_eq!(a.describe_execute().len(), 1);
    assert_eq!(a.describe_revert().len(), 0);
    let mut host = SpyHost::new();
    a.execute(&mut host).unwrap();
    assert_eq!(a.describe_execute().len(), 0);
    assert_eq!(a.describe_revert().len(), 1);
}
