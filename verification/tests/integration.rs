//! Tests driving the context store model through the user-facing
//! operations.

use gcpx::adapters::ProfileDeleteOutcome;
use gcpx::adapters::classify_profile_delete;
use gcpx::adapters::effective_config_name;
use gcpx::adapters::kubectl_query_value;
use gcpx::adapters::optional_config_value;
use gcpx::adapters::run_exit_outcome;
use gcpx::errors::CtxError;
use gcpx::metadata::ContextMetadata;
use gcpx::names::validate_context_name;
use gcpx::ops::Effect;
use gcpx::ops::Notice;
use gcpx::ops::SwitchPlan;
use gcpx::paths::get_adc_path;
use gcpx::paths::get_context_adc_path;
use gcpx::paths::get_context_dir;
use gcpx::paths::get_context_metadata_path;
use gcpx::paths::get_tracking_path;
use gcpx::store::ContextStore;

fn fresh_store() -> ContextStore {
    ContextStore::new(
        String::from("/home/user/.config/gcpx"),
        String::from("/home/user/.config/gcloud"),
        None,
    )
}

fn fake_blob() -> Vec<u8> {
    String::from("{\"type\": \"authorized_user\"}").into_bytes()
}

fn fake_record(config: &str) -> ContextMetadata {
    ContextMetadata {
        gcloud_config: String::from(config),
        account: Some(String::from("user@example.com")),
        project: Some(String::from("example-project")),
        kubectl_context: None,
    }
}

fn save(store: &mut ContextStore, name: &str) -> Result<gcpx::ops::SaveOutcome, CtxError> {
    store.save_context(name, Some(fake_blob()), fake_record("default"), false)
}

#[test]
fn test_list_contexts_empty() {
    let store = fresh_store();
    let contexts = store.list_contexts();
    assert!(contexts.is_empty());
}

#[test]
fn test_get_current_tracking_default() {
    let store = fresh_store();
    let current = store.get_current_tracking();
    assert_eq!(current, "none");
}

#[test]
fn test_save_context_without_adc_fails() {
    let mut store = fresh_store();
    let result = store.save_context("test-context", None, fake_record("default"), false);
    assert!(result.is_err());
    assert!(result.unwrap_err().message().contains("No credentials found"));
    // Nothing was persisted: no context, no marker movement.
    assert!(store.list_contexts().is_empty());
    assert_eq!(store.get_current_tracking(), "none");
}

#[test]
fn test_save_and_list_context() {
    let mut store = fresh_store();
    save(&mut store, "my-project").expect("Failed to save context");

    let contexts = store.list_contexts();
    assert_eq!(contexts, vec!["my-project"]);

    let current = store.get_current_tracking();
    assert_eq!(current, "my-project");

    // The blob is written to the context's adc.json path.
    let outcome = save(&mut store, "my-project").expect("Failed to save context");
    let blob_write = &outcome.effects[1];
    match blob_write {
        Effect::WriteBlob { path, content } => {
            assert_eq!(path, "/home/user/.config/gcpx/my-project/adc.json");
            assert_eq!(content, &fake_blob());
        }
        other => panic!("unexpected effect in the blob slot: {:?}", effect_kind(other)),
    }
}

fn effect_kind(e: &Effect) -> &'static str {
    match e {
        Effect::EnsureDir { .. } => "EnsureDir",
        Effect::WriteBlob { .. } => "WriteBlob",
        Effect::WriteMetadata { .. } => "WriteMetadata",
        Effect::RestrictToOwner { .. } => "RestrictToOwner",
        Effect::WriteMarker { .. } => "WriteMarker",
        Effect::RemoveDirTree { .. } => "RemoveDirTree",
        Effect::CopyFile { .. } => "CopyFile",
    }
}

#[test]
fn test_context_exists() {
    let mut store = fresh_store();
    assert!(!store.context_exists("new-project"));

    save(&mut store, "new-project").expect("Failed to save context");

    assert!(store.context_exists("new-project"));
}

#[test]
fn test_multiple_contexts() {
    let mut store = fresh_store();
    save(&mut store, "project-a").expect("Failed to save context a");
    save(&mut store, "project-b").expect("Failed to save context b");
    save(&mut store, "project-c").expect("Failed to save context c");

    let contexts = store.list_contexts();
    assert_eq!(contexts, vec!["project-a", "project-b", "project-c"]);
}

#[test]
fn test_list_is_sorted_after_unordered_saves() {
    let mut store = fresh_store();
    save(&mut store, "proj-c").expect("Failed to save context c");
    save(&mut store, "proj-a").expect("Failed to save context a");
    save(&mut store, "proj-b").expect("Failed to save context b");

    let contexts = store.list_contexts();
    assert_eq!(contexts, vec!["proj-a", "proj-b", "proj-c"]);
}

#[test]
fn test_switch_nonexistent_context_fails() {
    let store = fresh_store();
    let result = store.switch_plan("nonexistent");
    assert!(result.is_err());
    assert!(result.unwrap_err().message().contains("not found"));
    // The marker did not move.
    assert_eq!(store.get_current_tracking(), "none");
}

#[test]
fn test_switch_already_active_is_a_no_op() {
    let mut store = fresh_store();
    save(&mut store, "work").expect("Failed to save context");
    let plan = store.switch_plan("work").expect("Switch to the active context must succeed");
    assert!(matches!(plan, SwitchPlan::AlreadyActive));
}

#[test]
fn test_switch_plan_carries_profile_and_paths() {
    let mut store = fresh_store();
    save(&mut store, "work").expect("Failed to save context");
    save(&mut store, "play").expect("Failed to save context");

    // "play" is now active, so switching to "work" needs activation.
    let plan = store.switch_plan("work").expect("Failed to plan the switch");
    match plan {
        SwitchPlan::Activate(a) => {
            assert_eq!(a.gcloud_config, "default");
            match a.restore {
                Effect::CopyFile { from, to } => {
                    assert_eq!(from, "/home/user/.config/gcpx/work/adc.json");
                    assert_eq!(
                        to,
                        "/home/user/.config/gcloud/application_default_credentials.json"
                    );
                }
                other => panic!("unexpected restore effect: {:?}", effect_kind(&other)),
            }
            assert!(a.kubectl_context.is_none());
        }
        SwitchPlan::AlreadyActive => panic!("expected an activation plan"),
    }
}

#[test]
fn test_delete_context() {
    let mut store = fresh_store();
    save(&mut store, "to-delete").expect("Failed to save context");
    assert!(store.context_exists("to-delete"));

    store.delete_context("to-delete", false).expect("Failed to delete context");
    assert!(!store.context_exists("to-delete"));
    assert!(store.list_contexts().is_empty());
}

#[test]
fn test_delete_nonexistent_context_fails() {
    let mut store = fresh_store();
    let result = store.delete_context("nonexistent", false);
    assert!(result.is_err());
    assert!(result.unwrap_err().message().contains("not found"));
}

#[test]
fn test_delete_keeps_marker_and_warns_when_active() {
    let mut store = fresh_store();
    save(&mut store, "busy").expect("Failed to save context");
    let outcome = store.delete_context("busy", true).expect("Failed to delete context");
    assert!(outcome.was_active);
    assert!(outcome.delete_profile);
    // The marker dangles by design.
    assert_eq!(store.get_current_tracking(), "busy");
    match &outcome.effects[0] {
        Effect::RemoveDirTree { path } => {
            assert_eq!(path, "/home/user/.config/gcpx/busy");
        }
        other => panic!("unexpected effect: {:?}", effect_kind(other)),
    }
}

#[test]
fn test_run_with_nonexistent_context_fails() {
    let store = fresh_store();
    let cmd = vec![String::from("echo"), String::from("hello")];
    let result = store.run_plan("nonexistent", &cmd);
    assert!(result.is_err());
    assert!(result.unwrap_err().message().contains("not found"));
    assert_eq!(store.get_current_tracking(), "none");
}

#[test]
fn test_run_with_empty_command_fails() {
    let mut store = fresh_store();
    save(&mut store, "test-ctx").expect("Failed to save context");

    let result = store.run_plan("test-ctx", &vec![]);
    assert!(result.is_err());
    assert!(result.unwrap_err().message().contains("No command"));
    assert_eq!(store.get_current_tracking(), "test-ctx");
}

#[test]
fn test_run_plan_scopes_environment_to_context() {
    let mut store = fresh_store();
    save(&mut store, "scoped").expect("Failed to save context");
    let cmd = vec![String::from("echo"), String::from("hello"), String::from("there")];
    let plan = store.run_plan("scoped", &cmd).expect("Failed to plan the run");
    assert_eq!(plan.program, "echo");
    assert_eq!(plan.args, vec!["hello", "there"]);
    assert_eq!(plan.credentials_path, "/home/user/.config/gcpx/scoped/adc.json");
    assert_eq!(plan.gcloud_config, "default");
}

#[test]
fn test_save_context_quiet_mode() {
    let mut store = fresh_store();
    let outcome = store
        .save_context("quiet-project", Some(fake_blob()), fake_record("default"), true)
        .expect("Failed to save context in quiet mode");

    let contexts = store.list_contexts();
    assert!(contexts.contains(&String::from("quiet-project")));

    // Quiet mode suppresses every detail notice.
    assert!(outcome.notices.is_empty());

    // But the persisted state is complete: metadata saved, tracking updated.
    let metadata = store.load_context_metadata("quiet-project");
    assert!(metadata.is_some());
    assert_eq!(store.get_current_tracking(), "quiet-project");
}

#[test]
fn test_quiet_and_loud_saves_persist_identically() {
    let mut quiet_store = fresh_store();
    let mut loud_store = fresh_store();
    let quiet = quiet_store
        .save_context("proj", Some(fake_blob()), fake_record("cfg"), true)
        .expect("Failed to save quietly");
    let loud = loud_store
        .save_context("proj", Some(fake_blob()), fake_record("cfg"), false)
        .expect("Failed to save loudly");

    assert_eq!(quiet_store.list_contexts(), loud_store.list_contexts());
    assert_eq!(quiet_store.get_current_tracking(), loud_store.get_current_tracking());
    assert_eq!(quiet.effects.len(), loud.effects.len());
    assert!(quiet.notices.is_empty());
    assert!(!loud.notices.is_empty());
}

#[test]
fn test_switch_context_quiet_mode() {
    let store = fresh_store();
    let result = store.switch_plan("nonexistent");
    assert!(result.is_err());
    assert!(result.unwrap_err().message().contains("not found"));
}

#[test]
fn test_save_twice_replaces_whole() {
    let mut store = fresh_store();
    save(&mut store, "a").expect("Failed to save context");

    let second_blob = String::from("{\"type\": \"service_account\"}").into_bytes();
    let second_record = ContextMetadata {
        gcloud_config: String::from("other-config"),
        account: None,
        project: None,
        kubectl_context: Some(String::from("cluster-1")),
    };
    let outcome = store
        .save_context("a", Some(second_blob.clone()), second_record, false)
        .expect("Failed to save context again");

    // Listed once, and the new blob and record replace the old whole.
    assert_eq!(store.list_contexts(), vec!["a"]);
    match &outcome.effects[1] {
        Effect::WriteBlob { content, .. } => assert_eq!(content, &second_blob),
        other => panic!("unexpected effect: {:?}", effect_kind(other)),
    }
    let record = store.load_context_metadata("a").expect("metadata must be present");
    assert_eq!(record.gcloud_config, "other-config");
    assert_eq!(record.account, None);
    assert_eq!(record.project, None);
    assert_eq!(record.kubectl_context, Some(String::from("cluster-1")));
}

#[test]
fn test_validate_context_name_rejects_traversal() {
    let mut store = fresh_store();

    let result = store.save_context("../etc", Some(fake_blob()), fake_record("default"), false);
    assert!(result.is_err()); // Rejected (starts with dot)

    let result = store.save_context("a/../etc", Some(fake_blob()), fake_record("default"), false);
    assert!(result.is_err());
    assert!(result.unwrap_err().message().contains("path separators"));

    let result = store.save_context("..", Some(fake_blob()), fake_record("default"), false);
    assert!(result.is_err());
    assert!(result.unwrap_err().message().contains("'..'"));

    let result = store.save_context(".", Some(fake_blob()), fake_record("default"), false);
    assert!(result.is_err());
    assert!(result.unwrap_err().message().contains("'.'"));

    let result = store.save_context("", Some(fake_blob()), fake_record("default"), false);
    assert!(result.is_err());
    assert!(result.unwrap_err().message().contains("empty"));

    let result = store.save_context(".hidden", Some(fake_blob()), fake_record("default"), false);
    assert!(result.is_err());
    assert!(result.unwrap_err().message().contains("dot"));

    let result = store.save_context("foo/bar", Some(fake_blob()), fake_record("default"), false);
    assert!(result.is_err());
    assert!(result.unwrap_err().message().contains("path separators"));

    let result = store.save_context("foo\\bar", Some(fake_blob()), fake_record("default"), false);
    assert!(result.is_err());
    assert!(result.unwrap_err().message().contains("path separators"));

    // Nothing was saved and the marker never moved.
    assert!(store.list_contexts().is_empty());
    assert_eq!(store.get_current_tracking(), "none");
}

#[test]
fn test_validate_context_name_accepts_valid() {
    assert!(validate_context_name("my-project").is_ok());
    assert!(validate_context_name("work").is_ok());
    assert!(validate_context_name("project_123").is_ok());
    assert!(validate_context_name("My-GCP-Context").is_ok());
}

#[test]
fn test_validate_context_name_rejects_control_characters() {
    let result = validate_context_name("bad\u{7}name");
    assert!(result.is_err());
    assert!(result.unwrap_err().message().contains("control characters"));
}

#[test]
fn test_adc_file_permissions() {
    let mut store = fresh_store();
    let outcome = save(&mut store, "secure-project").expect("Failed to save context");

    // Right after the blob write, its path is restricted to owner
    // read/write (mode 0600 on filesystems with permission bits).
    let blob_path = match &outcome.effects[1] {
        Effect::WriteBlob { path, .. } => path.clone(),
        other => panic!("unexpected effect: {:?}", effect_kind(other)),
    };
    match &outcome.effects[3] {
        Effect::RestrictToOwner { path } => assert_eq!(path, &blob_path),
        other => panic!("unexpected effect: {:?}", effect_kind(other)),
    }
}

#[test]
fn test_save_effect_order() {
    let mut store = fresh_store();
    let outcome = save(&mut store, "ordered").expect("Failed to save context");
    let kinds: Vec<&'static str> = outcome.effects.iter().map(effect_kind).collect();
    assert_eq!(
        kinds,
        vec!["EnsureDir", "WriteBlob", "WriteMetadata", "RestrictToOwner", "WriteMarker"]
    );
    match &outcome.effects[4] {
        Effect::WriteMarker { path, value } => {
            assert_eq!(path, "/home/user/.config/gcpx/.current");
            assert_eq!(value, "ordered");
        }
        other => panic!("unexpected effect: {:?}", effect_kind(other)),
    }
}

#[test]
fn test_save_notices_detail_lines() {
    let mut store = fresh_store();
    let outcome = store
        .save_context("detailed", Some(fake_blob()), fake_record("my-config"), false)
        .expect("Failed to save context");
    assert_eq!(outcome.notices.len(), 3);
    assert!(matches!(&outcome.notices[0], Notice::ConfigDetail { value } if value == "my-config"));
    assert!(
        matches!(&outcome.notices[1], Notice::AccountDetail { value } if value == "user@example.com")
    );
    assert!(
        matches!(&outcome.notices[2], Notice::ProjectDetail { value } if value == "example-project")
    );
}

#[test]
fn test_paths_follow_store_layout() {
    assert_eq!(
        get_adc_path("/home/u/.config/gcloud"),
        "/home/u/.config/gcloud/application_default_credentials.json"
    );
    assert_eq!(get_context_dir("/home/u/.config/gcpx", "x"), "/home/u/.config/gcpx/x");
    assert_eq!(
        get_context_adc_path("/home/u/.config/gcpx", "x"),
        "/home/u/.config/gcpx/x/adc.json"
    );
    assert_eq!(
        get_context_metadata_path("/home/u/.config/gcpx", "x"),
        "/home/u/.config/gcpx/x/metadata.json"
    );
    assert_eq!(get_tracking_path("/home/u/.config/gcpx"), "/home/u/.config/gcpx/.current");
}

#[test]
fn test_effective_config_name_defaults_when_empty() {
    assert_eq!(effective_config_name(""), "default");
    assert_eq!(effective_config_name("work-config"), "work-config");
}

#[test]
fn test_optional_config_value_unset_sentinel() {
    assert_eq!(optional_config_value(""), None);
    assert_eq!(optional_config_value("(unset)"), None);
    assert_eq!(optional_config_value("my-project"), Some(String::from("my-project")));
}

#[test]
fn test_kubectl_query_degrades_to_absent() {
    assert_eq!(kubectl_query_value(false, "ctx"), None);
    assert_eq!(kubectl_query_value(true, ""), None);
    assert_eq!(kubectl_query_value(true, "cluster-1"), Some(String::from("cluster-1")));
}

#[test]
fn test_classify_profile_delete_idempotent() {
    assert_eq!(classify_profile_delete(true, ""), ProfileDeleteOutcome::Deleted);
    assert_eq!(
        classify_profile_delete(false, "ERROR: configuration does not exist."),
        ProfileDeleteOutcome::AlreadyAbsent
    );
    assert_eq!(classify_profile_delete(false, "ERROR: permission denied"), ProfileDeleteOutcome::Failed);
}

#[test]
fn test_activation_failure_is_fatal_to_switch() {
    assert!(gcpx::adapters::activation_outcome(true).is_ok());
    let err = gcpx::adapters::activation_outcome(false).unwrap_err();
    assert!(matches!(err, CtxError::ExternalToolError));
}

#[test]
fn test_error_messages_name_each_failure() {
    assert!(CtxError::ContextNotFound.message().contains("not found"));
    assert!(CtxError::NoCredentials.message().contains("No credentials found"));
    assert!(CtxError::NoCommand.message().contains("No command"));
    assert!(CtxError::CorruptMetadata.message().contains("metadata"));
    assert!(CtxError::ExternalToolError.message().contains("external tool"));
    assert!(
        CtxError::ExternalCommandFailed { code: 2 }
            .message()
            .contains("non-zero")
    );
}

#[test]
fn test_run_exit_outcome_propagates_code() {
    assert!(run_exit_outcome(0).is_ok());
    let err = run_exit_outcome(3).unwrap_err();
    assert!(matches!(err, CtxError::ExternalCommandFailed { code: 3 }));
}

#[test]
fn test_restore_entries_arrive_unordered() {
    let mut store = fresh_store();
    store.restore_entry(String::from("zeta"), fake_blob(), None);
    store.restore_entry(String::from("alpha"), fake_blob(), Some(fake_record("cfg-a")));
    store.restore_entry(String::from("mid"), fake_blob(), None);

    assert_eq!(store.list_contexts(), vec!["alpha", "mid", "zeta"]);
    // A context restored without a record reports none: the fallback to
    // the context name happens at switch time.
    assert!(store.load_context_metadata("zeta").is_none());
    let plan = store.switch_plan("zeta").expect("Failed to plan the switch");
    match plan {
        SwitchPlan::Activate(a) => assert_eq!(a.gcloud_config, "zeta"),
        SwitchPlan::AlreadyActive => panic!("expected an activation plan"),
    }
}
