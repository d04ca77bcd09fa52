use run_controller::config::{parse_config, RawConfig};
use run_controller::errors::{ConfigField, SignalError, SpawnError, StopError};
use run_controller::instance::{conclude_run, Instance, RunEnd};

fn sample_raw() -> RawConfig {
    RawConfig {
        account: String::from("acme"),
        project: String::from("site-1"),
        access_key_id: String::from("AKIDexample01"),
        secret_access_key: String::from("s3cr3t-value"),
        config_path: None,
        watch_config: None,
        labels: vec![(String::from("env"), String::from("production"))],
        extra_params: vec![(String::from("client"), String::from("host-shell"))],
    }
}

#[test]
fn create_then_first_spawn_succeeds() {
    let cfg = parse_config(sample_raw()).unwrap();
    assert!(cfg.watch_config);
    let mut inst = Instance::create(42u32);
    let parts = inst.begin_run().unwrap();
    assert_eq!(parts.service, 42);
    let verdict = conclude_run(RunEnd::Completed(Ok(())));
    assert!(verdict.is_ok());
}

#[test]
fn second_spawn_fails_with_already_spawned() {
    let mut inst = Instance::create(1u8);
    assert!(inst.begin_run().is_ok());
    let second = inst.begin_run();
    assert!(matches!(second, Err(SpawnError::AlreadySpawned)));
    let third = inst.begin_run();
    assert!(matches!(third, Err(SpawnError::AlreadySpawned)));
}

#[test]
fn early_stop_is_seen_by_the_run() {
    let mut inst = Instance::create(0u8);
    assert!(inst.stop().is_ok());
    let mut parts = inst.begin_run().unwrap();
    assert!(parts.stop_arrived());
    assert!(conclude_run(RunEnd::Stopped).is_ok());
}

#[test]
fn second_stop_fails_with_already_stopped() {
    let mut inst = Instance::create(0u8);
    assert!(inst.stop().is_ok());
    assert!(matches!(inst.stop(), Err(StopError::AlreadyStopped)));
}

#[test]
fn reloads_before_spawn_are_all_kept_in_order() {
    let mut inst = Instance::create(0u8);
    assert!(inst.reload().is_ok());
    assert!(inst.reload().is_ok());
    assert!(inst.reload().is_ok());
    let mut parts = inst.begin_run().unwrap();
    assert_eq!(parts.take_reload(), Some(()));
    assert_eq!(parts.take_reload(), Some(()));
    assert_eq!(parts.take_reload(), Some(()));
    assert_eq!(parts.take_reload(), None);
}

#[test]
fn fresh_instance_has_no_queued_signals() {
    let mut inst = Instance::create(0u8);
    let mut parts = inst.begin_run().unwrap();
    assert_eq!(parts.take_reload(), None);
    assert!(!parts.stop_arrived());
}

#[test]
fn reload_after_run_is_gone_reports_no_active_run() {
    let mut inst = Instance::create(0u8);
    let parts = inst.begin_run().unwrap();
    drop(parts);
    assert!(matches!(inst.reload(), Err(SignalError::NoActiveRun)));
}

#[test]
fn stop_after_run_is_gone_reports_no_active_run() {
    let mut inst = Instance::create(0u8);
    let parts = inst.begin_run().unwrap();
    drop(parts);
    assert!(matches!(inst.stop(), Err(StopError::NoActiveRun)));
}

#[test]
fn reload_reaches_a_live_run() {
    let mut inst = Instance::create(0u8);
    let mut parts = inst.begin_run().unwrap();
    assert!(inst.reload().is_ok());
    assert_eq!(parts.take_reload(), Some(()));
    assert_eq!(parts.take_reload(), None);
}

#[test]
fn stop_reaches_a_live_run() {
    let mut inst = Instance::create(0u8);
    let mut parts = inst.begin_run().unwrap();
    assert!(inst.stop().is_ok());
    assert!(parts.stop_arrived());
}

#[test]
fn stop_then_reload_before_spawn_both_arrive() {
    let mut inst = Instance::create(0u8);
    assert!(inst.stop().is_ok());
    assert!(inst.reload().is_ok());
    let mut parts = inst.begin_run().unwrap();
    assert_eq!(parts.take_reload(), Some(()));
    assert!(parts.stop_arrived());
}

#[test]
fn empty_access_key_is_rejected_by_name() {
    let mut raw = sample_raw();
    raw.access_key_id = String::new();
    let err = parse_config(raw).unwrap_err();
    assert_eq!(err.field, ConfigField::AccessKeyId);
    assert_eq!(err.field.name(), "access_key_id");
}

#[test]
fn access_key_with_bad_character_is_rejected() {
    let mut raw = sample_raw();
    raw.access_key_id = String::from("AKID with space");
    let err = parse_config(raw).unwrap_err();
    assert_eq!(err.field, ConfigField::AccessKeyId);
}

#[test]
fn first_offending_field_is_named() {
    let mut raw = sample_raw();
    raw.account = String::from("-bad");
    raw.access_key_id = String::new();
    let err = parse_config(raw).unwrap_err();
    assert_eq!(err.field, ConfigField::Account);
}

#[test]
fn bad_project_is_rejected() {
    let mut raw = sample_raw();
    raw.project = String::from("UPPER");
    let err = parse_config(raw).unwrap_err();
    assert_eq!(err.field, ConfigField::Project);
}

#[test]
fn bad_label_name_is_rejected() {
    let mut raw = sample_raw();
    raw.labels = vec![(String::from("ok"), String::from("fine")), (String::from("bad-"), String::from("x"))];
    let err = parse_config(raw).unwrap_err();
    assert_eq!(err.field, ConfigField::LabelName);
}

#[test]
fn empty_label_value_is_rejected() {
    let mut raw = sample_raw();
    raw.labels = vec![(String::from("env"), String::new())];
    let err = parse_config(raw).unwrap_err();
    assert_eq!(err.field, ConfigField::LabelValue);
}

#[test]
fn valid_config_fields_are_carried_over() {
    let mut raw = sample_raw();
    raw.config_path = Some(String::from("/etc/service.yaml"));
    raw.watch_config = Some(false);
    let cfg = parse_config(raw).unwrap();
    assert_eq!(cfg.account, "acme");
    assert_eq!(cfg.project, "site-1");
    assert_eq!(cfg.access_key_id, "AKIDexample01");
    assert_eq!(cfg.secret_access_key, "s3cr3t-value");
    assert_eq!(cfg.config_path.as_deref(), Some("/etc/service.yaml"));
    assert!(!cfg.watch_config);
    assert_eq!(cfg.labels.len(), 1);
    assert_eq!(cfg.labels[0].0, "env");
    assert_eq!(cfg.labels[0].1, "production");
    assert_eq!(cfg.extra_params.len(), 1);
    assert_eq!(cfg.extra_params[0].0, "client");
    assert_eq!(cfg.extra_params[0].1, "host-shell");
}

#[test]
fn longest_allowed_name_is_accepted_and_longer_rejected() {
    let mut raw = sample_raw();
    raw.account = "a".repeat(63);
    assert!(parse_config(raw).is_ok());
    let mut raw = sample_raw();
    raw.account = "a".repeat(64);
    let err = parse_config(raw).unwrap_err();
    assert_eq!(err.field, ConfigField::Account);
}

#[test]
fn minimal_config_is_accepted() {
    let raw = RawConfig {
        account: String::from("a"),
        project: String::from("p"),
        access_key_id: String::from("k"),
        secret_access_key: String::new(),
        config_path: None,
        watch_config: None,
        labels: Vec::new(),
        extra_params: Vec::new(),
    };
    let cfg = parse_config(raw).unwrap();
    assert!(cfg.watch_config);
    assert!(cfg.labels.is_empty());
}

#[test]
fn run_error_message_is_carried_through() {
    let verdict = conclude_run(RunEnd::Completed(Err(String::from("tunnel collapsed"))));
    assert_eq!(verdict, Err(SpawnError::Run(String::from("tunnel collapsed"))));
}

#[test]
fn resolver_failure_is_fatal_for_the_attempt() {
    let verdict = conclude_run(RunEnd::ResolverFailed(String::from("no system configuration")));
    assert_eq!(verdict, Err(SpawnError::ResolverInit(String::from("no system configuration"))));
}

#[test]
fn stop_winning_the_race_is_clean_success() {
    assert!(conclude_run(RunEnd::Stopped).is_ok());
}

#[test]
fn concurrent_spawn_and_stop_consume_each_slot_once() {
    let rt = tokio::runtime::Runtime::new().unwrap();
    let shared = std::sync::Arc::new(parking_lot::Mutex::new(Instance::create(0u8)));
    let h1 = {
        let s = std::sync::Arc::clone(&shared);
        rt.spawn_blocking(move || s.lock().begin_run())
    };
    let h2 = {
        let s = std::sync::Arc::clone(&shared);
        rt.spawn_blocking(move || s.lock().stop())
    };
    let spawn_result = rt.block_on(h1).unwrap();
    let stop_result = rt.block_on(h2).unwrap();
    // The run parts stay alive here, so the stop signal finds its receiver
    // whichever call won the race for the slots.
    assert!(spawn_result.is_ok());
    assert!(stop_result.is_ok());
    assert!(matches!(shared.lock().begin_run(), Err(SpawnError::AlreadySpawned)));
    assert!(matches!(shared.lock().stop(), Err(StopError::AlreadyStopped)));
}

#[test]
fn error_descriptions() {
    assert_eq!(StopError::AlreadyStopped.describe(), "instance already stopped");
    assert_eq!(StopError::NoActiveRun.describe(), "no active run to signal");
    assert_eq!(SignalError::NoActiveRun.describe(), "no active run to signal");
    assert_eq!(ConfigField::Account.name(), "account");
    assert_eq!(ConfigField::LabelName.name(), "label name");
}
