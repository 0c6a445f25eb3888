use mrcp_engine::engine::{Engine, ShutdownOutcome};
use mrcp_engine::params::engine_param;
use mrcp_engine::registry::{DestroyOutcome, EngineRegistry};

#[test]
fn missing_param_gives_empty_filename() {
    let engine = Engine::new(None);
    assert_eq!(engine.filename(), "");
    assert_eq!(engine.shutdown(), ShutdownOutcome::RuntimeStopped);
}

#[test]
fn valid_param_gives_its_text() {
    let engine = Engine::new(Some(b"voice.conf\0".to_vec()));
    assert_eq!(engine.filename(), "voice.conf");
    assert_eq!(engine.shutdown(), ShutdownOutcome::RuntimeStopped);
}

#[test]
fn invalid_utf8_param_gives_empty_filename() {
    let engine = Engine::new(Some(vec![0xFF, 0xFE, 0x80, 0x00]));
    assert_eq!(engine.filename(), "");
    assert_eq!(engine.shutdown(), ShutdownOutcome::RuntimeStopped);
}

#[test]
fn unterminated_param_gives_empty_filename() {
    let engine = Engine::new(Some(b"voice.conf".to_vec()));
    assert_eq!(engine.filename(), "");
    assert_eq!(engine.shutdown(), ShutdownOutcome::RuntimeStopped);
}

#[test]
fn param_text_stops_at_first_nul() {
    assert_eq!(engine_param(Some(b"abc\0def\0".to_vec())), Some("abc".to_string()));
    assert_eq!(engine_param(Some(b"\0".to_vec())), Some("".to_string()));
    assert_eq!(engine_param(Some(b"abc".to_vec())), None);
    assert_eq!(engine_param(Some(vec![0xC3, 0x28, 0x00])), None);
    assert_eq!(engine_param(None), None);
}

#[test]
fn destroying_the_null_handle_is_a_no_op() {
    let mut reg = EngineRegistry::new();
    assert_eq!(reg.destroy(0), DestroyOutcome::NullHandle);
    assert_eq!(reg.destroy(0), DestroyOutcome::NullHandle);
}

#[test]
fn destroying_an_unknown_handle_is_a_no_op() {
    let mut reg = EngineRegistry::new();
    assert_eq!(reg.destroy(42), DestroyOutcome::UnknownHandle);
    let h = reg.create(Engine::new(None));
    assert_eq!(reg.destroy(h + 1), DestroyOutcome::UnknownHandle);
    assert_eq!(
        reg.destroy(h),
        DestroyOutcome::EngineStopped(ShutdownOutcome::RuntimeStopped)
    );
    assert_eq!(reg.destroy(h), DestroyOutcome::UnknownHandle);
}

#[test]
fn channel_ids_are_distinct_positive_and_gapless() {
    let mut reg = EngineRegistry::new();
    let h = reg.create(Engine::new(None));
    let mut seen: Vec<usize> = Vec::new();
    for _ in 0..100 {
        let id = reg.open_channel(h).expect("live handle");
        assert!(id >= 1);
        assert!(!seen.contains(&id));
        seen.push(id);
    }
    let mut sorted = seen.clone();
    sorted.sort();
    sorted.dedup();
    assert_eq!(sorted.len(), 100);
    assert_eq!(sorted, (1..=100).collect::<Vec<usize>>());
    assert_eq!(
        reg.destroy(h),
        DestroyOutcome::EngineStopped(ShutdownOutcome::RuntimeStopped)
    );
}

#[test]
fn open_channel_on_a_dead_handle_yields_nothing() {
    let mut reg = EngineRegistry::new();
    let h = reg.create(Engine::new(None));
    reg.destroy(h);
    assert_eq!(reg.open_channel(h), None);
    assert_eq!(reg.open_channel(0), None);
}

#[test]
fn shared_engine_state_skips_shutdown_without_crashing() {
    let mut reg = EngineRegistry::new();
    let h = reg.create(Engine::new(Some(b"voice.conf\0".to_vec())));
    let extra = reg.engine(h).expect("live handle");
    assert_eq!(extra.filename(), "voice.conf");
    assert_eq!(reg.destroy(h), DestroyOutcome::EngineShared);
    assert_eq!(reg.destroy(h), DestroyOutcome::UnknownHandle);
    assert_eq!(extra.filename(), "voice.conf");
    drop(extra);
}

#[test]
fn engine_reference_of_a_dead_handle_is_gone() {
    let mut reg = EngineRegistry::new();
    let h = reg.create(Engine::new(None));
    assert!(reg.engine(h).is_some());
    reg.destroy(h);
    assert!(reg.engine(h).is_none());
    assert!(reg.engine(0).is_none());
}

#[test]
fn shutdown_returns_within_the_timeout_bound() {
    let mut reg = EngineRegistry::new();
    let h = reg.create(Engine::new(None));
    {
        let engine = reg.engine(h).expect("live handle");
        engine.async_handle().spawn(async {
            tokio::time::sleep(std::time::Duration::from_secs(60)).await;
        });
    }
    let started = std::time::Instant::now();
    let out = reg.destroy(h);
    let elapsed = started.elapsed();
    assert_eq!(out, DestroyOutcome::EngineStopped(ShutdownOutcome::RuntimeStopped));
    assert!(elapsed < std::time::Duration::from_secs(10));
}

#[test]
fn create_then_three_channels_then_destroy() {
    let mut reg = EngineRegistry::new();
    let h = reg.create(Engine::new(Some(b"voice.conf\0".to_vec())));
    assert_eq!(reg.engine(h).expect("live handle").filename(), "voice.conf");
    assert_eq!(reg.open_channel(h), Some(1));
    assert_eq!(reg.open_channel(h), Some(2));
    assert_eq!(reg.open_channel(h), Some(3));
    assert_eq!(
        reg.destroy(h),
        DestroyOutcome::EngineStopped(ShutdownOutcome::RuntimeStopped)
    );
}

#[test]
fn handles_stay_independent() {
    let mut reg = EngineRegistry::new();
    let a = reg.create(Engine::new(Some(b"a.conf\0".to_vec())));
    let b = reg.create(Engine::new(Some(b"b.conf\0".to_vec())));
    assert_ne!(a, b);
    assert_eq!(reg.open_channel(a), Some(1));
    assert_eq!(reg.open_channel(a), Some(2));
    assert_eq!(reg.open_channel(b), Some(1));
    assert_eq!(reg.engine(a).expect("live").filename(), "a.conf");
    assert_eq!(reg.engine(b).expect("live").filename(), "b.conf");
    assert_eq!(
        reg.destroy(a),
        DestroyOutcome::EngineStopped(ShutdownOutcome::RuntimeStopped)
    );
    assert_eq!(reg.open_channel(b), Some(2));
    assert_eq!(
        reg.destroy(b),
        DestroyOutcome::EngineStopped(ShutdownOutcome::RuntimeStopped)
    );
}
