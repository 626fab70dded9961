use adapters_launcher::configs::{Adapter, Launcher, LauncherConfig, ProcessHandle};
use adapters_launcher::configs::ConfigError;
use adapters_launcher::supervisor::{
    plan, Action, Cursor, Event, Severity, SpawnRequest, Supervisor,
};

fn adapter(name: &str, typ: &str, config: &str) -> Adapter {
    Adapter {
        name: name.to_string(),
        typ: typ.to_string(),
        config: config.to_string(),
        pid: None,
        child: None,
    }
}

fn config_of(adapters: Vec<Adapter>) -> LauncherConfig {
    LauncherConfig { launcher: Launcher { log_level: Some("Debug".to_string()) }, adapters }
}

fn handle(token: u64) -> ProcessHandle {
    ProcessHandle { token }
}

fn spawn(index: usize, exe: &str, config: &str, env: Option<(&str, &str)>) -> Action {
    Action::Spawn {
        index,
        request: SpawnRequest {
            executable: exe.to_string(),
            args: vec!["-c".to_string(), config.to_string()],
            env: env.map(|(k, v)| (k.to_string(), v.to_string())),
        },
    }
}

fn children(sup: &Supervisor) -> Vec<Option<ProcessHandle>> {
    sup.adapters().iter().map(|a| a.child).collect()
}

fn three() -> Supervisor {
    Supervisor::start(config_of(vec![
        adapter("bridge1", "pub-sub-bridge", "/etc/bridge1.yaml"),
        adapter("iccpA", "iccp-client", "/etc/iccpA.yaml"),
        adapter("plug", "oes-plug", "/etc/plug.yaml"),
    ]))
    .unwrap()
}

#[test]
fn bridge_scenario_is_spawned_with_shared_executable() {
    let a = adapter("bridge1", "pub-sub-bridge", "/etc/bridge1.yaml");
    assert_eq!(
        LauncherConfig::get_executable_name(&a.typ),
        Some(("openfmb-adapter".to_string(), (String::new(), String::new())))
    );
    assert_eq!(plan(0, &a), spawn(0, "openfmb-adapter", "/etc/bridge1.yaml", None));
}

#[test]
fn iccp_scenario_is_spawned_with_library_path() {
    let a = adapter("iccpA", "iccp-client", "/etc/iccpA.yaml");
    assert_eq!(
        plan(4, &a),
        spawn(
            4,
            "iccp-adapter",
            "/etc/iccpA.yaml",
            Some(("LD_LIBRARY_PATH", "/usr/local/lib/iccp"))
        )
    );
}

#[test]
fn iec61850_launch_carries_its_own_library_path() {
    let a = adapter("sub", "IEC61850-server", "cfg.yaml");
    assert_eq!(
        plan(1, &a),
        spawn(1, "iec61850-adapter", "cfg.yaml", Some(("LD_LIBRARY_PATH", "/usr/local/lib/iec61850")))
    );
}

#[test]
fn running_adapter_is_queried_not_launched() {
    let mut a = adapter("x", "no-such-type", "x.yaml");
    a.child = Some(handle(7));
    assert_eq!(plan(2, &a), Action::CheckStatus { index: 2, handle: handle(7) });
}

#[test]
fn unknown_type_plans_a_stop_naming_the_adapter() {
    let a = adapter("mystery", "no-such-type", "x.yaml");
    match plan(0, &a) {
        Action::Stop(Err(e)) => {
            assert_eq!(e.message(), "Unable to find executable file for adapter mystery")
        }
        other => panic!("unexpected {:?}", other),
    }
}

#[test]
fn empty_adapter_list_is_refused() {
    match Supervisor::start(config_of(Vec::new())) {
        Err(e) => assert_eq!(e.message(), "No adapters found.  Nothing to be launched!"),
        Ok(_) => panic!("an empty list must not start"),
    }
}

#[test]
fn start_stands_at_top_of_tick_and_polls_first() {
    let sup = three();
    assert_eq!(sup.cursor(), Cursor::TickStart);
    assert_eq!(sup.next_action(), Action::PollShutdown);
    assert_eq!(children(&sup), vec![None, None, None]);
}

#[test]
fn idle_adapters_become_running_in_one_tick() {
    let mut sup = three();
    assert_eq!(
        sup.step(Event::NoShutdown),
        spawn(0, "openfmb-adapter", "/etc/bridge1.yaml", None)
    );
    assert_eq!(
        sup.step(Event::Spawned(handle(10))),
        spawn(1, "iccp-adapter", "/etc/iccpA.yaml", Some(("LD_LIBRARY_PATH", "/usr/local/lib/iccp")))
    );
    assert_eq!(
        sup.step(Event::Spawned(handle(11))),
        spawn(2, "udp-adapter", "/etc/plug.yaml", None)
    );
    assert_eq!(sup.step(Event::Spawned(handle(12))), Action::PollShutdown);
    assert_eq!(sup.cursor(), Cursor::TickStart);
    assert_eq!(children(&sup), vec![Some(handle(10)), Some(handle(11)), Some(handle(12))]);
}

#[test]
fn failed_spawn_leaves_adapter_idle_and_retries_next_tick() {
    let mut sup = Supervisor::start(config_of(vec![adapter("o", "ocpp", "o.yaml")])).unwrap();
    assert_eq!(sup.step(Event::NoShutdown), spawn(0, "ocpp-adapter", "o.yaml", None));
    assert_eq!(sup.step(Event::SpawnFailed), Action::PollShutdown);
    assert_eq!(children(&sup), vec![None]);
    assert_eq!(sup.step(Event::NoShutdown), spawn(0, "ocpp-adapter", "o.yaml", None));
}

#[test]
fn exited_process_is_reaped_then_relaunched_next_tick() {
    let mut sup = three();
    sup.step(Event::NoShutdown);
    sup.step(Event::Spawned(handle(1)));
    sup.step(Event::Spawned(handle(2)));
    sup.step(Event::Spawned(handle(3)));
    assert_eq!(sup.step(Event::NoShutdown), Action::CheckStatus { index: 0, handle: handle(1) });
    assert_eq!(sup.step(Event::StillRunning), Action::CheckStatus { index: 1, handle: handle(2) });
    assert_eq!(sup.step(Event::Exited), Action::CheckStatus { index: 2, handle: handle(3) });
    assert_eq!(sup.step(Event::StatusUnknown), Action::PollShutdown);
    assert_eq!(children(&sup), vec![Some(handle(1)), None, Some(handle(3))]);
    assert_eq!(sup.step(Event::NoShutdown), Action::CheckStatus { index: 0, handle: handle(1) });
    assert_eq!(
        sup.step(Event::StillRunning),
        spawn(1, "iccp-adapter", "/etc/iccpA.yaml", Some(("LD_LIBRARY_PATH", "/usr/local/lib/iccp")))
    );
    assert_eq!(sup.step(Event::Spawned(handle(9))), Action::CheckStatus { index: 2, handle: handle(3) });
    assert_eq!(sup.step(Event::StillRunning), Action::PollShutdown);
    assert_eq!(children(&sup), vec![Some(handle(1)), Some(handle(9)), Some(handle(3))]);
}

#[test]
fn unknown_status_freezes_the_adapter() {
    let mut c = config_of(vec![adapter("h", "historian", "h.yaml")]);
    c.adapters[0].child = Some(handle(5));
    let mut sup = Supervisor::start(c).unwrap();
    for _ in 0..3 {
        assert_eq!(sup.step(Event::NoShutdown), Action::CheckStatus { index: 0, handle: handle(5) });
        assert_eq!(sup.step(Event::StatusUnknown), Action::PollShutdown);
        assert_eq!(children(&sup), vec![Some(handle(5))]);
    }
}

#[test]
fn unresolvable_adapter_stops_the_loop_and_orphans_earlier_ones() {
    let mut sup = Supervisor::start(config_of(vec![
        adapter("bridge1", "pub-sub-bridge", "/etc/bridge1.yaml"),
        adapter("bad", "teleport", "/etc/bad.yaml"),
        adapter("plug", "oes-plug", "/etc/plug.yaml"),
    ]))
    .unwrap();
    sup.step(Event::NoShutdown);
    let stop = sup.step(Event::Spawned(handle(1)));
    match &stop {
        Action::Stop(Err(e)) => {
            assert_eq!(e.message(), "Unable to find executable file for adapter bad")
        }
        other => panic!("unexpected {:?}", other),
    }
    assert_eq!(sup.cursor(), Cursor::At(1));
    assert_eq!(children(&sup), vec![Some(handle(1)), None, None]);
    for e in [Event::NoShutdown, Event::Spawned(handle(2)), Event::Exited, Event::ShutdownRequested] {
        assert_eq!(sup.step(e), stop);
        assert_eq!(children(&sup), vec![Some(handle(1)), None, None]);
    }
}

#[test]
fn pending_shutdown_stops_before_touching_any_adapter() {
    let mut sup = three();
    assert_eq!(sup.step(Event::ShutdownRequested), Action::Stop(Ok(())));
    assert_eq!(sup.cursor(), Cursor::ShutDown);
    assert_eq!(children(&sup), vec![None, None, None]);
    assert_eq!(sup.step(Event::NoShutdown), Action::Stop(Ok(())));
    assert_eq!(sup.step(Event::Spawned(handle(1))), Action::Stop(Ok(())));
    assert_eq!(children(&sup), vec![None, None, None]);
}

#[test]
fn shutdown_leaves_running_children_alone() {
    let mut sup = three();
    sup.step(Event::NoShutdown);
    sup.step(Event::Spawned(handle(1)));
    sup.step(Event::Spawned(handle(2)));
    sup.step(Event::Spawned(handle(3)));
    assert_eq!(sup.step(Event::ShutdownRequested), Action::Stop(Ok(())));
    assert_eq!(children(&sup), vec![Some(handle(1)), Some(handle(2)), Some(handle(3))]);
}

#[test]
fn shutdown_is_only_honoured_at_top_of_tick() {
    let mut sup = three();
    let pending = sup.step(Event::NoShutdown);
    assert_eq!(sup.step(Event::ShutdownRequested), pending);
    assert_eq!(sup.cursor(), Cursor::At(0));
}

#[test]
fn reports_that_do_not_answer_the_pending_action_change_nothing() {
    let mut sup = three();
    for e in [Event::Exited, Event::StillRunning, Event::StatusUnknown, Event::Spawned(handle(1)), Event::SpawnFailed] {
        assert_eq!(sup.step(e), Action::PollShutdown);
        assert_eq!(sup.cursor(), Cursor::TickStart);
        assert_eq!(children(&sup), vec![None, None, None]);
    }
    let pending = sup.step(Event::NoShutdown);
    for e in [Event::Exited, Event::StillRunning, Event::StatusUnknown, Event::NoShutdown] {
        assert_eq!(sup.step(e), pending);
        assert_eq!(sup.cursor(), Cursor::At(0));
        assert_eq!(children(&sup), vec![None, None, None]);
    }
}

#[test]
fn into_config_returns_adapters_with_their_processes() {
    let mut sup = three();
    sup.step(Event::NoShutdown);
    sup.step(Event::Spawned(handle(42)));
    let config = sup.into_config();
    assert_eq!(config.launcher, Launcher { log_level: Some("Debug".to_string()) });
    assert_eq!(config.adapters.len(), 3);
    assert_eq!(config.adapters[0].child, Some(handle(42)));
    assert_eq!(config.adapters[0].name, "bridge1");
    assert_eq!(config.adapters[1], adapter("iccpA", "iccp-client", "/etc/iccpA.yaml"));
    assert_eq!(config.adapters[2].pid, None);
}

#[test]
fn reports_are_logged_at_the_severity_of_their_kind() {
    assert_eq!(Event::Exited.severity(), Some(Severity::Info));
    assert_eq!(Event::StatusUnknown.severity(), Some(Severity::Warning));
    assert_eq!(Event::SpawnFailed.severity(), Some(Severity::Error));
    assert_eq!(Event::StillRunning.severity(), None);
    assert_eq!(Event::Spawned(handle(1)).severity(), None);
    assert_eq!(Event::NoShutdown.severity(), None);
    assert_eq!(Event::ShutdownRequested.severity(), None);
}

#[test]
fn only_a_failed_stop_is_logged_as_an_error() {
    let failed = Action::Stop(Err(ConfigError::new("x".to_string())));
    assert_eq!(failed.severity(), Some(Severity::Error));
    assert_eq!(Action::Stop(Ok(())).severity(), None);
    assert_eq!(Action::PollShutdown.severity(), None);
    assert_eq!(Action::CheckStatus { index: 0, handle: handle(1) }.severity(), None);
    assert_eq!(spawn(0, "ocpp-adapter", "o.yaml", None).severity(), None);
}
