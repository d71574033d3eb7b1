use arsa_backend::container::{
    container_args, event_running_state, listed_container_running, plan_server_container,
    running_change, start_plan, stop_plan, udp_port_key, ContainerStatus, InspectOutcome,
    StartAction, StartupParameter, StopAction, StopOutcome,
};
use arsa_backend::error::ArsaError;
use arsa_backend::responses::ServerStatusUpdates;

fn param(name: &str, enabled: bool, value: Option<&str>) -> StartupParameter {
    StartupParameter {
        parameter: name.to_string(),
        tooltip: String::new(),
        enabled,
        param_type: "number".to_string(),
        value: value.map(|v| v.to_string()),
        value_list: None,
        min_val: None,
        max_val: None,
    }
}

#[test]
fn command_line_of_a_server() {
    let params = vec![
        param("maxFPS", true, Some("30")),
        param("autoReload", false, Some("10")),
        param("loadSessionSave", true, Some("\"\"")),
        param("noValue", true, None),
    ];
    assert_eq!(
        container_args(&params),
        vec![
            "-config",
            "/ars/arsa/config/config.json",
            "-profile",
            "/ars/arsa/profiles/",
            "-maxFPS",
            "30",
            "-loadSessionSave",
            "\"\"",
            "-noValue"
        ]
    );
    assert_eq!(container_args(&vec![]).len(), 4);
}

#[test]
fn container_plan() {
    let id = 0xf30b8424_28d6_4b0a_9348_9f05327fa886;
    let plan = plan_server_container(id, 2001, 17777, 19999, &vec![]);
    assert_eq!(plan.name, "f30b8424-28d6-4b0a-9348-9f05327fa886");
    assert_eq!(plan.hostname, plan.name);
    assert_eq!(plan.image, "thewillard/arsa-test:1.6.0.121");
    assert_eq!(plan.exposed_ports, vec!["17777/udp"]);
    assert_eq!(plan.network, "bridge");
    let b: Vec<(String, String)> = plan
        .port_bindings
        .iter()
        .map(|b| (b.container_port.clone(), b.host_port.clone()))
        .collect();
    assert_eq!(
        b,
        vec![
            ("2001/udp".to_string(), "2001".to_string()),
            ("17777/udp".to_string(), "17777".to_string()),
            ("19999/udp".to_string(), "19999".to_string())
        ]
    );
    assert_eq!(plan.config_mount_target, "/ars/arsa/config");
    assert_eq!(plan.profiles_mount_target, "/ars/arsa/profiles");
    assert_eq!(udp_port_key(0), "0/udp");
}

#[test]
fn starting() {
    assert_eq!(
        start_plan(InspectOutcome::Found(Some(ContainerStatus::Running))).unwrap(),
        StartAction::AlreadyRunning
    );
    assert_eq!(
        start_plan(InspectOutcome::Found(Some(ContainerStatus::Restarting))).unwrap(),
        StartAction::AlreadyRunning
    );
    assert_eq!(
        start_plan(InspectOutcome::Found(Some(ContainerStatus::Exited))).unwrap(),
        StartAction::Start
    );
    assert_eq!(start_plan(InspectOutcome::Found(None)).unwrap(), StartAction::Start);
    assert_eq!(start_plan(InspectOutcome::Missing).unwrap(), StartAction::CreateAndStart);
    assert!(matches!(
        start_plan(InspectOutcome::Failed("boom".to_string())),
        Err(ArsaError::BollardError(m)) if m == "boom"
    ));
}

#[test]
fn stopping() {
    assert_eq!(stop_plan(StopOutcome::Stopped).unwrap(), StopAction::RefreshRunning);
    assert_eq!(stop_plan(StopOutcome::Missing).unwrap(), StopAction::MarkStopped);
    assert!(matches!(
        stop_plan(StopOutcome::Failed("x".to_string())),
        Err(ArsaError::BollardError(m)) if m == "x"
    ));
}

#[test]
fn running_state_changes() {
    assert!(running_change(1, true, true).is_none());
    assert!(running_change(1, false, false).is_none());
    match running_change(1, false, true) {
        Some(ServerStatusUpdates::IsRunningUpdate { uuid, is_running }) => {
            assert_eq!(uuid, "00000000-0000-0000-0000-000000000001");
            assert!(is_running);
        }
        other => panic!("unexpected {:?}", other),
    }
}

#[test]
fn listed_and_event_states() {
    assert!(listed_container_running("running"));
    assert!(listed_container_running("restarting"));
    assert!(!listed_container_running("Running"));
    assert!(!listed_container_running("exited"));
    assert_eq!(event_running_state("start"), Some(true));
    assert_eq!(event_running_state("die"), Some(false));
    assert_eq!(event_running_state("stop"), None);
}
