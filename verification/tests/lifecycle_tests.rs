use geist_bootloader::command::run_command;
use geist_bootloader::lifecycle::{
    canceled_message, operation_outcome, plan_exec, plan_update, status_report, BootError,
    ExecPlan, Operation, StatusReport,
};
use geist_bootloader::proxy::{
    proxy_command, service_call_command, service_list_command, topic_echo_command,
    topic_list_command, topic_type_command,
};

fn strings(v: &[&str]) -> Vec<String> {
    v.iter().map(|s| s.to_string()).collect()
}

#[test]
fn status_not_running_on_empty_id() {
    let r = status_report("", "whatever");
    assert!(matches!(r, StatusReport::NotRunning));
    assert_eq!(r.message(), "Geist is not running.");
}

#[test]
fn status_running_reports_trimmed_tag() {
    let r = status_report("4f5a\n", "july5613/geist:2.3\n");
    match &r {
        StatusReport::Running { tag: Some(t) } => assert_eq!(t, "july5613/geist:2.3"),
        _ => panic!("expected a running report with a tag"),
    }
    assert_eq!(r.message(), "Geist is running.\nCurrent tag: july5613/geist:2.3");
}

#[test]
fn status_running_without_inspect_output() {
    let r = status_report("4f5a\n", "");
    assert!(matches!(r, StatusReport::Running { tag: None }));
    assert_eq!(r.message(), "Geist is running.");
}

#[test]
fn exec_attaches_when_running() {
    assert!(matches!(plan_exec(true, false), ExecPlan::Attach));
    assert!(matches!(plan_exec(true, true), ExecPlan::Attach));
}

#[test]
fn exec_declined_cancels_without_start() {
    let p = plan_exec(false, false);
    assert!(matches!(p, ExecPlan::Cancel));
    assert_eq!(canceled_message(), "Operation canceled.");
}

#[test]
fn exec_accepted_starts_with_defaults() {
    let p = plan_exec(false, true);
    let default_start = run_command(&None, &None);
    match p {
        ExecPlan::StartThenAttach(c) => {
            assert_eq!(c.program, default_start.program);
            assert_eq!(c.args, default_start.args);
        },
        _ => panic!("expected an autostart plan"),
    }
}

#[test]
fn outcomes_map_each_operation_to_its_error() {
    assert_eq!(operation_outcome(Operation::Build, false), Err(BootError::BuildFailure));
    assert_eq!(operation_outcome(Operation::Start, false), Err(BootError::StartFailure));
    assert_eq!(operation_outcome(Operation::Stop, false), Err(BootError::StopFailure));
    assert_eq!(operation_outcome(Operation::Logs, false), Err(BootError::ExternalCommandFailed));
    assert_eq!(operation_outcome(Operation::Shell, false), Err(BootError::InteractiveShellFailure));
    assert_eq!(operation_outcome(Operation::Proxy, false), Err(BootError::ProxyExecutionFailure));
    assert_eq!(operation_outcome(Operation::Pull, false), Err(BootError::ExternalCommandFailed));
    assert_eq!(
        operation_outcome(Operation::ReadVersion, false),
        Err(BootError::ExternalCommandFailed)
    );
    assert_eq!(operation_outcome(Operation::Start, true), Ok(()));
    assert_eq!(operation_outcome(Operation::Proxy, true), Ok(()));
}

#[test]
fn update_plan_prunes_pulls_and_restarts() {
    let p = plan_update(&Some("1.2".to_string()));
    assert_eq!(p.prune.program, "docker");
    assert_eq!(p.prune.args, strings(&["system", "prune", "-f"]));
    assert_eq!(p.pull.args, strings(&["pull", "july5613/geist:1.2"]));
    let restart = run_command(&Some("1.2".to_string()), &None);
    assert_eq!(p.restart.args, restart.args);
}

#[test]
fn update_plan_defaults_to_latest() {
    let p = plan_update(&None);
    assert_eq!(p.pull.args, strings(&["pull", "july5613/geist:latest"]));
}

#[test]
fn proxy_command_prepends_bootstrap() {
    let c = proxy_command("ros2 topic list");
    assert_eq!(c.program, "docker");
    assert_eq!(
        c.args,
        strings(&["exec", "geist", "bash", "-c", "source install/setup.sh && ros2 topic list"])
    );
}

#[test]
fn proxy_listing_commands() {
    assert_eq!(
        service_list_command().args[4],
        "source install/setup.sh && ros2 service list"
    );
    assert_eq!(topic_list_command().args[4], "source install/setup.sh && ros2 topic list");
}

#[test]
fn proxy_topic_commands_interpolate_name() {
    assert_eq!(
        topic_type_command("/cmd_vel").args[4],
        "source install/setup.sh && ros2 topic type /cmd_vel"
    );
    assert_eq!(
        topic_echo_command("/scan").args[4],
        "source install/setup.sh && ros2 topic echo /scan"
    );
}

#[test]
fn proxy_service_call_quotes_payload() {
    let c = service_call_command("/reset", "std_srvs/srv/Trigger", "{}");
    assert_eq!(
        c.args[4],
        "source install/setup.sh && ros2 service call /reset std_srvs/srv/Trigger \"{}\""
    );
}
