use geist_bootloader::command::{
    build_command, container_version_command, image_reference, inspect_command, logs_command,
    ps_query_command, pull_command, run_command, shell_command, source_version_command,
    stop_command,
};

fn strings(v: &[&str]) -> Vec<String> {
    v.iter().map(|s| s.to_string()).collect()
}

const LAUNCH_SCRIPT: &str =
    "source install/setup.sh && cd src/geist && ros2 launch geist/launch/launch.py";

#[test]
fn image_reference_defaults_to_latest() {
    let r = image_reference(&None);
    assert_eq!(r, "july5613/geist:latest");
    assert!(r.ends_with(":latest"));
}

#[test]
fn image_reference_uses_requested_version() {
    let r = image_reference(&Some("2.3".to_string()));
    assert_eq!(r, "july5613/geist:2.3");
    assert!(r.ends_with(":2.3"));
}

#[test]
fn run_command_without_env_file_omits_the_option() {
    let c = run_command(&None, &None);
    assert_eq!(c.program, "docker");
    assert!(!c.args.iter().any(|a| a == "--env-file"));
    assert_eq!(
        c.args,
        strings(&[
            "run",
            "-it",
            "--rm",
            "--name",
            "geist",
            "--network=host",
            "--env=DISPLAY",
            "--volume=/tmp/.X11-unix:/tmp/.X11-unix:rw",
            "-d",
            "-v",
            "/dev/bus/usb:/dev/bus/usb",
            "--device-cgroup-rule=c 189:* rmw",
            "-p",
            "9090:9090",
            "-p",
            "9091:9091",
            "july5613/geist:latest",
            "/bin/bash",
            "-c",
            LAUNCH_SCRIPT,
        ])
    );
}

#[test]
fn run_command_with_env_file_carries_it_once() {
    let c = run_command(&Some("1.0".to_string()), &Some("/tmp/geist.env".to_string()));
    let occurrences: Vec<usize> = c
        .args
        .iter()
        .enumerate()
        .filter(|(_, a)| a.as_str() == "--env-file")
        .map(|(i, _)| i)
        .collect();
    assert_eq!(occurrences, vec![7]);
    assert_eq!(c.args[8], "/tmp/geist.env");
    assert_eq!(c.args[c.args.len() - 4], "july5613/geist:1.0");
}

#[test]
fn logs_command_streams_fixed_container() {
    let c = logs_command();
    assert_eq!(c.program, "docker");
    assert_eq!(c.args, strings(&["logs", "-f", "geist"]));
}

#[test]
fn stop_command_names_fixed_container() {
    let c = stop_command();
    assert_eq!(c.program, "docker");
    assert_eq!(c.args, strings(&["stop", "geist"]));
}

#[test]
fn pull_command_uses_image_reference() {
    let c = pull_command(&Some("0.9".to_string()));
    assert_eq!(c.program, "docker");
    assert_eq!(c.args, strings(&["pull", "july5613/geist:0.9"]));
    let d = pull_command(&None);
    assert_eq!(d.args, strings(&["pull", "july5613/geist:latest"]));
}

#[test]
fn ps_query_filters_by_name() {
    let c = ps_query_command();
    assert_eq!(c.program, "docker");
    assert_eq!(c.args, strings(&["ps", "-q", "-f", "name=geist"]));
}

#[test]
fn inspect_command_asks_for_image() {
    let c = inspect_command();
    assert_eq!(c.program, "docker");
    assert_eq!(c.args, strings(&["inspect", "--format", "{{.Config.Image}}", "geist"]));
}

#[test]
fn shell_command_is_interactive() {
    let c = shell_command();
    assert_eq!(c.program, "docker");
    assert_eq!(c.args, strings(&["exec", "-ti", "geist", "/bin/bash"]));
}

#[test]
fn container_version_command_reads_marker() {
    let c = container_version_command();
    assert_eq!(c.program, "docker");
    assert_eq!(c.args, strings(&["exec", "geist", "cat", "/root/geist_ws/src/geist/VERSION"]));
}

#[test]
fn build_command_uses_home_and_latest_tag() {
    let c = build_command("/home/robot");
    assert_eq!(c.program, "docker");
    assert_eq!(
        c.args,
        strings(&["build", "-t", "july5613/geist:latest", "/home/robot/geist_ws/src/geist"])
    );
}

#[test]
fn source_version_command_reads_local_marker() {
    let c = source_version_command("/home/robot");
    assert_eq!(c.program, "cat");
    assert_eq!(c.args, strings(&["/home/robot/geist_ws/src/geist/VERSION"]));
}
