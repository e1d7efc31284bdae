//! Command proxy: builds the invocations that forward middleware
//! introspection and control commands into the running container, each with
//! the fixed middleware-environment bootstrap prefix prepended.

use vstd::prelude::*;
use vstd::string::*;
use crate::command::CommandSpec;
use crate::spec_container_name;

verus! {

/// The bootstrap prefix sourced before every proxied middleware command.
pub open spec fn bootstrap_prefix_spec() -> Seq<char> {
    "source install/setup.sh && "@
}

/// The in-container script for a proxied sub-command: the bootstrap prefix
/// followed by the sub-command verbatim.
pub open spec fn proxy_script_spec(sub: Seq<char>) -> Seq<char> {
    bootstrap_prefix_spec() + sub
}

/// The argument list of a proxied invocation.
pub open spec fn proxy_args_spec(sub: Seq<char>) -> Seq<Seq<char>> {
    seq!["exec"@, spec_container_name(), "bash"@, "-c"@, proxy_script_spec(sub)]
}

/// Builds the invocation that runs a middleware sub-command inside the
/// running container behind the bootstrap prefix.
pub fn proxy_command(sub: &str) -> (c: CommandSpec)
    ensures
        c.prog() == "docker"@,
        c.argv() == proxy_args_spec(sub@),
{
    let mut script = String::from_str("source install/setup.sh && ");
    script.append(sub);
    let mut args: Vec<String> = Vec::new();
    args.push(String::from_str("exec"));
    args.push(String::from_str("geist"));
    args.push(String::from_str("bash"));
    args.push(String::from_str("-c"));
    args.push(script);
    let c = CommandSpec { program: String::from_str("docker"), args };
    proof {
        assert(c.argv() =~= proxy_args_spec(sub@));
    }
    c
}

/// Builds the proxied service-listing invocation.
pub fn service_list_command() -> (c: CommandSpec)
    ensures
        c.prog() == "docker"@,
        c.argv() == proxy_args_spec("ros2 service list"@),
{
    proxy_command("ros2 service list")
}

/// Builds the proxied topic-listing invocation.
pub fn topic_list_command() -> (c: CommandSpec)
    ensures
        c.prog() == "docker"@,
        c.argv() == proxy_args_spec("ros2 topic list"@),
{
    proxy_command("ros2 topic list")
}

/// The sub-command that asks for a topic's type, with the name verbatim.
pub open spec fn topic_type_sub_spec(name: Seq<char>) -> Seq<char> {
    "ros2 topic type "@ + name
}

/// Builds the proxied invocation that asks for a topic's type.
pub fn topic_type_command(name: &str) -> (c: CommandSpec)
    ensures
        c.prog() == "docker"@,
        c.argv() == proxy_args_spec(topic_type_sub_spec(name@)),
{
    let mut sub = String::from_str("ros2 topic type ");
    sub.append(name);
    proxy_command(sub.as_str())
}

/// The sub-command that echoes a topic, with the name verbatim.
pub open spec fn topic_echo_sub_spec(name: Seq<char>) -> Seq<char> {
    "ros2 topic echo "@ + name
}

/// Builds the proxied invocation that echoes a topic.
pub fn topic_echo_command(name: &str) -> (c: CommandSpec)
    ensures
        c.prog() == "docker"@,
        c.argv() == proxy_args_spec(topic_echo_sub_spec(name@)),
{
    let mut sub = String::from_str("ros2 topic echo ");
    sub.append(name);
    proxy_command(sub.as_str())
}

/// The sub-command that calls a service: address, invocation type and the
/// quoted payload, each verbatim.
pub open spec fn service_call_sub_spec(
    address: Seq<char>,
    srv_type: Seq<char>,
    data: Seq<char>,
) -> Seq<char> {
    "ros2 service call "@ + address + " "@ + srv_type + " \""@ + data + "\""@
}

/// Builds the proxied invocation that calls a service.
pub fn service_call_command(address: &str, srv_type: &str, data: &str) -> (c: CommandSpec)
    ensures
        c.prog() == "docker"@,
        c.argv() == proxy_args_spec(service_call_sub_spec(address@, srv_type@, data@)),
{
    let mut sub = String::from_str("ros2 service call ");
    sub.append(address);
    sub.append(" ");
    sub.append(srv_type);
    sub.append(" \"");
    sub.append(data);
    sub.append("\"");
    proof {
        assert(sub@ =~= service_call_sub_spec(address@, srv_type@, data@));
    }
    proxy_command(sub.as_str())
}

} // verus!
