//! Pure command builders: every external invocation the orchestrator makes is
//! assembled here as a structured argument vector, so no user-supplied value
//! is ever spliced into a shell string.

use vstd::prelude::*;
use vstd::string::*;
use crate::{spec_container_name, spec_image_name, spec_registry_namespace};
use crate::text::ends_with_seq;

verus! {

/// A resolved external invocation: the executable and its ordered argument
/// list. Immutable once built; running it happens outside the library.
pub struct CommandSpec {
    pub program: String,
    pub args: Vec<String>,
}

impl CommandSpec {
    /// The executable name.
    pub open spec fn prog(&self) -> Seq<char> {
        self.program@
    }

    /// The argument list.
    pub open spec fn argv(&self) -> Seq<Seq<char>> {
        self.args.deep_view()
    }
}

/// Appends one argument to an argument list under construction.
fn push_arg(args: &mut Vec<String>, a: &str)
    ensures
        final(args).deep_view() == old(args).deep_view().push(a@),
{
    args.push(String::from_str(a));
    proof {
        assert(args.deep_view() =~= old(args).deep_view().push(a@));
    }
}

/// Appends one owned argument to an argument list under construction.
fn push_arg_string(args: &mut Vec<String>, a: String)
    ensures
        final(args).deep_view() == old(args).deep_view().push(a@),
{
    let ghost av = a@;
    args.push(a);
    proof {
        assert(args.deep_view() =~= old(args).deep_view().push(av));
    }
}

/// Wraps an argument list into an invocation of the container runtime.
fn docker_command(args: Vec<String>) -> (c: CommandSpec)
    ensures
        c.prog() == "docker"@,
        c.argv() == args.deep_view(),
{
    CommandSpec { program: String::from_str("docker"), args }
}

/// The version tag that takes effect: the requested one, or `latest` when
/// none was requested.
pub open spec fn effective_version_spec(version: Option<Seq<char>>) -> Seq<char> {
    match version {
        Some(v) => v,
        None => "latest"@,
    }
}

/// The image reference `namespace/name:tag` for the effective version.
pub open spec fn image_reference_spec(version: Option<Seq<char>>) -> Seq<char> {
    spec_registry_namespace() + "/"@ + spec_image_name() + ":"@ + effective_version_spec(version)
}

/// Resolves the image reference for the requested version.
pub fn image_reference(version: &Option<String>) -> (r: String)
    ensures
        r@ == image_reference_spec(version.deep_view()),
{
    let mut r = String::from_str("july5613");
    r.append("/");
    r.append("geist");
    r.append(":");
    match version {
        Some(v) => r.append(v.as_str()),
        None => r.append("latest"),
    }
    proof {
        assert(r@ =~= image_reference_spec(version.deep_view()));
    }
    r
}

/// The image reference always carries the effective version as its tag: it
/// ends in `:` followed by the requested version, and in `:latest` when no
/// version was requested.
pub proof fn lemma_image_reference_tag(version: Option<Seq<char>>)
    ensures
        ends_with_seq(image_reference_spec(version), ":"@ + effective_version_spec(version)),
        version is None ==> ends_with_seq(image_reference_spec(version), ":latest"@),
{
    let l = image_reference_spec(version);
    let suf = ":"@ + effective_version_spec(version);
    assert(l.subrange(l.len() - suf.len(), l.len() as int) =~= suf);
    if version is None {
        reveal_strlit(":");
        reveal_strlit("latest");
        reveal_strlit(":latest");
        assert(":"@ + "latest"@ =~= ":latest"@);
    }
}

/// The in-container startup script run at start.
pub open spec fn launch_script_spec() -> Seq<char> {
    "source install/setup.sh && cd src/geist && ros2 launch geist/launch/launch.py"@
}

/// The fixed run arguments that precede any env-file option.
pub open spec fn run_prefix_args_spec() -> Seq<Seq<char>> {
    seq![
        "run"@,
        "-it"@,
        "--rm"@,
        "--name"@,
        spec_container_name(),
        "--network=host"@,
        "--env=DISPLAY"@,
    ]
}

/// The env-file arguments: nothing without a path, `--env-file` plus the path
/// with one.
pub open spec fn env_file_args_spec(env_file: Option<Seq<char>>) -> Seq<Seq<char>> {
    match env_file {
        Some(p) => seq!["--env-file"@, p],
        None => Seq::<Seq<char>>::empty(),
    }
}

/// The fixed run arguments that follow any env-file option: GUI passthrough,
/// detached mode, USB device access, the two published ports, the image
/// reference and the startup script.
pub open spec fn run_suffix_args_spec(version: Option<Seq<char>>) -> Seq<Seq<char>> {
    seq![
        "--volume=/tmp/.X11-unix:/tmp/.X11-unix:rw"@,
        "-d"@,
        "-v"@,
        "/dev/bus/usb:/dev/bus/usb"@,
        "--device-cgroup-rule=c 189:* rmw"@,
        "-p"@,
        "9090:9090"@,
        "-p"@,
        "9091:9091"@,
        image_reference_spec(version),
        "/bin/bash"@,
        "-c"@,
        launch_script_spec(),
    ]
}

/// The full argument list of the run invocation.
pub open spec fn run_args_spec(version: Option<Seq<char>>, env_file: Option<Seq<char>>) -> Seq<
    Seq<char>,
> {
    run_prefix_args_spec() + env_file_args_spec(env_file) + run_suffix_args_spec(version)
}

/// Builds the run invocation for the requested version and optional env file.
pub fn run_command(version: &Option<String>, env_file: &Option<String>) -> (c: CommandSpec)
    ensures
        c.prog() == "docker"@,
        c.argv() == run_args_spec(version.deep_view(), env_file.deep_view()),
{
    let mut args: Vec<String> = Vec::new();
    push_arg(&mut args, "run");
    push_arg(&mut args, "-it");
    push_arg(&mut args, "--rm");
    push_arg(&mut args, "--name");
    push_arg(&mut args, "geist");
    push_arg(&mut args, "--network=host");
    push_arg(&mut args, "--env=DISPLAY");
    match env_file {
        Some(p) => {
            push_arg(&mut args, "--env-file");
            push_arg_string(&mut args, p.clone());
        },
        None => {},
    }
    push_arg(&mut args, "--volume=/tmp/.X11-unix:/tmp/.X11-unix:rw");
    push_arg(&mut args, "-d");
    push_arg(&mut args, "-v");
    push_arg(&mut args, "/dev/bus/usb:/dev/bus/usb");
    push_arg(&mut args, "--device-cgroup-rule=c 189:* rmw");
    push_arg(&mut args, "-p");
    push_arg(&mut args, "9090:9090");
    push_arg(&mut args, "-p");
    push_arg(&mut args, "9091:9091");
    push_arg_string(&mut args, image_reference(version));
    push_arg(&mut args, "/bin/bash");
    push_arg(&mut args, "-c");
    push_arg(&mut args, "source install/setup.sh && cd src/geist && ros2 launch geist/launch/launch.py");
    proof {
        assert(args.deep_view() =~= run_args_spec(version.deep_view(), env_file.deep_view()));
    }
    docker_command(args)
}

/// Builds the invocation that streams the container's logs.
pub fn logs_command() -> (c: CommandSpec)
    ensures
        c.prog() == "docker"@,
        c.argv() == seq!["logs"@, "-f"@, spec_container_name()],
{
    let mut args: Vec<String> = Vec::new();
    push_arg(&mut args, "logs");
    push_arg(&mut args, "-f");
    push_arg(&mut args, "geist");
    proof {
        assert(args.deep_view() =~= seq!["logs"@, "-f"@, spec_container_name()]);
    }
    docker_command(args)
}

/// Builds the invocation that stops the container.
pub fn stop_command() -> (c: CommandSpec)
    ensures
        c.prog() == "docker"@,
        c.argv() == seq!["stop"@, spec_container_name()],
{
    let mut args: Vec<String> = Vec::new();
    push_arg(&mut args, "stop");
    push_arg(&mut args, "geist");
    proof {
        assert(args.deep_view() =~= seq!["stop"@, spec_container_name()]);
    }
    docker_command(args)
}

/// Builds the best-effort invocation that prunes unused local images.
pub fn prune_command() -> (c: CommandSpec)
    ensures
        c.prog() == "docker"@,
        c.argv() == seq!["system"@, "prune"@, "-f"@],
{
    let mut args: Vec<String> = Vec::new();
    push_arg(&mut args, "system");
    push_arg(&mut args, "prune");
    push_arg(&mut args, "-f");
    proof {
        assert(args.deep_view() =~= seq!["system"@, "prune"@, "-f"@]);
    }
    docker_command(args)
}

/// Builds the invocation that pulls the image for the effective version.
pub fn pull_command(version: &Option<String>) -> (c: CommandSpec)
    ensures
        c.prog() == "docker"@,
        c.argv() == seq!["pull"@, image_reference_spec(version.deep_view())],
{
    let mut args: Vec<String> = Vec::new();
    push_arg(&mut args, "pull");
    push_arg_string(&mut args, image_reference(version));
    proof {
        assert(args.deep_view() =~= seq!["pull"@, image_reference_spec(version.deep_view())]);
    }
    docker_command(args)
}

/// Builds the query for the id of a running container under the fixed name.
pub fn ps_query_command() -> (c: CommandSpec)
    ensures
        c.prog() == "docker"@,
        c.argv() == seq!["ps"@, "-q"@, "-f"@, "name=geist"@],
{
    let mut args: Vec<String> = Vec::new();
    push_arg(&mut args, "ps");
    push_arg(&mut args, "-q");
    push_arg(&mut args, "-f");
    push_arg(&mut args, "name=geist");
    proof {
        assert(args.deep_view() =~= seq!["ps"@, "-q"@, "-f"@, "name=geist"@]);
    }
    docker_command(args)
}

/// Builds the inspection query for the image reference the container runs.
pub fn inspect_command() -> (c: CommandSpec)
    ensures
        c.prog() == "docker"@,
        c.argv() == seq!["inspect"@, "--format"@, "{{.Config.Image}}"@, spec_container_name()],
{
    let mut args: Vec<String> = Vec::new();
    push_arg(&mut args, "inspect");
    push_arg(&mut args, "--format");
    push_arg(&mut args, "{{.Config.Image}}");
    push_arg(&mut args, "geist");
    proof {
        assert(args.deep_view() =~= seq![
            "inspect"@,
            "--format"@,
            "{{.Config.Image}}"@,
            spec_container_name(),
        ]);
    }
    docker_command(args)
}

/// Builds the invocation that attaches an interactive shell in the container.
pub fn shell_command() -> (c: CommandSpec)
    ensures
        c.prog() == "docker"@,
        c.argv() == seq!["exec"@, "-ti"@, spec_container_name(), "/bin/bash"@],
{
    let mut args: Vec<String> = Vec::new();
    push_arg(&mut args, "exec");
    push_arg(&mut args, "-ti");
    push_arg(&mut args, "geist");
    push_arg(&mut args, "/bin/bash");
    proof {
        assert(args.deep_view() =~= seq![
            "exec"@,
            "-ti"@,
            spec_container_name(),
            "/bin/bash"@,
        ]);
    }
    docker_command(args)
}

/// The path of the version marker inside the image tree.
pub open spec fn version_marker_path_spec() -> Seq<char> {
    "/root/geist_ws/src/geist/VERSION"@
}

/// Builds the invocation that reads the version marker from inside the
/// running container.
pub fn container_version_command() -> (c: CommandSpec)
    ensures
        c.prog() == "docker"@,
        c.argv() == seq!["exec"@, spec_container_name(), "cat"@, version_marker_path_spec()],
{
    let mut args: Vec<String> = Vec::new();
    push_arg(&mut args, "exec");
    push_arg(&mut args, "geist");
    push_arg(&mut args, "cat");
    push_arg(&mut args, "/root/geist_ws/src/geist/VERSION");
    proof {
        assert(args.deep_view() =~= seq![
            "exec"@,
            spec_container_name(),
            "cat"@,
            version_marker_path_spec(),
        ]);
    }
    docker_command(args)
}

/// The fixed build-tree path relative to the host home directory.
pub open spec fn build_tree_rel_spec() -> Seq<char> {
    "/geist_ws/src/geist"@
}

/// The local build path: the host home directory plus the fixed relative
/// build-tree path.
pub open spec fn build_path_spec(home: Seq<char>) -> Seq<char> {
    home + build_tree_rel_spec()
}

/// Resolves the local build path under the given home directory.
pub fn build_path(home: &str) -> (r: String)
    ensures
        r@ == build_path_spec(home@),
{
    let mut r = String::from_str(home);
    r.append("/geist_ws/src/geist");
    r
}

/// Builds the invocation that builds the image from the local source tree
/// under the fixed image name with the `latest` tag.
pub fn build_command(home: &str) -> (c: CommandSpec)
    ensures
        c.prog() == "docker"@,
        c.argv() == seq![
            "build"@,
            "-t"@,
            image_reference_spec(None),
            build_path_spec(home@),
        ],
{
    let mut args: Vec<String> = Vec::new();
    push_arg(&mut args, "build");
    push_arg(&mut args, "-t");
    push_arg_string(&mut args, image_reference(&None));
    push_arg_string(&mut args, build_path(home));
    proof {
        assert(args.deep_view() =~= seq![
            "build"@,
            "-t"@,
            image_reference_spec(None),
            build_path_spec(home@),
        ]);
    }
    docker_command(args)
}

/// Builds the invocation that reads the version marker from the local build
/// tree under the given home directory.
pub fn source_version_command(home: &str) -> (c: CommandSpec)
    ensures
        c.prog() == "cat"@,
        c.argv() == seq![build_path_spec(home@) + "/VERSION"@],
{
    let mut path = build_path(home);
    path.append("/VERSION");
    let mut args: Vec<String> = Vec::new();
    push_arg_string(&mut args, path);
    proof {
        assert(args.deep_view() =~= seq![build_path_spec(home@) + "/VERSION"@]);
    }
    CommandSpec { program: String::from_str("cat"), args }
}

/// How many of the arguments equal the given word.
pub open spec fn count_arg(args: Seq<Seq<char>>, x: Seq<char>) -> nat
    decreases args.len(),
{
    if args.len() == 0 {
        0
    } else {
        (if args[0] == x {
            1nat
        } else {
            0nat
        }) + count_arg(args.drop_first(), x)
    }
}

proof fn lemma_count_arg_add(a: Seq<Seq<char>>, b: Seq<Seq<char>>, x: Seq<char>)
    ensures
        count_arg(a + b, x) == count_arg(a, x) + count_arg(b, x),
    decreases a.len(),
{
    if a.len() == 0 {
        assert(a + b =~= b);
    } else {
        assert((a + b)[0] == a[0]);
        assert((a + b).drop_first() =~= a.drop_first() + b);
        lemma_count_arg_add(a.drop_first(), b, x);
    }
}

proof fn lemma_count_arg_zero(args: Seq<Seq<char>>, x: Seq<char>)
    requires
        forall|i: int| 0 <= i < args.len() ==> #[trigger] args[i] != x,
    ensures
        count_arg(args, x) == 0,
    decreases args.len(),
{
    if args.len() > 0 {
        assert(forall|i: int|
            0 <= i < args.drop_first().len() ==> #[trigger] args.drop_first()[i] == args[i + 1]);
        lemma_count_arg_zero(args.drop_first(), x);
    }
}

/// Without an env file the run invocation carries no `--env-file` argument at
/// all; with one it carries exactly one, immediately followed by the given
/// path. The one path this does not hold for is a path that is itself the
/// option word.
pub proof fn lemma_run_env_file_args(version: Option<Seq<char>>, env_file: Option<Seq<char>>)
    requires
        env_file matches Some(p) ==> p != "--env-file"@,
    ensures
        env_file is None ==> count_arg(run_args_spec(version, env_file), "--env-file"@) == 0,
        env_file matches Some(p) ==> {
            &&& count_arg(run_args_spec(version, env_file), "--env-file"@) == 1
            &&& run_args_spec(version, env_file)[7] == "--env-file"@
            &&& run_args_spec(version, env_file)[8] == p
        },
{
    let x = "--env-file"@;
    let pre = run_prefix_args_spec();
    let mid = env_file_args_spec(env_file);
    let suf = run_suffix_args_spec(version);
    reveal_strlit("--env-file");
    reveal_strlit("run");
    reveal_strlit("-it");
    reveal_strlit("--rm");
    reveal_strlit("--name");
    reveal_strlit("geist");
    reveal_strlit("--network=host");
    reveal_strlit("--env=DISPLAY");
    reveal_strlit("--volume=/tmp/.X11-unix:/tmp/.X11-unix:rw");
    reveal_strlit("-d");
    reveal_strlit("-v");
    reveal_strlit("/dev/bus/usb:/dev/bus/usb");
    reveal_strlit("--device-cgroup-rule=c 189:* rmw");
    reveal_strlit("-p");
    reveal_strlit("9090:9090");
    reveal_strlit("9091:9091");
    reveal_strlit("july5613");
    reveal_strlit("/");
    reveal_strlit(":");
    reveal_strlit("latest");
    reveal_strlit("/bin/bash");
    reveal_strlit("-c");
    reveal_strlit("source install/setup.sh && cd src/geist && ros2 launch geist/launch/launch.py");
    assert(image_reference_spec(version).len() >= 15);
    assert(forall|i: int| 0 <= i < pre.len() ==> (#[trigger] pre[i]).len() != x.len());
    assert(forall|i: int| 0 <= i < suf.len() ==> (#[trigger] suf[i]).len() != x.len());
    lemma_count_arg_zero(pre, x);
    lemma_count_arg_zero(suf, x);
    lemma_count_arg_add(pre, mid, x);
    lemma_count_arg_add(pre + mid, suf, x);
    assert(run_args_spec(version, env_file) == pre + mid + suf);
    match env_file {
        None => {
            assert(mid.len() == 0);
            assert(count_arg(mid, x) == 0);
        },
        Some(p) => {
            assert(mid =~= seq![x, p]);
            assert(mid.drop_first() =~= seq![p]);
            assert(seq![p].drop_first() =~= Seq::<Seq<char>>::empty());
            assert(count_arg(seq![p], x) == 0 + count_arg(Seq::<Seq<char>>::empty(), x));
            assert(count_arg(mid, x) == 1);
            assert(run_args_spec(version, env_file)[7] == mid[0]);
            assert(run_args_spec(version, env_file)[8] == mid[1]);
        },
    }
}

} // verus!

