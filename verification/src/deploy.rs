use vstd::prelude::*;

use crate::config::{Node, Service};
use crate::text::{decimal, decimal_string};

verus! {

/// The port the deployer reaches nodes on over SSH.
pub const SSH_PORT: u16 = 22;

/// What deploying a node consists of: who logs in, where the files go,
/// which local files are uploaded, in order, and the shell command that
/// restarts the agent afterwards.
#[derive(Debug)]
pub struct DeployPlan {
    pub user: String,
    pub path: String,
    pub files: Vec<String>,
    pub command: String,
}

/// The files that the services ask to deploy, service after service, each
/// in the order listed.
pub open spec fn spec_deploy_files(services: Seq<Service>) -> Seq<String>
    decreases services.len(),
{
    if services.len() == 0 {
        Seq::empty()
    } else {
        spec_deploy_files(services.drop_last()) + match services.last().deploy {
            Some(d) => d.files@,
            None => Seq::empty(),
        }
    }
}

/// The account used on a node: its `deploy_user`, else `root`.
pub open spec fn spec_deploy_user(node: Node) -> Seq<char> {
    match node.deploy_user {
        Some(u) => u@,
        None => "root"@,
    }
}

/// The directory deployed to on a node: its `deploy_path`, else `/opt/icpc`.
pub open spec fn spec_deploy_path(node: Node) -> Seq<char> {
    match node.deploy_path {
        Some(p) => p@,
        None => "/opt/icpc"@,
    }
}

/// The command that stops any running agent and starts the new one from
/// `path`, listening on `port`.
pub open spec fn spec_restart_command(path: Seq<char>, port: u16) -> Seq<char> {
    "pkill -f 'agent' || true && cd "@ + path + " && nohup ./agent "@ + decimal(port as nat)
        + " &"@
}

/// Where a file whose name is `file_name` lands in `remote_dir`.
pub open spec fn spec_remote_path(remote_dir: Seq<char>, file_name: Seq<char>) -> Seq<char> {
    remote_dir + seq!['/'] + file_name
}

/// The agent binary, uploaded to every node after the services' files.
pub open spec fn agent_binary() -> Seq<char> {
    "target/release/agent"@
}

/// Names what `std::path::Path::file_name` gives for a path: its final
/// component, if it has one, under the path syntax of the platform the
/// crate is built for.
pub uninterp spec fn spec_file_name(path: Seq<char>) -> Option<Seq<char>>;

/// Calls `std::path::Path::file_name` on `path` and hands the final
/// component back as a `String`. Claimed of it: the result is the named
/// `spec_file_name` of the path, and a component it returns is not empty
/// and holds no `/` (a separator on every platform).
#[verifier::external_body]
fn path_file_name(path: &str) -> (r: Option<String>)
    ensures
        match r {
            Some(n) => spec_file_name(path@) == Some(n@),
            None => spec_file_name(path@) is None,
        },
        r matches Some(n) ==> n@.len() > 0 && !n@.contains('/'),
{
    match std::path::Path::new(path).file_name() {
        Some(n) => Some(n.to_string_lossy().into_owned()),
        None => None,
    }
}

/// The path that a file named `file_name` is uploaded to in `remote_dir`.
pub fn remote_path(remote_dir: &str, file_name: &str) -> (r: String)
    ensures
        r@ == spec_remote_path(remote_dir@, file_name@),
{
    proof {
        reveal_strlit("/");
    }
    String::from_str(remote_dir).concat("/").concat(file_name)
}

/// The path that the local file `local` is uploaded to in `remote_dir`:
/// the directory, a slash and the file's name. `None` when the local path
/// names no file (the deployer refuses such a path).
pub fn upload_target(local: &str, remote_dir: &str) -> (r: Option<String>)
    ensures
        match r {
            Some(p) => spec_file_name(local@) matches Some(n) && p@ == spec_remote_path(
                remote_dir@,
                n,
            ),
            None => spec_file_name(local@) is None,
        },
        r matches Some(p) ==> exists|n: Seq<char>|
            n.len() > 0 && !n.contains('/') && p@ == #[trigger] spec_remote_path(remote_dir@, n),
{
    match path_file_name(local) {
        Some(name) => Some(remote_path(remote_dir, name.as_str())),
        None => None,
    }
}

/// The command that restarts the agent from `path` on `port`.
pub fn restart_command(path: &str, port: u16) -> (r: String)
    ensures
        r@ == spec_restart_command(path@, port),
{
    let port_text = decimal_string(port as u64);
    String::from_str("pkill -f 'agent' || true && cd ").concat(path).concat(
        " && nohup ./agent ",
    ).concat(port_text.as_str()).concat(" &")
}

/// The files to upload for these services, in order.
pub fn deploy_files(services: &[Service]) -> (r: Vec<String>)
    ensures
        r@ == spec_deploy_files(services@),
{
    let mut r: Vec<String> = Vec::new();
    let mut i: usize = 0;
    assert(services@.take(0) =~= Seq::<Service>::empty());
    while i < services.len()
        invariant
            i <= services@.len(),
            r@ == spec_deploy_files(services@.take(i as int)),
        decreases services@.len() - i,
    {
        assert(services@.take(i + 1).drop_last() =~= services@.take(i as int));
        match &services[i].deploy {
            Some(d) => {
                let ghost before = r@;
                let mut j: usize = 0;
                while j < d.files.len()
                    invariant
                        j <= d.files@.len(),
                        r@ == before + d.files@.take(j as int),
                    decreases d.files@.len() - j,
                {
                    r.push(d.files[j].clone());
                    assert(d.files@.take(j + 1) =~= d.files@.take(j as int).push(d.files@[j as int]));
                    j = j + 1;
                }
                assert(d.files@.take(d.files@.len() as int) =~= d.files@);
            },
            None => {
                assert(r@ =~= r@ + Seq::<String>::empty());
            },
        }
        i = i + 1;
    }
    assert(services@.take(services@.len() as int) =~= services@);
    r
}

/// How `node` is deployed with `services`: who logs in, where to, which
/// files go up (the services' files in order, then the agent binary) and
/// the command that restarts the agent.
pub fn plan_deploy(node: &Node, services: &[Service]) -> (r: DeployPlan)
    ensures
        r.user@ == spec_deploy_user(*node),
        r.path@ == spec_deploy_path(*node),
        node.deploy_user matches Some(u) ==> r.user@ == u@,
        node.deploy_user is None ==> r.user@ == "root"@,
        node.deploy_path matches Some(p) ==> r.path@ == p@,
        node.deploy_path is None ==> r.path@ == "/opt/icpc"@,
        r.files@.len() == spec_deploy_files(services@).len() + 1,
        r.files@.drop_last() == spec_deploy_files(services@),
        r.files@.last()@ == agent_binary(),
        r.command@ == spec_restart_command(spec_deploy_path(*node), node.agent_port),
{
    let user = match &node.deploy_user {
        Some(u) => u.clone(),
        None => String::from_str("root"),
    };
    let path = match &node.deploy_path {
        Some(p) => p.clone(),
        None => String::from_str("/opt/icpc"),
    };
    let mut files = deploy_files(services);
    let ghost listed = files@;
    files.push(String::from_str("target/release/agent"));
    assert(files@.drop_last() =~= listed);
    let command = restart_command(path.as_str(), node.agent_port);
    DeployPlan { user, path, files, command }
}

/// The login is the node's configured deploy user whenever one is set, and
/// `root` only when none is; the directory is the node's configured deploy
/// path whenever one is set, and `/opt/icpc` only when none is. Each
/// depends on its own setting alone.
pub proof fn law_deploy_defaults_are_independent(a: Node, b: Node)
    ensures
        a.deploy_user matches Some(u) ==> spec_deploy_user(a) == u@,
        a.deploy_user is None ==> spec_deploy_user(a) == "root"@,
        a.deploy_path matches Some(p) ==> spec_deploy_path(a) == p@,
        a.deploy_path is None ==> spec_deploy_path(a) == "/opt/icpc"@,
        a.deploy_user == b.deploy_user ==> spec_deploy_user(a) == spec_deploy_user(b),
        a.deploy_path == b.deploy_path ==> spec_deploy_path(a) == spec_deploy_path(b),
        a.deploy_path == b.deploy_path && a.agent_port == b.agent_port ==> spec_restart_command(
            spec_deploy_path(a),
            a.agent_port,
        ) == spec_restart_command(spec_deploy_path(b), b.agent_port),
{
}

} // verus!
