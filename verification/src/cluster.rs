//! The management cluster: a kind cluster, which is made where there is none.

use crate::cli::{Cli, CliModel, Profile};
use crate::decimal::{numeral, write_number};
use crate::process::{
    after, call, capture_lossy, no_notes, output_text, plain_call, progress, progress_notes, run,
};
use crate::protocol::{
    precede, preceded, Action, Call, CallModel, Reply, ReplyModel, Turn, TurnModel,
};
use crate::text::{has_entry, lists};
use vstd::prelude::*;

verus! {

/// The name of the container that runs the local registry.
pub const REGISTRY_NAME: &'static str = "knr-registry";

/// How far making the cluster has come.
#[derive(Copy, Clone, Debug, PartialEq, Eq, Structural)]
pub enum KindPoint {
    Start,
    /// Asking for the clusters that there are.
    Listed,
    /// Deleting the one that there is.
    Deleted,
    /// Creating a new one.
    Created,
    /// Choosing it for `kubectl`.
    Chosen,
    /// Waiting for its node.
    Ready,
}

impl View for KindPoint {
    type V = KindPoint;

    open spec fn view(&self) -> KindPoint {
        *self
    }
}

/// Lists the kind clusters.
pub open spec fn list_clusters() -> CallModel {
    plain_call("kind"@, seq!["get"@, "clusters"@])
}

/// Deletes the management cluster.
pub open spec fn delete_cluster() -> CallModel {
    plain_call("kind"@, seq!["delete"@, "cluster"@, "--name"@, "mgmt"@])
}

/// Creates the management cluster, by the configuration on its input.
pub open spec fn create_cluster() -> CallModel {
    plain_call(
        "kind"@,
        seq!["create"@, "cluster"@, "--name"@, "mgmt"@, "--config"@, "-"@],
    )
}

/// Chooses the management cluster for `kubectl`.
pub open spec fn choose_cluster() -> CallModel {
    plain_call("kubectl"@, seq!["config"@, "use-context"@, "kind-mgmt"@])
}

/// Waits for the node of the management cluster.
pub open spec fn wait_node() -> CallModel {
    plain_call(
        "kubectl"@,
        seq!["wait"@, "--for=condition=Ready"@, "node"@, "--all"@, "--timeout=120s"@],
    )
}

/// Applies the manifest on its input.
pub open spec fn apply_manifest() -> CallModel {
    plain_call("kubectl"@, seq!["apply"@, "-f"@, "-"@])
}

/// The part of the cluster's configuration that leads it to the local registry.
pub open spec fn registry_patch(cli: CliModel) -> Seq<char> {
    match cli.profile {
        Profile::LocalHost =>
            "containerdConfigPatches:\n  - |-\n    [plugins.\"io.containerd.grpc.v1.cri\".registry.mirrors.\"localhost:"@
            + numeral(cli.registry_port as nat) + "\"]\n      endpoint = [\"http://"@
            + REGISTRY_NAME@ + ":5000\"]\n"@,
        Profile::Aws => seq![],
    }
}

/// The configuration of the cluster. The socket of the container engine is mounted where Docker
/// has it, so that what runs in the cluster finds it there whichever engine it belongs to.
pub open spec fn kind_config(cli: CliModel, engine_sock: Seq<char>) -> Seq<char> {
    "kind: Cluster\napiVersion: kind.x-k8s.io/v1alpha4\n"@ + registry_patch(cli)
        + "nodes:\n  - role: control-plane\n    extraMounts:\n      - hostPath: "@ + engine_sock
        + "\n        containerPath: /var/run/docker.sock\n"@
}

/// Creates the cluster.
pub open spec fn creating(cli: CliModel, engine_sock: Seq<char>) -> TurnModel<KindPoint, ()> {
    TurnModel::Ask(
        KindPoint::Created,
        seq![],
        Action::RunWithStdin(create_cluster(), kind_config(cli, engine_sock)),
    )
}

/// Chooses the cluster.
pub open spec fn choosing() -> TurnModel<KindPoint, ()> {
    TurnModel::Ask(
        KindPoint::Chosen,
        progress(seq![">>> Waiting for cluster node to be ready..."@]),
        Action::Run(choose_cluster()),
    )
}

/// What is done about the cluster, by whether there is one.
pub open spec fn cluster_listed(cli: CliModel, engine_sock: Seq<char>, exists: bool) -> TurnModel<
    KindPoint,
    (),
> {
    if exists && cli.recreate {
        TurnModel::Ask(
            KindPoint::Deleted,
            progress(seq![">>> Cluster 'mgmt' already exists – recreating..."@]),
            Action::Run(delete_cluster()),
        )
    } else if exists {
        preceded(progress(seq![">>> Cluster 'mgmt' already exists – reusing..."@]), choosing())
    } else {
        creating(cli, engine_sock)
    }
}

/// Making the management cluster: what follows at each point.
pub open spec fn kind_turn(
    cli: CliModel,
    engine_sock: Seq<char>,
    at: KindPoint,
    reply: ReplyModel,
) -> TurnModel<KindPoint, ()> {
    match at {
        KindPoint::Start => TurnModel::Ask(
            KindPoint::Listed,
            progress(seq![">>> Creating kind cluster 'mgmt'..."@]),
            Action::CaptureLossy(list_clusters()),
        ),
        KindPoint::Listed => cluster_listed(cli, engine_sock, lists(output_text(reply), "mgmt"@)),
        KindPoint::Deleted => after(delete_cluster(), reply, creating(cli, engine_sock)),
        KindPoint::Created => after(create_cluster(), reply, choosing()),
        KindPoint::Chosen => after(
            choose_cluster(),
            reply,
            TurnModel::Ask(KindPoint::Ready, seq![], Action::Run(wait_node())),
        ),
        KindPoint::Ready => after(wait_node(), reply, TurnModel::Done(seq![], ())),
    }
}

fn list_call() -> (r: Call)
    ensures
        r@ == list_clusters(),
{
    call("kind", &["get", "clusters"])
}

fn delete_call() -> (r: Call)
    ensures
        r@ == delete_cluster(),
{
    call("kind", &["delete", "cluster", "--name", "mgmt"])
}

fn create_call() -> (r: Call)
    ensures
        r@ == create_cluster(),
{
    call("kind", &["create", "cluster", "--name", "mgmt", "--config", "-"])
}

fn choose_call() -> (r: Call)
    ensures
        r@ == choose_cluster(),
{
    call("kubectl", &["config", "use-context", "kind-mgmt"])
}

fn wait_call() -> (r: Call)
    ensures
        r@ == wait_node(),
{
    call("kubectl", &["wait", "--for=condition=Ready", "node", "--all", "--timeout=120s"])
}

/// The call that applies the manifest on its input.
pub(crate) fn apply_call() -> (r: Call)
    ensures
        r@ == apply_manifest(),
{
    call("kubectl", &["apply", "-f", "-"])
}

/// Writes the configuration of the cluster.
pub fn write_kind_config(cli: &Cli<String>, engine_sock: &str) -> (r: String)
    ensures
        r@ == kind_config(cli@, engine_sock@),
{
    let patch = match cli.profile {
        Profile::LocalHost =>
            "containerdConfigPatches:\n  - |-\n    [plugins.\"io.containerd.grpc.v1.cri\".registry.mirrors.\"localhost:".to_string().concat(
            write_number(cli.registry_port as u64).as_str(),
        ).concat("\"]\n      endpoint = [\"http://").concat(REGISTRY_NAME).concat(":5000\"]\n"),
        Profile::Aws => String::new(),
    };
    "kind: Cluster\napiVersion: kind.x-k8s.io/v1alpha4\n".to_string().concat(patch.as_str()).concat(
        "nodes:\n  - role: control-plane\n    extraMounts:\n      - hostPath: ",
    ).concat(engine_sock).concat("\n        containerPath: /var/run/docker.sock\n")
}

fn create(cli: &Cli<String>, engine_sock: &str) -> (r: Turn<KindPoint, ()>)
    ensures
        r@ == creating(cli@, engine_sock@),
{
    Turn::Ask(
        KindPoint::Created,
        no_notes(),
        Action::RunWithStdin(create_call(), write_kind_config(cli, engine_sock)),
    )
}

fn choose_context() -> (r: Turn<KindPoint, ()>)
    ensures
        r@ == choosing(),
{
    Turn::Ask(
        KindPoint::Chosen,
        progress_notes(&[">>> Waiting for cluster node to be ready..."]),
        Action::Run(choose_call()),
    )
}

/// Decides what is done about the cluster, by whether there is one.
pub fn keep_or_create(cli: &Cli<String>, engine_sock: &str, exists: bool) -> (r: Turn<
    KindPoint,
    (),
>)
    ensures
        r@ == cluster_listed(cli@, engine_sock@, exists),
{
    if exists && cli.recreate {
        Turn::Ask(
            KindPoint::Deleted,
            progress_notes(&[">>> Cluster 'mgmt' already exists – recreating..."]),
            Action::Run(delete_call()),
        )
    } else if exists {
        precede(
            progress_notes(&[">>> Cluster 'mgmt' already exists – reusing..."]),
            choose_context(),
        )
    } else {
        create(cli, engine_sock)
    }
}

/// Makes the management cluster: from the point that was reached and the last answer to what
/// follows.
pub fn create_kind_cluster(
    cli: &Cli<String>,
    engine_sock: &str,
    at: KindPoint,
    reply: &Reply<String, Vec<u8>>,
) -> (r: Turn<KindPoint, ()>)
    ensures
        r@ == kind_turn(cli@, engine_sock@, at, reply@),
{
    match at {
        KindPoint::Start => Turn::Ask(
            KindPoint::Listed,
            progress_notes(&[">>> Creating kind cluster 'mgmt'..."]),
            Action::CaptureLossy(list_call()),
        ),
        KindPoint::Listed => keep_or_create(
            cli,
            engine_sock,
            has_entry(capture_lossy(reply).as_str(), "mgmt"),
        ),
        KindPoint::Deleted => match run(delete_call(), reply) {
            Ok(()) => create(cli, engine_sock),
            Err(failure) => Turn::Fail(no_notes(), failure),
        },
        KindPoint::Created => match run(create_call(), reply) {
            Ok(()) => choose_context(),
            Err(failure) => Turn::Fail(no_notes(), failure),
        },
        KindPoint::Chosen => match run(choose_call(), reply) {
            Ok(()) => Turn::Ask(KindPoint::Ready, no_notes(), Action::Run(wait_call())),
            Err(failure) => Turn::Fail(no_notes(), failure),
        },
        KindPoint::Ready => match run(wait_call(), reply) {
            Ok(()) => Turn::Done(no_notes(), ()),
            Err(failure) => Turn::Fail(no_notes(), failure),
        },
    }
}

} // verus!
