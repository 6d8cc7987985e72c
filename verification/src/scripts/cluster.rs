//! The management cluster, as it is seen from outside.

use crate::cli::{CliModel, Profile};
use crate::cluster::{kind_turn, KindPoint};
use crate::decimal::numeral;
use crate::process::{output_text, succeeded};
use crate::protocol::{Action, Reply, ReplyModel, TurnModel};
use crate::scripts::{command, events, reached, Event};
use crate::text::lists;
use vstd::prelude::*;

verus! {

/// The file that the management cluster is made of, as kind reads it.
pub open spec fn cluster_file(cli: CliModel, sock: Seq<char>) -> Seq<char> {
    let mirror = "containerdConfigPatches:\n  - |-\n    [plugins.\"io.containerd.grpc.v1.cri\".registry.mirrors.\"localhost:"@
        + numeral(cli.registry_port as nat) + "\"]\n      endpoint = [\"http://"@
        + "knr-registry"@ + ":5000\"]\n"@;
    "kind: Cluster\napiVersion: kind.x-k8s.io/v1alpha4\n"@ + (if cli.profile
        == Profile::LocalHost {
        mirror
    } else {
        seq![]
    }) + "nodes:\n  - role: control-plane\n    extraMounts:\n      - hostPath: "@ + sock
        + "\n        containerPath: /var/run/docker.sock\n"@
}

/// Where there is no management cluster, one is made: of a configuration that mounts the socket of
/// the container engine, and that leads to the local registry on the local host alone. `kubectl`
/// is pointed at it, and its node is waited for.
pub proof fn a_missing_cluster_is_made(cli: CliModel, sock: Seq<char>, answers: Seq<ReplyModel>)
    requires
        answers.len() == 4,
        !lists(output_text(answers[0]), "mgmt"@),
        succeeded(answers[1]),
        succeeded(answers[2]),
        succeeded(answers[3]),
    ensures
        ({
            let configuration = cluster_file(cli, sock);
            let step = |at: KindPoint, reply: ReplyModel| kind_turn(cli, sock, at, reply);
            let first = kind_turn(cli, sock, KindPoint::Start, Reply::Begin);
            &&& events(step, first, answers) == seq![
                Event::Told(">>> Creating kind cluster 'mgmt'..."@),
                Event::Asked(Action::CaptureLossy(command("kind"@, seq!["get"@, "clusters"@]))),
                Event::Asked(
                    Action::RunWithStdin(
                        command(
                            "kind"@,
                            seq!["create"@, "cluster"@, "--name"@, "mgmt"@, "--config"@, "-"@],
                        ),
                        configuration,
                    ),
                ),
                Event::Told(">>> Waiting for cluster node to be ready..."@),
                Event::Asked(
                    Action::Run(command("kubectl"@, seq!["config"@, "use-context"@, "kind-mgmt"@])),
                ),
                Event::Asked(
                    Action::Run(
                        command(
                            "kubectl"@,
                            seq![
                                "wait"@,
                                "--for=condition=Ready"@,
                                "node"@,
                                "--all"@,
                                "--timeout=120s"@,
                            ],
                        ),
                    ),
                ),
            ]
            &&& reached(step, first, answers) == TurnModel::<KindPoint, ()>::Done(seq![], ())
        }),
{
    reveal_with_fuel(events, 5);
    reveal_with_fuel(reached, 5);
}

/// Where there is a management cluster, and nobody asked for a new one, it is used as it is.
pub proof fn a_cluster_is_used_again(cli: CliModel, sock: Seq<char>, answers: Seq<ReplyModel>)
    requires
        answers.len() == 3,
        lists(output_text(answers[0]), "mgmt"@),
        !cli.recreate,
        succeeded(answers[1]),
        succeeded(answers[2]),
    ensures
        ({
            let step = |at: KindPoint, reply: ReplyModel| kind_turn(cli, sock, at, reply);
            let first = kind_turn(cli, sock, KindPoint::Start, Reply::Begin);
            &&& events(step, first, answers) == seq![
                Event::Told(">>> Creating kind cluster 'mgmt'..."@),
                Event::Asked(Action::CaptureLossy(command("kind"@, seq!["get"@, "clusters"@]))),
                Event::Told(">>> Cluster 'mgmt' already exists – reusing..."@),
                Event::Told(">>> Waiting for cluster node to be ready..."@),
                Event::Asked(
                    Action::Run(command("kubectl"@, seq!["config"@, "use-context"@, "kind-mgmt"@])),
                ),
                Event::Asked(
                    Action::Run(
                        command(
                            "kubectl"@,
                            seq![
                                "wait"@,
                                "--for=condition=Ready"@,
                                "node"@,
                                "--all"@,
                                "--timeout=120s"@,
                            ],
                        ),
                    ),
                ),
            ]
            &&& reached(step, first, answers) == TurnModel::<KindPoint, ()>::Done(seq![], ())
        }),
{
    reveal_with_fuel(events, 4);
    reveal_with_fuel(reached, 4);
}

/// Where there is a management cluster, and a new one was asked for, the old one is deleted first.
#[verifier::rlimit(50)]
pub proof fn a_cluster_is_made_anew(cli: CliModel, sock: Seq<char>, answers: Seq<ReplyModel>)
    requires
        answers.len() == 5,
        lists(output_text(answers[0]), "mgmt"@),
        cli.recreate,
        succeeded(answers[1]),
        succeeded(answers[2]),
        succeeded(answers[3]),
        succeeded(answers[4]),
    ensures
        ({
            let configuration = cluster_file(cli, sock);
            let step = |at: KindPoint, reply: ReplyModel| kind_turn(cli, sock, at, reply);
            let first = kind_turn(cli, sock, KindPoint::Start, Reply::Begin);
            &&& events(step, first, answers) == seq![
                Event::Told(">>> Creating kind cluster 'mgmt'..."@),
                Event::Asked(Action::CaptureLossy(command("kind"@, seq!["get"@, "clusters"@]))),
                Event::Told(">>> Cluster 'mgmt' already exists – recreating..."@),
                Event::Asked(
                    Action::Run(command("kind"@, seq!["delete"@, "cluster"@, "--name"@, "mgmt"@])),
                ),
                Event::Asked(
                    Action::RunWithStdin(
                        command(
                            "kind"@,
                            seq!["create"@, "cluster"@, "--name"@, "mgmt"@, "--config"@, "-"@],
                        ),
                        configuration,
                    ),
                ),
                Event::Told(">>> Waiting for cluster node to be ready..."@),
                Event::Asked(
                    Action::Run(command("kubectl"@, seq!["config"@, "use-context"@, "kind-mgmt"@])),
                ),
                Event::Asked(
                    Action::Run(
                        command(
                            "kubectl"@,
                            seq![
                                "wait"@,
                                "--for=condition=Ready"@,
                                "node"@,
                                "--all"@,
                                "--timeout=120s"@,
                            ],
                        ),
                    ),
                ),
            ]
            &&& reached(step, first, answers) == TurnModel::<KindPoint, ()>::Done(seq![], ())
        }),
{
    reveal_with_fuel(events, 6);
    reveal_with_fuel(reached, 6);
}

} // verus!
