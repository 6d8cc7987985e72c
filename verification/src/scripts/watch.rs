//! The watch over the local host, as it is seen from outside.

use crate::cli::CliModel;
use crate::failure::{Failure, FailureModel};
use crate::outside::{decoded, encoded_text_is_read_back};
use crate::process::succeeded;
use crate::protocol::{Action, CallModel, Ending, Note, Reply, ReplyModel, TurnModel};
use crate::scripts::{command, events, reached, Event};
use crate::watch::{published_port, watch_turn, Poll, WatchPoint, WatchPointModel};
use vstd::prelude::*;
use vstd::utf8::encode_utf8;

verus! {

/// The watch first waits for the management cluster to have reconciled, for as long as the
/// settings say, and then makes a file for the kubeconfig of the workload cluster.
pub proof fn the_management_cluster_comes_first(
    cli: CliModel,
    engine: Seq<char>,
    answers: Seq<ReplyModel>,
)
    requires
        answers.len() == 2,
        succeeded(answers[0]),
        succeeded(answers[1]),
    ensures
        ({
            let step = |at: WatchPointModel, reply: ReplyModel| watch_turn(cli, engine, at, reply);
            let first = watch_turn(cli, engine, WatchPoint::Start, Reply::Begin);
            &&& events(step, first, answers) == seq![
                Event::Told(""@),
                Event::Told(">>> Step 5: Flux reconciliation progress"@),
                Event::Asked(
                    Action::RunQuiet(
                        command(
                            "kubectl"@,
                            seq![
                                "get"@,
                                "kustomization"@,
                                "flux-apps"@,
                                "--namespace"@,
                                "flux-system"@,
                            ],
                        ),
                    ),
                ),
                Event::Told(
                    ">>> Waiting until the local workload cluster and Flux addons are ready..."@,
                ),
                Event::Asked(
                    Action::Run(
                        command(
                            "kubectl"@,
                            seq![
                                "wait"@,
                                "kustomization/flux-apps"@,
                                "--namespace"@,
                                "flux-system"@,
                                "--for=condition=Ready"@,
                                "--timeout="@ + cli.local_reconcile_timeout,
                            ],
                        ),
                    ),
                ),
                Event::Told(""@),
                Event::Told(">>> Workload cluster Flux reconciliation errors"@),
                Event::Asked(Action::CreateTemp),
            ]
            &&& reached(step, first, answers) matches TurnModel::Ask(
                next,
                _,
                _,
            ) && next is KubeconfigMade
        }),
{
    reveal_with_fuel(events, 3);
    reveal_with_fuel(reached, 3);
}

/// All of the kubeconfig that is printed for the workload cluster is written into that file, and
/// the file is pointed at the port that is published on this host.
pub proof fn the_kubeconfig_leads_to_the_workload_cluster(
    cli: CliModel,
    engine: Seq<char>,
    path: Seq<char>,
    kubeconfig: Seq<u8>,
    published: Seq<u8>,
    port: Seq<char>,
    answers: Seq<ReplyModel>,
)
    requires
        answers.len() == 3,
        answers[0] matches Reply::Ended(Ending::Exited { success, output, .. }) && success && output
            == kubeconfig,
        answers[1] == Reply::<Seq<char>, Seq<u8>>::Finished(Ok(())),
        answers[2] matches Reply::Ended(Ending::Exited { success, output, .. }) && success && output
            == published,
        published_port(decoded(published)) == Some(port),
    ensures
        ({
            let step = |at: WatchPointModel, reply: ReplyModel| watch_turn(cli, engine, at, reply);
            let first = watch_turn(cli, engine, WatchPoint::KubeconfigMade, Reply::Text(Ok(path)));
            &&& events(step, first, answers) == seq![
                Event::Asked(
                    Action::Capture(
                        command("clusterctl"@, seq!["get"@, "kubeconfig"@, "local-workload"@]),
                    ),
                ),
                Event::Asked(Action::WriteTemp { path, contents: decoded(kubeconfig) }),
                Event::Asked(
                    Action::Capture(
                        command(engine, seq!["port"@, "local-workload-lb"@, "6443/tcp"@]),
                    ),
                ),
                Event::Asked(
                    Action::Capture(
                        command(
                            "kubectl"@,
                            seq![
                                "config"@,
                                "set-cluster"@,
                                "local-workload"@,
                                "--server=https://127.0.0.1:"@ + port,
                                "--kubeconfig="@ + path,
                            ],
                        ),
                    ),
                ),
            ]
            &&& reached(step, first, answers) matches TurnModel::Ask(next, _, _)
            &&& next == WatchPoint::<Seq<char>, CallModel>::PortSet { kubeconfig: path, port }
        }),
{
    reveal_with_fuel(events, 4);
    reveal_with_fuel(reached, 4);
}

/// Through that file the workload cluster is waited for, while its errors are followed. Then the
/// watch cleans up, and is over.
#[verifier::rlimit(50)]
pub proof fn the_workload_cluster_comes_next(
    cli: CliModel,
    engine: Seq<char>,
    path: Seq<char>,
    port: Seq<char>,
    set: ReplyModel,
    answers: Seq<ReplyModel>,
)
    requires
        succeeded(set),
        answers.len() == 5,
        succeeded(answers[0]),
        succeeded(answers[1]),
        answers[2] == Reply::<Seq<char>, Seq<u8>>::Finished(Ok(())),
        succeeded(answers[3]),
    ensures
        ({
            let step = |at: WatchPointModel, reply: ReplyModel| watch_turn(cli, engine, at, reply);
            let first = watch_turn(
                cli,
                engine,
                WatchPoint::PortSet { kubeconfig: path, port },
                set,
            );
            &&& events(step, first, answers) == seq![
                Event::Asked(
                    Action::RunQuiet(
                        command(
                            "kubectl"@,
                            seq![
                                "--kubeconfig"@,
                                path,
                                "get"@,
                                "kustomization"@,
                                "flux-system"@,
                                "--namespace"@,
                                "flux-system"@,
                            ],
                        ),
                    ),
                ),
                Event::Told(">>> Waiting for workload Flux controllers to be ready..."@),
                Event::Asked(
                    Action::Run(
                        command(
                            "kubectl"@,
                            seq![
                                "--kubeconfig"@,
                                path,
                                "wait"@,
                                "pod"@,
                                "--namespace"@,
                                "flux-system"@,
                                "--selector=app.kubernetes.io/part-of=flux"@,
                                "--for=condition=Ready"@,
                                "--timeout="@ + cli.local_reconcile_timeout,
                            ],
                        ),
                    ),
                ),
                Event::Asked(
                    Action::Follow(
                        command(
                            "flux"@,
                            seq![
                                "logs"@,
                                "--kubeconfig"@,
                                path,
                                "--all-namespaces"@,
                                "--follow"@,
                                "--level=error"@,
                                "--since=10m"@,
                            ],
                        ),
                    ),
                ),
                Event::Asked(
                    Action::Run(
                        command(
                            "kubectl"@,
                            seq![
                                "--kubeconfig"@,
                                path,
                                "wait"@,
                                "kustomization/flux-system"@,
                                "--namespace"@,
                                "flux-system"@,
                                "--for=condition=Ready"@,
                                "--timeout="@ + cli.local_reconcile_timeout,
                            ],
                        ),
                    ),
                ),
                Event::Asked(Action::Release(path)),
            ]
            &&& reached(step, first, answers) == TurnModel::<WatchPointModel, ()>::Done(seq![], ())
        }),
{
    reveal_with_fuel(events, 6);
    reveal_with_fuel(reached, 6);
}

/// The whole of what was printed is written into the kubeconfig, whatever it is.
pub proof fn the_kubeconfig_is_written_whole(
    cli: CliModel,
    engine: Seq<char>,
    path: Seq<char>,
    status: Seq<char>,
    text: Seq<char>,
)
    ensures
        watch_turn(
            cli,
            engine,
            WatchPoint::KubeconfigFetched(path),
            Reply::Ended(Ending::Exited { success: true, status, output: encode_utf8(text) }),
        )
            == TurnModel::<WatchPointModel, ()>::Ask(
                WatchPoint::KubeconfigWritten(path),
                seq![],
                Action::WriteTemp { path, contents: text },
            ),
{
    encoded_text_is_read_back(text);
}

/// The Kustomization of the management cluster is looked for sixty times, two seconds apart,
/// always in the same way. If it does not appear, what there is is shown, and the watch fails.
pub proof fn the_management_cluster_is_waited_for(
    cli: CliModel,
    engine: Seq<char>,
    attempts: u32,
    reply: ReplyModel,
    other: ReplyModel,
    found: ReplyModel,
)
    requires
        !succeeded(reply),
        succeeded(found),
    ensures
        watch_turn(cli, engine, WatchPoint::ManagementAppears(Poll::Trying(attempts)), found)
            == TurnModel::<WatchPointModel, ()>::Ask(
                WatchPoint::ManagementReady,
                seq![
                    Note::Progress(
                        ">>> Waiting until the local workload cluster and Flux addons are ready..."@,
                    ),
                ],
                Action::Run(
                    command(
                        "kubectl"@,
                        seq![
                            "wait"@,
                            "kustomization/flux-apps"@,
                            "--namespace"@,
                            "flux-system"@,
                            "--for=condition=Ready"@,
                            "--timeout="@ + cli.local_reconcile_timeout,
                        ],
                    ),
                ),
            ),
        watch_turn(cli, engine, WatchPoint::Start, other) matches TurnModel::Ask(next, _, _) && next
            == WatchPoint::<Seq<char>, CallModel>::ManagementAppears(Poll::Trying(59)),
        watch_turn(cli, engine, WatchPoint::ManagementAppears(Poll::Trying(attempts)), reply)
            == TurnModel::<WatchPointModel, ()>::Ask(
                WatchPoint::ManagementAppears(Poll::Pausing(attempts)),
                seq![],
                Action::Sleep(2),
            ),
        attempts > 0
            ==> watch_turn(
                cli,
                engine,
                WatchPoint::ManagementAppears(Poll::Pausing(attempts)),
                other,
            )
                == TurnModel::<WatchPointModel, ()>::Ask(
                    WatchPoint::ManagementAppears(Poll::Trying((attempts - 1) as u32)),
                    seq![],
                    Action::RunQuiet(
                        command(
                            "kubectl"@,
                            seq![
                                "get"@,
                                "kustomization"@,
                                "flux-apps"@,
                                "--namespace"@,
                                "flux-system"@,
                            ],
                        ),
                    ),
                ),
        watch_turn(cli, engine, WatchPoint::ManagementAppears(Poll::Pausing(0)), other)
            == TurnModel::<WatchPointModel, ()>::Ask(
                WatchPoint::ManagementMissing,
                seq![
                    Note::Problem(
                        "ERROR: flux-apps Kustomization was not created within 2 minutes"@,
                    ),
                ],
                Action::Run(command("flux"@, seq!["get"@, "kustomizations"@])),
            ),
        watch_turn(cli, engine, WatchPoint::ManagementMissing, other)
            == TurnModel::<WatchPointModel, ()>::Fail(seq![], Failure::ManagementFluxMissing),
        watch_turn(cli, engine, WatchPoint::ManagementReady, reply)
            == TurnModel::<WatchPointModel, ()>::Ask(
                WatchPoint::ManagementLate,
                seq![
                    Note::Problem(
                        "ERROR: local-host reconciliation did not complete within "@
                            + cli.local_reconcile_timeout,
                    ),
                ],
                Action::Run(command("flux"@, seq!["get"@, "kustomizations"@])),
            ),
        watch_turn(cli, engine, WatchPoint::ManagementLate, other)
            == TurnModel::<WatchPointModel, ()>::Fail(seq![], Failure::ManagementTimedOut),
{
}

/// The Kustomization of the workload cluster is looked for sixty times, two seconds apart, always
/// in the same way. If it does not appear, or is late, what there is is shown, and the watch fails
/// once it has cleaned up.
pub proof fn the_workload_cluster_is_waited_for(
    cli: CliModel,
    engine: Seq<char>,
    path: Seq<char>,
    port: Seq<char>,
    attempts: u32,
    reply: ReplyModel,
    other: ReplyModel,
)
    requires
        !succeeded(reply),
        succeeded(other),
    ensures
        watch_turn(cli, engine, WatchPoint::WorkloadAppears(path, Poll::Trying(attempts)), other)
            == TurnModel::<WatchPointModel, ()>::Ask(
                WatchPoint::ControllersReady(path),
                seq![Note::Progress(">>> Waiting for workload Flux controllers to be ready..."@)],
                Action::Run(
                    command(
                        "kubectl"@,
                        seq![
                            "--kubeconfig"@,
                            path,
                            "wait"@,
                            "pod"@,
                            "--namespace"@,
                            "flux-system"@,
                            "--selector=app.kubernetes.io/part-of=flux"@,
                            "--for=condition=Ready"@,
                            "--timeout="@ + cli.local_reconcile_timeout,
                        ],
                    ),
                ),
            ),
        watch_turn(
            cli,
            engine,
            WatchPoint::PortSet { kubeconfig: path, port },
            other,
        ) matches TurnModel::Ask(
            next,
            _,
            _,
        ) && next
            == WatchPoint::<Seq<char>, CallModel>::WorkloadAppears(path, Poll::Trying(59)),
        watch_turn(cli, engine, WatchPoint::WorkloadAppears(path, Poll::Trying(attempts)), reply)
            == TurnModel::<WatchPointModel, ()>::Ask(
                WatchPoint::WorkloadAppears(path, Poll::Pausing(attempts)),
                seq![],
                Action::Sleep(2),
            ),
        attempts > 0
            ==> watch_turn(
                cli,
                engine,
                WatchPoint::WorkloadAppears(path, Poll::Pausing(attempts)),
                reply,
            )
                == TurnModel::<WatchPointModel, ()>::Ask(
                    WatchPoint::WorkloadAppears(path, Poll::Trying((attempts - 1) as u32)),
                    seq![],
                    Action::RunQuiet(
                        command(
                            "kubectl"@,
                            seq![
                                "--kubeconfig"@,
                                path,
                                "get"@,
                                "kustomization"@,
                                "flux-system"@,
                                "--namespace"@,
                                "flux-system"@,
                            ],
                        ),
                    ),
                ),
        watch_turn(cli, engine, WatchPoint::WorkloadAppears(path, Poll::Pausing(0)), reply)
            == TurnModel::<WatchPointModel, ()>::Ask(
                WatchPoint::WorkloadMissing(path),
                seq![
                    Note::Problem(
                        "ERROR: workload Flux Kustomization was not created within 2 minutes"@,
                    ),
                ],
                Action::Run(
                    command(
                        "kubectl"@,
                        seq![
                            "--kubeconfig"@,
                            path,
                            "get"@,
                            "pods"@,
                            "--namespace"@,
                            "flux-system"@,
                        ],
                    ),
                ),
            ),
        watch_turn(cli, engine, WatchPoint::WorkloadMissing(path), reply)
            == TurnModel::<WatchPointModel, ()>::Ask(
                WatchPoint::Abandoned(Failure::WorkloadFluxMissing),
                seq![],
                Action::Release(path),
            ),
        watch_turn(cli, engine, WatchPoint::WorkloadReady(path), reply)
            == TurnModel::<WatchPointModel, ()>::Ask(
                WatchPoint::WorkloadLate(path),
                seq![
                    Note::Problem(
                        "ERROR: workload reconciliation did not complete within "@
                            + cli.local_reconcile_timeout,
                    ),
                ],
                Action::Run(
                    command(
                        "flux"@,
                        seq!["get"@, "kustomizations"@, "--kubeconfig"@, path, "--all-namespaces"@],
                    ),
                ),
            ),
        watch_turn(cli, engine, WatchPoint::WorkloadLate(path), reply)
            == TurnModel::<WatchPointModel, ()>::Ask(
                WatchPoint::Abandoned(Failure::WorkloadTimedOut),
                seq![],
                Action::Release(path),
            ),
{
}

/// What the watch cannot do without has its own failure, with the cause that was answered.
pub proof fn the_watch_fails_for_a_reason(
    cli: CliModel,
    engine: Seq<char>,
    path: Seq<char>,
    cause: Seq<char>,
    status: Seq<char>,
    output: Seq<u8>,
    failure: FailureModel,
    reply: ReplyModel,
)
    requires
        published_port(decoded(output)) is None,
    ensures
        watch_turn(cli, engine, WatchPoint::KubeconfigMade, Reply::Text(Err(cause)))
            == TurnModel::<WatchPointModel, ()>::Fail(seq![], Failure::KubeconfigNotCreated(cause)),
        watch_turn(cli, engine, WatchPoint::KubeconfigWritten(path), Reply::Finished(Err(cause)))
            == TurnModel::<WatchPointModel, ()>::Ask(
                WatchPoint::Abandoned(Failure::Broken(cause)),
                seq![],
                Action::Release(path),
            ),
        watch_turn(
            cli,
            engine,
            WatchPoint::PortFound(path),
            Reply::Ended(Ending::Exited { success: true, status, output }),
        )
            == TurnModel::<WatchPointModel, ()>::Ask(
                WatchPoint::Abandoned(Failure::PortUnknown),
                seq![],
                Action::Release(path),
            ),
        watch_turn(cli, engine, WatchPoint::LogsFollowed(path), Reply::Finished(Err(cause)))
            == TurnModel::<WatchPointModel, ()>::Ask(
                WatchPoint::Abandoned(Failure::LogsNotStarted(cause)),
                seq![],
                Action::Release(path),
            ),
        watch_turn(cli, engine, WatchPoint::Abandoned(failure), reply)
            == TurnModel::<WatchPointModel, ()>::Fail(seq![], failure),
{
}

} // verus!
