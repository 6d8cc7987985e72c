//! The local registry, as it is seen from outside.

use crate::cli::CliModel;
use crate::decimal::numeral;
use crate::failure::Failure;
use crate::outside::decoded;
use crate::process::{output_text, succeeded};
use crate::protocol::{Action, CallModel, Ending, Reply, ReplyModel, TurnModel};
use crate::registry::{ready, registry_turn, RegistryPoint};
use crate::scripts::{command, events, reached, Event};
use crate::text::lists;
use vstd::prelude::*;

verus! {

/// Where there is no registry, it is created: its port 5000 is published on the port of the
/// settings, on this host alone, which is the port that is asked whether it is ready. The cluster
/// is told where it finds the registry, and the first artifact is published there.
#[verifier::rlimit(50)]
pub proof fn a_missing_registry_is_created(
    cli: CliModel,
    engine: Seq<char>,
    answers: Seq<ReplyModel>,
    manifest: Seq<u8>,
)
    requires
        answers.len() == 6,
        !lists(output_text(answers[0]), "knr-registry"@),
        succeeded(answers[1]),
        ready(answers[2]),
        answers[3] matches Reply::Ended(
            Ending::Exited { success, output, .. },
        ) && success && output == manifest,
        succeeded(answers[4]),
        succeeded(answers[5]),
    ensures
        ({
            let port = numeral(cli.registry_port as nat);
            let address = "localhost:"@ + port;
            let step = |at: RegistryPoint, reply: ReplyModel| registry_turn(cli, engine, at, reply);
            let first = registry_turn(cli, engine, RegistryPoint::Start, Reply::Begin);
            &&& events(step, first, answers) == seq![
                Event::Told(">>> Bootstrapping local container registry..."@),
                Event::Asked(
                    Action::CaptureLossy(
                        command(
                            engine,
                            seq![
                                "ps"@,
                                "-a"@,
                                "--filter"@,
                                "name=^knr-registry$"@,
                                "--format"@,
                                "{{.Names}}"@,
                            ],
                        ),
                    ),
                ),
                Event::Told("    Creating registry container 'knr-registry'..."@),
                Event::Asked(
                    Action::Capture(
                        command(
                            engine,
                            seq![
                                "run"@,
                                "-d"@,
                                "--name"@,
                                "knr-registry"@,
                                "--network"@,
                                "kind"@,
                                "-p"@,
                                "127.0.0.1:"@ + port + ":5000"@,
                                "registry:2"@,
                            ],
                        ),
                    ),
                ),
                Event::Told("    Registry created and running: "@ + address),
                Event::Told(">>> Waiting for local registry API at "@ + address + "..."@),
                Event::Asked(Action::Get { url: "http://"@ + address + "/v2/"@, limit: 10 }),
                Event::Asked(
                    Action::Capture(
                        command(
                            "kubectl"@,
                            seq![
                                "create"@,
                                "configmap"@,
                                "local-registry-config"@,
                                "--from-literal"@,
                                "registry-url=knr-registry:5000"@,
                                "--namespace"@,
                                "kube-system"@,
                                "--dry-run=client"@,
                                "-o"@,
                                "yaml"@,
                            ],
                        ),
                    ),
                ),
                Event::Asked(
                    Action::RunWithStdin(
                        command("kubectl"@, seq!["apply"@, "-f"@, "-"@]),
                        decoded(manifest),
                    ),
                ),
                Event::Told(">>> Publishing initial OCI artifact from the local Git checkout..."@),
                Event::Asked(
                    Action::Run(
                        CallModel {
                            program: "mise"@,
                            args: seq!["-E"@, "local-host"@, "run"@, "oci-push"@],
                            env: seq![
                                ("REGISTRY_PORT"@, port),
                                ("OCI_REPOSITORY"@, cli.oci_repository),
                                ("OCI_TAG"@, cli.oci_tag),
                            ],
                        },
                    ),
                ),
                Event::Told(
                    ">>> Initial OCI artifact is available at oci://"@ + address + "/"@
                        + cli.oci_repository + ":"@ + cli.oci_tag,
                ),
            ]
            &&& reached(step, first, answers) is Done
        }),
{
    lemma_registry_words();
    reveal_with_fuel(events, 7);
    reveal_with_fuel(reached, 7);
}

/// A registry that is there and does not run is started again.
#[verifier::rlimit(50)]
pub proof fn a_stopped_registry_is_started(
    cli: CliModel,
    engine: Seq<char>,
    answers: Seq<ReplyModel>,
    manifest: Seq<u8>,
)
    requires
        answers.len() == 7,
        lists(output_text(answers[0]), "knr-registry"@),
        !lists(output_text(answers[1]), "knr-registry"@),
        succeeded(answers[2]),
        ready(answers[3]),
        answers[4] matches Reply::Ended(
            Ending::Exited { success, output, .. },
        ) && success && output == manifest,
        succeeded(answers[5]),
        succeeded(answers[6]),
    ensures
        ({
            let port = numeral(cli.registry_port as nat);
            let address = "localhost:"@ + port;
            let step = |at: RegistryPoint, reply: ReplyModel| registry_turn(cli, engine, at, reply);
            let first = registry_turn(cli, engine, RegistryPoint::Start, Reply::Begin);
            &&& events(step, first, answers) == seq![
                Event::Told(">>> Bootstrapping local container registry..."@),
                Event::Asked(
                    Action::CaptureLossy(
                        command(
                            engine,
                            seq![
                                "ps"@,
                                "-a"@,
                                "--filter"@,
                                "name=^knr-registry$"@,
                                "--format"@,
                                "{{.Names}}"@,
                            ],
                        ),
                    ),
                ),
                Event::Asked(
                    Action::CaptureLossy(
                        command(
                            engine,
                            seq![
                                "ps"@,
                                "--filter"@,
                                "name=^knr-registry$"@,
                                "--format"@,
                                "{{.Names}}"@,
                            ],
                        ),
                    ),
                ),
                Event::Told("    Restarting stopped registry..."@),
                Event::Asked(Action::Capture(command(engine, seq!["start"@, "knr-registry"@]))),
                Event::Told("    Registry restarted: "@ + address),
                Event::Told(">>> Waiting for local registry API at "@ + address + "..."@),
                Event::Asked(Action::Get { url: "http://"@ + address + "/v2/"@, limit: 10 }),
                Event::Asked(
                    Action::Capture(
                        command(
                            "kubectl"@,
                            seq![
                                "create"@,
                                "configmap"@,
                                "local-registry-config"@,
                                "--from-literal"@,
                                "registry-url=knr-registry:5000"@,
                                "--namespace"@,
                                "kube-system"@,
                                "--dry-run=client"@,
                                "-o"@,
                                "yaml"@,
                            ],
                        ),
                    ),
                ),
                Event::Asked(
                    Action::RunWithStdin(
                        command("kubectl"@, seq!["apply"@, "-f"@, "-"@]),
                        decoded(manifest),
                    ),
                ),
                Event::Told(">>> Publishing initial OCI artifact from the local Git checkout..."@),
                Event::Asked(
                    Action::Run(
                        CallModel {
                            program: "mise"@,
                            args: seq!["-E"@, "local-host"@, "run"@, "oci-push"@],
                            env: seq![
                                ("REGISTRY_PORT"@, port),
                                ("OCI_REPOSITORY"@, cli.oci_repository),
                                ("OCI_TAG"@, cli.oci_tag),
                            ],
                        },
                    ),
                ),
                Event::Told(
                    ">>> Initial OCI artifact is available at oci://"@ + address + "/"@
                        + cli.oci_repository + ":"@ + cli.oci_tag,
                ),
            ]
            &&& reached(step, first, answers) is Done
        }),
{
    lemma_registry_words();
    reveal_with_fuel(events, 8);
    reveal_with_fuel(reached, 8);
}

/// A registry that runs is used as it is.
#[verifier::rlimit(50)]
pub proof fn a_running_registry_is_used(
    cli: CliModel,
    engine: Seq<char>,
    answers: Seq<ReplyModel>,
    manifest: Seq<u8>,
)
    requires
        answers.len() == 6,
        lists(output_text(answers[0]), "knr-registry"@),
        lists(output_text(answers[1]), "knr-registry"@),
        ready(answers[2]),
        answers[3] matches Reply::Ended(
            Ending::Exited { success, output, .. },
        ) && success && output == manifest,
        succeeded(answers[4]),
        succeeded(answers[5]),
    ensures
        ({
            let port = numeral(cli.registry_port as nat);
            let address = "localhost:"@ + port;
            let step = |at: RegistryPoint, reply: ReplyModel| registry_turn(cli, engine, at, reply);
            let first = registry_turn(cli, engine, RegistryPoint::Start, Reply::Begin);
            &&& events(step, first, answers) == seq![
                Event::Told(">>> Bootstrapping local container registry..."@),
                Event::Asked(
                    Action::CaptureLossy(
                        command(
                            engine,
                            seq![
                                "ps"@,
                                "-a"@,
                                "--filter"@,
                                "name=^knr-registry$"@,
                                "--format"@,
                                "{{.Names}}"@,
                            ],
                        ),
                    ),
                ),
                Event::Asked(
                    Action::CaptureLossy(
                        command(
                            engine,
                            seq![
                                "ps"@,
                                "--filter"@,
                                "name=^knr-registry$"@,
                                "--format"@,
                                "{{.Names}}"@,
                            ],
                        ),
                    ),
                ),
                Event::Told("    Registry already running: "@ + address),
                Event::Told(">>> Waiting for local registry API at "@ + address + "..."@),
                Event::Asked(Action::Get { url: "http://"@ + address + "/v2/"@, limit: 10 }),
                Event::Asked(
                    Action::Capture(
                        command(
                            "kubectl"@,
                            seq![
                                "create"@,
                                "configmap"@,
                                "local-registry-config"@,
                                "--from-literal"@,
                                "registry-url=knr-registry:5000"@,
                                "--namespace"@,
                                "kube-system"@,
                                "--dry-run=client"@,
                                "-o"@,
                                "yaml"@,
                            ],
                        ),
                    ),
                ),
                Event::Asked(
                    Action::RunWithStdin(
                        command("kubectl"@, seq!["apply"@, "-f"@, "-"@]),
                        decoded(manifest),
                    ),
                ),
                Event::Told(">>> Publishing initial OCI artifact from the local Git checkout..."@),
                Event::Asked(
                    Action::Run(
                        CallModel {
                            program: "mise"@,
                            args: seq!["-E"@, "local-host"@, "run"@, "oci-push"@],
                            env: seq![
                                ("REGISTRY_PORT"@, port),
                                ("OCI_REPOSITORY"@, cli.oci_repository),
                                ("OCI_TAG"@, cli.oci_tag),
                            ],
                        },
                    ),
                ),
                Event::Told(
                    ">>> Initial OCI artifact is available at oci://"@ + address + "/"@
                        + cli.oci_repository + ":"@ + cli.oci_tag,
                ),
            ]
            &&& reached(step, first, answers) is Done
        }),
{
    lemma_registry_words();
    reveal_with_fuel(events, 7);
    reveal_with_fuel(reached, 7);
}

proof fn lemma_registry_words()
    ensures
        "name=^"@ + "knr-registry"@ + "$"@ == "name=^knr-registry$"@,
        "registry-url="@ + "knr-registry"@ + ":5000"@ == "registry-url=knr-registry:5000"@,
        "    Creating registry container '"@ + "knr-registry"@ + "'..."@
            == "    Creating registry container 'knr-registry'..."@,
{
    reveal_strlit("name=^");
    reveal_strlit("knr-registry");
    reveal_strlit("$");
    reveal_strlit("name=^knr-registry$");
    reveal_strlit("registry-url=");
    reveal_strlit(":5000");
    reveal_strlit("registry-url=knr-registry:5000");
    reveal_strlit("    Creating registry container '");
    reveal_strlit("'...");
    reveal_strlit("    Creating registry container 'knr-registry'...");
}

/// A registry that is not ready is asked again at the same address, a second later, as long as
/// retries remain; it begins with all of those in the settings. A status from 200 to 299 is ready,
/// and nothing else.
pub proof fn the_registry_is_asked_again(
    cli: CliModel,
    engine: Seq<char>,
    retries: u32,
    reply: ReplyModel,
    other: ReplyModel,
)
    requires
        !ready(reply),
    ensures
        registry_turn(cli, engine, RegistryPoint::Probed(retries), reply) == (if retries > 0 {
            TurnModel::<RegistryPoint, ()>::Ask(
                RegistryPoint::Paused((retries - 1) as u32),
                seq![],
                Action::Sleep(1),
            )
        } else {
            TurnModel::<RegistryPoint, ()>::Fail(
                seq![],
                Failure::RegistryNotReady(cli.registry_port),
            )
        }),
        registry_turn(cli, engine, RegistryPoint::Paused(retries), other) == TurnModel::<
            RegistryPoint,
            (),
        >::Ask(
            RegistryPoint::Probed(retries),
            seq![],
            Action::Get {
                url: "http://"@ + ("localhost:"@ + numeral(cli.registry_port as nat)) + "/v2/"@,
                limit: 10,
            },
        ),
        registry_turn(cli, engine, RegistryPoint::Created, other) matches TurnModel::Ask(next, _, _)
            ==> next == RegistryPoint::Probed(cli.registry_ready_retries),
        registry_turn(cli, engine, RegistryPoint::Restarted, other) matches TurnModel::Ask(
            next,
            _,
            _,
        ) ==> next == RegistryPoint::Probed(cli.registry_ready_retries),
        registry_turn(cli, engine, RegistryPoint::RunningListed, other) matches TurnModel::Ask(
            next,
            _,
            _,
        ) ==> next == RegistryPoint::Probed(cli.registry_ready_retries) || next
            == RegistryPoint::Restarted,
        ready(other) ==> registry_turn(cli, engine, RegistryPoint::Probed(retries), other)
            == TurnModel::<RegistryPoint, ()>::Ask(
            RegistryPoint::ConfigMade,
            seq![],
            Action::Capture(
                command(
                    "kubectl"@,
                    seq![
                        "create"@,
                        "configmap"@,
                        "local-registry-config"@,
                        "--from-literal"@,
                        "registry-url=knr-registry:5000"@,
                        "--namespace"@,
                        "kube-system"@,
                        "--dry-run=client"@,
                        "-o"@,
                        "yaml"@,
                    ],
                ),
            ),
        ),
        ready(other) <==> (other matches Reply::Status(Some(code)) && 200 <= code <= 299),
{
    lemma_registry_words();
}

} // verus!
