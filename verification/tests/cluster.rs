use knr_bootstrap::cli::{Cli, Profile};
use knr_bootstrap::cluster::{create_kind_cluster, keep_or_create, write_kind_config, KindPoint};
use knr_bootstrap::failure::Failure;
use knr_bootstrap::process::call;
use knr_bootstrap::protocol::{Action, Ending, Note, Reply, Turn};

type Answer = Reply<String, Vec<u8>>;
type KindTurn = Turn<KindPoint, ()>;

const AWS_CONFIG: &str = "kind: Cluster
apiVersion: kind.x-k8s.io/v1alpha4
nodes:
  - role: control-plane
    extraMounts:
      - hostPath: /sock
        containerPath: /var/run/docker.sock
";

const LOCAL_CONFIG: &str = r#"kind: Cluster
apiVersion: kind.x-k8s.io/v1alpha4
containerdConfigPatches:
  - |-
    [plugins."io.containerd.grpc.v1.cri".registry.mirrors."localhost:6001"]
      endpoint = ["http://knr-registry:5000"]
nodes:
  - role: control-plane
    extraMounts:
      - hostPath: /sock
        containerPath: /var/run/docker.sock
"#;

fn settings(profile: Profile, recreate: bool) -> Cli<String> {
    Cli {
        profile,
        recreate,
        registry_port: 6001,
        registry_ready_retries: 120,
        local_reconcile_timeout: "15m".to_string(),
        container_engine: None,
        git_repo_url: None,
        github_token: None,
        github_user: "git".to_string(),
        age_key_file: "age.agekey".to_string(),
        age_public_key: None,
        oci_repository: "knr-ops".to_string(),
        oci_tag: "latest".to_string(),
    }
}

fn exited(success: bool, output: &str) -> Answer {
    Reply::Ended(Ending::Exited {
        success,
        status: "exit status: 1".to_string(),
        output: output.as_bytes().to_vec(),
    })
}

fn at(recreate: bool, point: KindPoint, reply: Answer) -> KindTurn {
    create_kind_cluster(&settings(Profile::Aws, recreate), "/sock", point, &reply)
}

fn line(text: &str) -> Note<String> {
    Note::Progress(text.to_string())
}

fn creates() -> KindTurn {
    Turn::Ask(
        KindPoint::Created,
        vec![],
        Action::RunWithStdin(
            call("kind", &["create", "cluster", "--name", "mgmt", "--config", "-"]),
            AWS_CONFIG.to_string(),
        ),
    )
}

#[test]
fn the_configuration_mounts_the_socket() {
    assert_eq!(write_kind_config(&settings(Profile::Aws, false), "/sock"), AWS_CONFIG);
    assert_eq!(write_kind_config(&settings(Profile::LocalHost, false), "/sock"), LOCAL_CONFIG);
}

#[test]
fn clusters_are_listed_first() {
    assert_eq!(
        at(false, KindPoint::Start, Reply::Begin),
        Turn::Ask(
            KindPoint::Listed,
            vec![line(">>> Creating kind cluster 'mgmt'...")],
            Action::CaptureLossy(call("kind", &["get", "clusters"])),
        )
    );
}

#[test]
fn a_cluster_is_created_where_there_is_none() {
    for recreate in [false, true] {
        assert_eq!(at(recreate, KindPoint::Listed, exited(true, "other\nmgmt-2\n")), creates());
        assert_eq!(
            at(recreate, KindPoint::Listed, Reply::Ended(Ending::NotStarted(String::new()))),
            creates()
        );
    }
    assert_eq!(keep_or_create(&settings(Profile::Aws, true), "/sock", false), creates());
}

#[test]
fn an_existing_cluster_is_reused() {
    assert_eq!(
        at(false, KindPoint::Listed, exited(true, "other\n mgmt \n")),
        Turn::Ask(
            KindPoint::Chosen,
            vec![
                line(">>> Cluster 'mgmt' already exists \u{2013} reusing..."),
                line(">>> Waiting for cluster node to be ready..."),
            ],
            Action::Run(call("kubectl", &["config", "use-context", "kind-mgmt"])),
        )
    );
}

#[test]
fn an_existing_cluster_is_recreated_on_request() {
    let delete = || call("kind", &["delete", "cluster", "--name", "mgmt"]);
    assert_eq!(
        at(true, KindPoint::Listed, exited(true, "mgmt\n")),
        Turn::Ask(
            KindPoint::Deleted,
            vec![line(">>> Cluster 'mgmt' already exists \u{2013} recreating...")],
            Action::Run(delete()),
        )
    );
    assert_eq!(at(true, KindPoint::Deleted, exited(true, "")), creates());
    assert_eq!(
        at(true, KindPoint::Deleted, exited(false, "")),
        Turn::Fail(
            vec![],
            Failure::CommandFailed { call: delete(), status: "exit status: 1".to_string() }
        )
    );
}

#[test]
fn the_node_is_waited_for() {
    let wait =
        || call("kubectl", &["wait", "--for=condition=Ready", "node", "--all", "--timeout=120s"]);
    assert_eq!(
        at(false, KindPoint::Created, exited(true, "")),
        Turn::Ask(
            KindPoint::Chosen,
            vec![line(">>> Waiting for cluster node to be ready...")],
            Action::Run(call("kubectl", &["config", "use-context", "kind-mgmt"])),
        )
    );
    assert_eq!(
        at(false, KindPoint::Chosen, exited(true, "")),
        Turn::Ask(KindPoint::Ready, vec![], Action::Run(wait()))
    );
    assert_eq!(at(false, KindPoint::Ready, exited(true, "")), Turn::Done(vec![], ()));
    assert_eq!(
        at(false, KindPoint::Ready, exited(false, "")),
        Turn::Fail(
            vec![],
            Failure::CommandFailed { call: wait(), status: "exit status: 1".to_string() }
        )
    );
}
