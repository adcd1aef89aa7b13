use cypher_sheet::components::{discord_bot_spec, Component};
use cypher_sheet::discord_bot::{named_pairs, Options};
use cypher_sheet::env_arg::{env_name, env_names, env_pairs, EnvArgs};
use cypher_sheet::image::{build_image, container_file, push_image, ContainerFile};
use cypher_sheet::options::{
    default_image_registry, default_image_tag, default_target_cache, home_dir, Environment,
};
use cypher_sheet::resources::{
    default_labels, default_namespace_labels, expected_deployment, expected_namespace,
    expected_secret, FIELD_MANAGER, PROJECT,
};
use cypher_sheet::status::{check_deployment_ready_pods, check_resource_against, ResourceDiff};
use cypher_sheet::table::Table;

fn bot() -> Component {
    Component::DiscordBot { options: Options { discord_token: "SECRET-REDACTED".to_owned() } }
}

fn sorted(table: &Table<String>) -> Vec<(String, String)> {
    let mut pairs = table.pairs();
    pairs.sort();
    pairs
}

fn pair(key: &str, value: &str) -> (String, String) {
    (key.to_owned(), value.to_owned())
}

#[test]
fn derives_correctly() {
    let options = Options { discord_token: "token".to_owned() };
    let map = options.get_env_pairs();
    assert_eq!(map.pairs(), vec![pair("DISCORD_TOKEN", "token")]);
    assert_eq!(map.text("DISCORD_TOKEN"), Some("token".to_owned()));
    assert_eq!(map.text("discord_token"), None);
}

#[test]
fn settings_go_under_the_name_of_their_variable() {
    let pairs = named_pairs("TOKEN".to_owned(), "value".to_owned());
    assert_eq!(pairs.pairs(), vec![pair("TOKEN", "value")]);
    assert_eq!(pairs.text("TOKEN"), Some("value".to_owned()));
    assert_eq!(pairs.text("DISCORD_TOKEN"), None);
}

#[test]
fn env_names_are_shouty_snake_case() {
    assert_eq!(env_name("discord_token"), "DISCORD_TOKEN");
    assert_eq!(env_name("imageRegistry"), "IMAGE_REGISTRY");
    let fields = vec!["discord_token".to_owned(), "a".to_owned(), "target-cache".to_owned()];
    assert_eq!(env_names(&fields), vec!["DISCORD_TOKEN", "A", "TARGET_CACHE"]);
    assert!(env_names(&Vec::new()).is_empty());
}

#[test]
fn env_pairs_keep_the_later_of_two_fields_with_one_name() {
    let pairs = env_pairs(vec![pair("A", "1"), pair("B", "2"), pair("A", "3")]);
    assert_eq!(pairs.text("A"), Some("3".to_owned()));
    assert_eq!(pairs.text("B"), Some("2".to_owned()));
    assert_eq!(pairs.text("C"), None);
    assert_eq!(pairs.pairs().len(), 2);
}

#[test]
fn component_knows_its_names() {
    let component = bot();
    assert_eq!(component.name(), "discord_bot");
    assert_eq!(component.image_name(), "cypher-sheet-discord-bot");
    assert_eq!(component.resource_name(), "discord-bot");
    assert_eq!(
        component.image("quay.io/kwiesmueller", "v1.2.3"),
        "quay.io/kwiesmueller/cypher-sheet-discord-bot:v1.2.3"
    );
    assert_eq!(component.image("", ""), "/cypher-sheet-discord-bot:");
    assert_eq!(
        component.environment_variables().pairs(),
        vec![pair("DISCORD_TOKEN", "SECRET-REDACTED")]
    );
    let spec = discord_bot_spec(&Options { discord_token: "t".to_owned() });
    assert_eq!(spec.name, "discord_bot");
    assert_eq!(spec.image_name, "cypher-sheet-discord-bot");
    assert_eq!(spec.resource_name, "discord-bot");
    assert_eq!(spec.environment_variables.pairs(), vec![pair("DISCORD_TOKEN", "t")]);
    let spec = component.spec();
    assert_eq!(spec.name, "discord_bot");
}

#[test]
fn options_have_their_defaults() {
    assert_eq!(Environment::default(), Environment::Test);
    assert_eq!(Environment::Test.to_string(), "Test");
    assert_eq!(Environment::Staging.to_string(), "Staging");
    assert_eq!(Environment::Prod.to_string(), "Prod");
    assert_eq!(default_image_registry(), "quay.io/kwiesmueller");
    assert_eq!(default_target_cache(), "./target_buildah");
    assert_eq!(default_image_tag(Some("abc123")), "abc123");
    assert_eq!(default_image_tag(None), "unknown");
    assert_eq!(home_dir(Some("/home/me".to_owned())), "/home/me");
    assert_eq!(home_dir(None), "/tmp/");
}

#[test]
fn labels_name_project_component_environment_and_version() {
    assert_eq!(PROJECT, "cypher-sheet");
    assert_eq!(FIELD_MANAGER, "cypher-sheet-deploy");
    assert_eq!(
        sorted(&default_labels(Environment::Staging, &bot(), Some("v7"))),
        vec![
            pair("app.kubernetes.io/component", "discord-bot"),
            pair("app.kubernetes.io/name", "cypher-sheet"),
            pair("app.kubernetes.io/version", "v7"),
            pair("environment", "Staging"),
        ]
    );
    assert_eq!(
        sorted(&default_namespace_labels(Environment::Prod, None)),
        vec![
            pair("app.kubernetes.io/name", "cypher-sheet"),
            pair("app.kubernetes.io/version", "unknown"),
            pair("environment", "Prod"),
        ]
    );
}

#[test]
fn expected_resources_are_built_from_the_component() {
    let namespace = expected_namespace(PROJECT, Environment::Test, Some("v1"));
    assert_eq!(namespace.metadata.name, Some("cypher-sheet".to_owned()));
    assert_eq!(namespace.metadata.namespace, None);
    assert_eq!(
        sorted(namespace.metadata.labels.as_ref().unwrap()),
        sorted(&default_namespace_labels(Environment::Test, Some("v1")))
    );

    let labels = sorted(&default_labels(Environment::Test, &bot(), Some("v1")));
    let deployment = expected_deployment(Environment::Test, "registry.example", &bot(), "v2", Some("v1"));
    assert_eq!(deployment.metadata.name, Some("discord-bot".to_owned()));
    assert_eq!(deployment.metadata.namespace, Some("cypher-sheet".to_owned()));
    assert_eq!(sorted(deployment.metadata.labels.as_ref().unwrap()), labels);
    assert_eq!(sorted(&deployment.match_labels), labels);
    assert_eq!(sorted(&deployment.template_labels), labels);
    assert_eq!(deployment.containers.len(), 1);
    let container = &deployment.containers[0];
    assert_eq!(container.name, "discord-bot");
    assert_eq!(
        container.image,
        Some("registry.example/cypher-sheet-discord-bot:v2".to_owned())
    );
    assert_eq!(container.env.len(), 1);
    assert_eq!(container.env[0].name, "DISCORD_TOKEN");
    assert_eq!(container.env[0].secret_key_ref.name, Some("discord-bot".to_owned()));
    assert_eq!(container.env[0].secret_key_ref.key, "DISCORD_TOKEN");

    let secret = expected_secret(Environment::Test, &bot(), Some("v1"));
    assert_eq!(secret.metadata.name, Some("discord-bot".to_owned()));
    assert_eq!(secret.metadata.namespace, Some("cypher-sheet".to_owned()));
    assert_eq!(sorted(secret.metadata.labels.as_ref().unwrap()), labels);
    assert_eq!(
        secret.data,
        vec![("DISCORD_TOKEN".to_owned(), b"SECRET-REDACTED".to_vec())]
    );
}

#[test]
fn container_file_renders() {
    let mut image = ContainerFile::new();
    image.layer("FROM scratch");
    image.layer("RUN make build");

    let expect = "FROM scratch\n\nRUN make build";

    assert_eq!(image.render(), expect)
}

#[test]
fn container_file_renders_nothing_and_one_layer() {
    assert_eq!(ContainerFile::new().render(), "");
    let mut image = ContainerFile::new();
    image.layer_string("FROM scratch".to_owned());
    assert_eq!(image.render(), "FROM scratch");
}

#[test]
fn container_file_of_a_component() {
    let expect = [
        "FROM docker.io/rust:1.68-bullseye as builder",
        "RUN apt-get update && apt-get install -y cmake && rm -rf /var/lib/apt/lists/*",
        "WORKDIR /usr/src",
        "ENV CARGO_REGISTRIES_CRATES_IO_PROTOCOL=sparse",
        "COPY proto_rs /usr/src/proto_rs",
        "\n            COPY discord_bot/Cargo.toml Cargo.lock /usr/src/discord_bot/\n            RUN \\\n                mkdir /usr/src/discord_bot/src && \\\n                echo 'fn main() {}' > /usr/src/discord_bot/src/main.rs",
        "WORKDIR /usr/src/discord_bot",
        "RUN cargo build --release --bin discord_bot",
        "COPY discord_bot/src /usr/src/discord_bot/src/",
        "RUN touch /usr/src/discord_bot/src/main.rs",
        "RUN cargo build --release --bin discord_bot",
        "RUN cp /usr/src/discord_bot/target/release/discord_bot /",
        "FROM docker.io/debian:bullseye-slim as runtime",
        "COPY --from=builder /discord_bot /",
        "CMD [\"/discord_bot\"]",
    ]
    .join("\n\n");
    assert_eq!(container_file("discord_bot"), expect);
}

#[test]
fn buildah_arguments() {
    assert_eq!(
        build_image(
            "/tmp/ContainerFile",
            "quay.io/me/bot",
            "v1",
            Some("/home/me/.cargo/registry".to_owned()),
            Some("./target_buildah".to_owned()),
        ),
        vec![
            "build",
            "--file=/tmp/ContainerFile",
            "--volume=/home/me/.cargo/registry:/usr/local/cargo/registry:O",
            "--volume=./target_buildah:/usr/src/discord_bot/target:U,Z",
            "--tag=quay.io/me/bot:v1",
            "--layers",
            ".",
        ]
    );
    assert_eq!(
        build_image("f", "i", "t", None, Some("c".to_owned())),
        vec!["build", "--file=f", "--volume=c:/usr/src/discord_bot/target:U,Z", "--tag=i:t", "--layers", "."]
    );
    assert_eq!(
        build_image("f", "i", "t", None, None),
        vec!["build", "--file=f", "--tag=i:t", "--layers", "."]
    );
    assert_eq!(push_image("quay.io/me/bot", "v1"), vec!["push", "quay.io/me/bot:v1"]);
}

#[test]
fn resource_diff_prints_kind_name_and_difference() {
    let diff = ResourceDiff::new("Secret".to_owned(), "discord-bot".to_owned(), "a != b".to_owned());
    assert_eq!(diff.to_string(), "Secret discord-bot does not match expectations:\na != b");
    let boxed = ResourceDiff::new_boxed("K".to_owned(), "n".to_owned(), "d".to_owned());
    assert_eq!(boxed.kind, "K");
    assert_eq!(boxed.name, "n");
    assert_eq!(boxed.diff, "d");
}

#[test]
fn resources_are_judged_by_their_difference() {
    assert!(check_resource_against("Namespace", "cypher-sheet".to_owned(), None).is_ok());
    let err = check_resource_against("Namespace", "cypher-sheet".to_owned(), Some("x".to_owned()))
        .unwrap_err();
    assert_eq!(err.kind, "Namespace");
    assert_eq!(err.name, "cypher-sheet");
    assert_eq!(err.diff, "x");
}

#[test]
fn deployments_are_judged_by_their_ready_pods() {
    let check = |status, min_ready| {
        check_deployment_ready_pods("Deployment", "discord-bot".to_owned(), status, min_ready)
    };
    assert!(check(Some(Some(1)), 1).is_ok());
    assert!(check(Some(Some(3)), 1).is_ok());
    assert!(check(Some(Some(0)), 0).is_ok());
    let err = check(Some(Some(0)), 1).unwrap_err();
    assert_eq!(err.kind, "Deployment");
    assert_eq!(err.name, "discord-bot");
    assert_eq!(err.diff, "not enough ready pods");
    assert_eq!(check(Some(Some(-1)), 0).unwrap_err().diff, "not enough ready pods");
    assert_eq!(check(Some(None), 1).unwrap_err().diff, "no ready pods");
    assert_eq!(check(None, 1).unwrap_err().diff, "no status");
}

#[test]
fn table_keeps_the_latest_value_under_a_name() {
    let mut table: Table<u32> = Table::new();
    assert!(table.get(&"a".to_owned()).is_none());
    table.insert("a".to_owned(), 1);
    table.insert("b".to_owned(), 2);
    table.insert("a".to_owned(), 3);
    assert_eq!(table.get(&"a".to_owned()), Some(&3));
    assert_eq!(table.get(&"b".to_owned()), Some(&2));
    assert_eq!(table.get(&"c".to_owned()), None);
    assert_eq!(table.keys(), vec!["a", "b"]);
}
