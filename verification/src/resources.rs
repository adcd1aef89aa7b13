//! The resources that the deployment tool expects in the cluster.
use vstd::prelude::*;
use vstd::string::StrSliceExecFns;
use vstd::utf8::encode_utf8;
use crate::components::{
    component_image_name,
    component_resource_name,
    component_rows,
    image_reference,
    Component,
};
use crate::options::{default_image_tag, environment_name, version_or_unknown, Environment};
use crate::table::Table;

verus! {

/// The name of the project, which is also the namespace of its resources.
pub const PROJECT: &'static str = "cypher-sheet";

/// The name under which the tool manages the fields of its resources.
pub const FIELD_MANAGER: &'static str = "cypher-sheet-deploy";

/// The name, the namespace and the labels of a resource.
pub struct ObjectMeta {
    pub name: Option<String>,
    pub namespace: Option<String>,
    pub labels: Option<Table<String>>,
}

/// A namespace.
pub struct Namespace {
    pub metadata: ObjectMeta,
}

/// Where the value of an environment variable is kept: the name of a
/// secret and the key in it.
pub struct SecretKeySelector {
    pub name: Option<String>,
    pub key: String,
}

/// An environment variable of a container.
pub struct EnvVar {
    pub name: String,
    pub secret_key_ref: SecretKeySelector,
}

/// A container of a deployment.
pub struct Container {
    pub name: String,
    pub image: Option<String>,
    pub env: Vec<EnvVar>,
}

/// A deployment.
pub struct Deployment {
    pub metadata: ObjectMeta,
    pub match_labels: Table<String>,
    pub template_labels: Table<String>,
    pub containers: Vec<Container>,
}

/// A secret: its data are the bytes under each key.
pub struct Secret {
    pub metadata: ObjectMeta,
    pub data: Vec<(String, Vec<u8>)>,
}

/// The labels of every resource of a component.
pub open spec fn labels_of(env: Environment, resource_name: Seq<char>, version: Seq<char>) -> Map<
    Seq<char>,
    Seq<char>,
> {
    Map::empty().insert("app.kubernetes.io/name"@, "cypher-sheet"@).insert(
        "app.kubernetes.io/component"@,
        resource_name,
    ).insert("environment"@, environment_name(env)).insert("app.kubernetes.io/version"@, version)
}

/// The labels of the namespace.
pub open spec fn namespace_labels_of(env: Environment, version: Seq<char>) -> Map<
    Seq<char>,
    Seq<char>,
> {
    Map::empty().insert("app.kubernetes.io/name"@, "cypher-sheet"@).insert(
        "environment"@,
        environment_name(env),
    ).insert("app.kubernetes.io/version"@, version)
}

/// Whether `meta` holds the given name, namespace and labels.
pub open spec fn describes(
    meta: ObjectMeta,
    name: Seq<char>,
    namespace: Option<Seq<char>>,
    labels: Map<Seq<char>, Seq<char>>,
) -> bool {
    &&& meta.name matches Some(n) && n@ == name
    &&& match namespace {
        Some(expected) => meta.namespace matches Some(found) && found@ == expected,
        None => meta.namespace is None,
    }
    &&& meta.labels matches Some(found) && found.texts() == labels
}

/// Whether `var` takes its value from the key `name` of the secret
/// `secret`.
pub open spec fn from_secret(var: EnvVar, name: Seq<char>, secret: Seq<char>) -> bool {
    &&& var.name@ == name
    &&& var.secret_key_ref.name matches Some(found) && found@ == secret
    &&& var.secret_key_ref.key@ == name
}

/// The labels of every resource of `component` in the environment `env`,
/// built from the version `version`.
pub fn default_labels(env: Environment, component: &Component, version: Option<&str>) -> (r: Table<
    String,
>)
    ensures
        r.texts() == labels_of(
            env,
            component_resource_name(*component),
            version_or_unknown(version),
        ),
{
    let mut labels: Table<String> = Table::empty();
    labels.put("app.kubernetes.io/name".to_owned(), PROJECT.to_owned());
    labels.put("app.kubernetes.io/component".to_owned(), component.resource_name().to_owned());
    labels.put("environment".to_owned(), env.to_string());
    labels.put("app.kubernetes.io/version".to_owned(), default_image_tag(version).to_owned());
    labels
}

/// The labels of the namespace in the environment `env`.
pub fn default_namespace_labels(env: Environment, version: Option<&str>) -> (r: Table<String>)
    ensures
        r.texts() == namespace_labels_of(env, version_or_unknown(version)),
{
    let mut labels: Table<String> = Table::empty();
    labels.put("app.kubernetes.io/name".to_owned(), PROJECT.to_owned());
    labels.put("environment".to_owned(), env.to_string());
    labels.put("app.kubernetes.io/version".to_owned(), default_image_tag(version).to_owned());
    labels
}

/// The namespace `name` as it is expected in the environment `env`.
pub fn expected_namespace(name: &str, env: Environment, version: Option<&str>) -> (r: Namespace)
    ensures
        describes(r.metadata, name@, None, namespace_labels_of(env, version_or_unknown(version))),
{
    let labels = default_namespace_labels(env, version);
    Namespace {
        metadata: ObjectMeta { name: Some(name.to_owned()), namespace: None, labels: Some(labels) },
    }
}

/// The deployment of `component` as it is expected: one container that
/// runs the image of the component with the tag `tag`, each of its
/// environment variables taken from the secret of the component.
pub fn expected_deployment(
    env: Environment,
    image_registry: &str,
    component: &Component,
    tag: &str,
    version: Option<&str>,
) -> (r: Deployment)
    ensures
        describes(
            r.metadata,
            component_resource_name(*component),
            Some("cypher-sheet"@),
            labels_of(env, component_resource_name(*component), version_or_unknown(version)),
        ),
        r.match_labels.texts() == labels_of(
            env,
            component_resource_name(*component),
            version_or_unknown(version),
        ),
        r.template_labels.texts() == r.match_labels.texts(),
        r.containers@.len() == 1,
        r.containers@[0].name@ == component_resource_name(*component),
        r.containers@[0].image matches Some(image) && image@ == image_reference(
            image_registry@,
            component_image_name(*component),
            tag@,
        ),
        r.containers@[0].env@.len() == component_rows(*component).len(),
        forall|i: int|
            0 <= i < component_rows(*component).len() ==> from_secret(
                #[trigger] r.containers@[0].env@[i],
                component_rows(*component)[i].0,
                component_resource_name(*component),
            ),
{
    let variables = component.environment_variables().pairs();
    let mut environment_variables: Vec<EnvVar> = Vec::new();
    let mut i: usize = 0;
    while i < variables.len()
        invariant
            i <= variables@.len(),
            variables@.len() == component_rows(*component).len(),
            forall|j: int|
                0 <= j < variables@.len() ==> ((#[trigger] variables@[j]).0@, variables@[j].1@)
                    == component_rows(*component)[j],
            environment_variables@.len() == i,
            forall|j: int|
                0 <= j < i ==> from_secret(
                    #[trigger] environment_variables@[j],
                    component_rows(*component)[j].0,
                    component_resource_name(*component),
                ),
        decreases variables@.len() - i,
    {
        assert((variables@[i as int].0@, variables@[i as int].1@) == component_rows(
            *component,
        )[i as int]);
        environment_variables.push(
            EnvVar {
                name: variables[i].0.clone(),
                secret_key_ref: SecretKeySelector {
                    name: Some(component.resource_name().to_owned()),
                    key: variables[i].0.clone(),
                },
            },
        );
        i += 1;
    }
    let mut containers: Vec<Container> = Vec::new();
    containers.push(
        Container {
            name: component.resource_name().to_owned(),
            image: Some(component.image(image_registry, tag)),
            env: environment_variables,
        },
    );
    Deployment {
        metadata: ObjectMeta {
            name: Some(component.resource_name().to_owned()),
            namespace: Some(PROJECT.to_owned()),
            labels: Some(default_labels(env, component, version)),
        },
        match_labels: default_labels(env, component, version),
        template_labels: default_labels(env, component, version),
        containers,
    }
}

/// The secret of `component` as it is expected: the value of each of its
/// environment variables, as bytes, under the name of the variable.
pub fn expected_secret(env: Environment, component: &Component, version: Option<&str>) -> (r:
    Secret)
    ensures
        describes(
            r.metadata,
            component_resource_name(*component),
            Some("cypher-sheet"@),
            labels_of(env, component_resource_name(*component), version_or_unknown(version)),
        ),
        r.data@.len() == component_rows(*component).len(),
        forall|i: int|
            0 <= i < component_rows(*component).len() ==> (#[trigger] r.data@[i]).0@
                == component_rows(*component)[i].0 && r.data@[i].1@ == encode_utf8(
                component_rows(*component)[i].1,
            ),
{
    let variables = component.environment_variables().pairs();
    let mut data: Vec<(String, Vec<u8>)> = Vec::new();
    let mut i: usize = 0;
    while i < variables.len()
        invariant
            i <= variables@.len(),
            variables@.len() == component_rows(*component).len(),
            forall|j: int|
                0 <= j < variables@.len() ==> ((#[trigger] variables@[j]).0@, variables@[j].1@)
                    == component_rows(*component)[j],
            data@.len() == i,
            forall|j: int|
                0 <= j < i ==> (#[trigger] data@[j]).0@ == component_rows(*component)[j].0
                    && data@[j].1@ == encode_utf8(component_rows(*component)[j].1),
        decreases variables@.len() - i,
    {
        assert((variables@[i as int].0@, variables@[i as int].1@) == component_rows(
            *component,
        )[i as int]);
        data.push((variables[i].0.clone(), variables[i].1.as_str().as_bytes_vec()));
        i += 1;
    }
    Secret {
        metadata: ObjectMeta {
            name: Some(component.resource_name().to_owned()),
            namespace: Some(PROJECT.to_owned()),
            labels: Some(default_labels(env, component, version)),
        },
        data,
    }
}

} // verus!
