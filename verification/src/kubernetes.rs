//! The boundary to the Kubernetes crates.
//!
//! The types of `k8s_openapi`, `serde_json`, `http` and `kube` are opaque
//! to the verifier, and nothing in this file is proved: the contracts here
//! are assumed. Each function builds one value of those crates from the
//! values given, or hands values to one of their functions. Everything
//! that decides anything stands elsewhere.

use crate::component::Limit;
use crate::metadata::{Label, LabelView, OwnerRef, OwnerRefView};
use k8s_openapi::api as k8s;
use k8s_openapi::api::apps::v1 as apps;
use k8s_openapi::api::batch::v1 as batch;
use k8s_openapi::apimachinery::pkg::api::resource::Quantity;
use k8s_openapi::apimachinery::pkg::apis::meta::v1 as meta;
use vstd::prelude::*;

verus! {

/// `k8s_openapi`'s `OwnerReference`. Opaque: it is carried, never looked into.
#[verifier::external_type_specification]
#[verifier::external_body]
pub struct ExOwnerReference(meta::OwnerReference);

/// `k8s_openapi`'s `ObjectMeta`. Opaque: it is carried, never looked into.
#[verifier::external_type_specification]
#[verifier::external_body]
pub struct ExObjectMeta(meta::ObjectMeta);

/// `k8s_openapi`'s `EnvVar`. Opaque: it is carried, never looked into.
#[verifier::external_type_specification]
#[verifier::external_body]
pub struct ExEnvVar(k8s::core::v1::EnvVar);

/// `k8s_openapi`'s `ContainerPort`. Opaque: it is carried, never looked into.
#[verifier::external_type_specification]
#[verifier::external_body]
pub struct ExContainerPort(k8s::core::v1::ContainerPort);

/// `k8s_openapi`'s `ResourceRequirements`. Opaque: it is carried, never looked into.
#[verifier::external_type_specification]
#[verifier::external_body]
pub struct ExResourceRequirements(k8s::core::v1::ResourceRequirements);

/// `k8s_openapi`'s `Container`. Opaque: it is carried, never looked into.
#[verifier::external_type_specification]
#[verifier::external_body]
pub struct ExContainer(k8s::core::v1::Container);

/// `k8s_openapi`'s `PodSpec`. Opaque: it is carried, never looked into.
#[verifier::external_type_specification]
#[verifier::external_body]
pub struct ExPodSpec(k8s::core::v1::PodSpec);

/// `k8s_openapi`'s `PodTemplateSpec`. Opaque: it is carried, never looked into.
#[verifier::external_type_specification]
#[verifier::external_body]
pub struct ExPodTemplateSpec(k8s::core::v1::PodTemplateSpec);

/// `k8s_openapi`'s `Job`, of `batch/v1`. Opaque: it is carried, never looked into.
#[verifier::external_type_specification]
#[verifier::external_body]
pub struct ExJob(batch::Job);

/// `k8s_openapi`'s `Deployment`, of `apps/v1`. Opaque: it is carried, never looked into.
#[verifier::external_type_specification]
#[verifier::external_body]
pub struct ExDeployment(apps::Deployment);

/// `serde_json`'s error. Opaque: nothing is read from it.
#[verifier::external_type_specification]
#[verifier::external_body]
pub struct ExJsonError(serde_json::Error);

/// `kube`'s error. Opaque: nothing is read from it.
#[verifier::external_type_specification]
#[verifier::external_body]
pub struct ExKubeError(kube::Error);

/// `http`'s `Request`. Opaque: it is carried, never looked into.
#[verifier::external_type_specification]
#[verifier::external_body]
#[verifier::reject_recursive_types(T)]
pub struct ExRequest<T>(http::Request<T>);

/// The sequence inside an optional vector.
pub open spec fn optional_seq<T>(list: Option<Vec<T>>) -> Option<Seq<T>> {
    match list {
        Some(items) => Some(items@),
        None => None,
    }
}

/// The `OwnerReference` whose fields are those of `owner`.
pub uninterp spec fn k8s_owner_reference(owner: OwnerRefView) -> meta::OwnerReference;

/// Builds a `k8s_openapi` `OwnerReference`, field for field. Claimed: the
/// result is determined by the fields given.
#[verifier::external_body]
pub(crate) fn make_owner_reference(owner: &OwnerRef) -> (out: meta::OwnerReference)
    ensures
        out == k8s_owner_reference(owner@),
{
    meta::OwnerReference {
        api_version: owner.api_version.clone(),
        block_owner_deletion: owner.block_owner_deletion,
        controller: owner.controller,
        kind: owner.kind.clone(),
        name: owner.name.clone(),
        uid: owner.uid.clone(),
    }
}

/// The `ObjectMeta` with the given name, with the given labels as its label
/// map, with the given owner references, and with every other field as
/// `ObjectMeta::default()` leaves it.
pub uninterp spec fn k8s_object_meta(
    name: Seq<char>,
    labels: Seq<LabelView>,
    owners: Option<Seq<meta::OwnerReference>>,
) -> meta::ObjectMeta;

/// Builds a `k8s_openapi` `ObjectMeta` over `ObjectMeta::default()`. The
/// labels are collected into the type's map, which keeps one value per key.
/// Claimed: the result is determined by the name, the labels in their
/// order, and the owner references.
#[verifier::external_body]
pub(crate) fn make_object_meta(
    name: &String,
    labels: &Vec<Label>,
    owners: Option<Vec<meta::OwnerReference>>,
) -> (out: meta::ObjectMeta)
    ensures
        out == k8s_object_meta(name@, labels.deep_view(), optional_seq(owners)),
{
    meta::ObjectMeta {
        name: Some(name.clone()),
        labels: Some(labels.iter().map(|l| (l.key.clone(), l.value.clone())).collect()),
        owner_references: owners,
        ..Default::default()
    }
}

/// The `EnvVar` that gives the variable `name` the literal value `value`.
pub uninterp spec fn k8s_env_var(name: Seq<char>, value: Seq<char>) -> k8s::core::v1::EnvVar;

/// Builds a `k8s_openapi` `EnvVar` with a literal value and no source.
/// Claimed: the result is determined by the name and the value.
#[verifier::external_body]
pub(crate) fn make_env_var(name: &String, value: &String) -> (out: k8s::core::v1::EnvVar)
    ensures
        out == k8s_env_var(name@, value@),
{
    k8s::core::v1::EnvVar { name: name.clone(), value: Some(value.clone()), value_from: None }
}

/// The `ContainerPort` with the given name, number and protocol, and with
/// every other field as `ContainerPort::default()` leaves it.
pub uninterp spec fn k8s_container_port(
    name: Seq<char>,
    container_port: i32,
    protocol: Seq<char>,
) -> k8s::core::v1::ContainerPort;

/// Builds a `k8s_openapi` `ContainerPort` over `ContainerPort::default()`.
/// Claimed: the result is determined by the name, the number and the
/// protocol.
#[verifier::external_body]
pub(crate) fn make_container_port(name: &String, container_port: i32, protocol: &String) -> (out:
    k8s::core::v1::ContainerPort)
    ensures
        out == k8s_container_port(name@, container_port, protocol@),
{
    k8s::core::v1::ContainerPort {
        container_port,
        name: Some(name.clone()),
        protocol: Some(protocol.clone()),
        ..Default::default()
    }
}

/// The `ResourceRequirements` with the given limits and no requests.
pub uninterp spec fn k8s_resource_limits(
    limits: Seq<(Seq<char>, Seq<char>)>,
) -> k8s::core::v1::ResourceRequirements;

/// Builds a `k8s_openapi` `ResourceRequirements` whose limits map each
/// resource to its quantity, and which requests nothing. Claimed: the
/// result is determined by the limits in their order.
#[verifier::external_body]
pub(crate) fn make_resource_limits(limits: &Vec<Limit>) -> (out:
    k8s::core::v1::ResourceRequirements)
    ensures
        out == k8s_resource_limits(limits.deep_view()),
{
    k8s::core::v1::ResourceRequirements {
        limits: Some(
            limits.iter().map(|l| (l.resource.clone(), Quantity(l.quantity.clone()))).collect(),
        ),
        requests: None,
    }
}

/// The `Container` with the given fields, and with every other field as
/// `Container::default()` leaves it.
pub uninterp spec fn k8s_container(
    name: Seq<char>,
    image: Seq<char>,
    command: Option<Seq<Seq<char>>>,
    args: Option<Seq<Seq<char>>>,
    env: Option<Seq<k8s::core::v1::EnvVar>>,
    ports: Option<Seq<k8s::core::v1::ContainerPort>>,
    resources: Option<k8s::core::v1::ResourceRequirements>,
) -> k8s::core::v1::Container;

/// Builds a `k8s_openapi` `Container` over `Container::default()`. Claimed:
/// the result is determined by the fields given.
#[verifier::external_body]
pub(crate) fn make_container(
    name: &String,
    image: &String,
    command: Option<Vec<String>>,
    args: Option<Vec<String>>,
    env: Option<Vec<k8s::core::v1::EnvVar>>,
    ports: Option<Vec<k8s::core::v1::ContainerPort>>,
    resources: Option<k8s::core::v1::ResourceRequirements>,
) -> (out: k8s::core::v1::Container)
    ensures
        out == k8s_container(
            name@,
            image@,
            command.deep_view(),
            args.deep_view(),
            optional_seq(env),
            optional_seq(ports),
            resources,
        ),
{
    k8s::core::v1::Container {
        name: name.clone(),
        image: Some(image.clone()),
        command,
        args,
        env,
        ports,
        resources,
        ..Default::default()
    }
}

/// The `PodSpec` with the given containers and restart policy, and with
/// every other field as `PodSpec::default()` leaves it.
pub uninterp spec fn k8s_pod_spec(
    containers: Seq<k8s::core::v1::Container>,
    restart_policy: Seq<char>,
) -> k8s::core::v1::PodSpec;

/// Builds a `k8s_openapi` `PodSpec` over `PodSpec::default()`. Claimed: the
/// result is determined by the containers and the restart policy.
#[verifier::external_body]
pub(crate) fn make_pod_spec(
    containers: Vec<k8s::core::v1::Container>,
    restart_policy: &String,
) -> (out: k8s::core::v1::PodSpec)
    ensures
        out == k8s_pod_spec(containers@, restart_policy@),
{
    k8s::core::v1::PodSpec {
        containers,
        restart_policy: Some(restart_policy.clone()),
        ..Default::default()
    }
}

/// The `PodTemplateSpec` with the given metadata and pod specification.
pub uninterp spec fn k8s_pod_template(
    metadata: meta::ObjectMeta,
    spec: k8s::core::v1::PodSpec,
) -> k8s::core::v1::PodTemplateSpec;

/// Builds a `k8s_openapi` `PodTemplateSpec` of its two parts. Claimed: the
/// result is determined by them.
#[verifier::external_body]
pub(crate) fn make_pod_template(metadata: meta::ObjectMeta, spec: k8s::core::v1::PodSpec) -> (out:
    k8s::core::v1::PodTemplateSpec)
    ensures
        out == k8s_pod_template(metadata, spec),
{
    k8s::core::v1::PodTemplateSpec { metadata: Some(metadata), spec: Some(spec) }
}

/// The `Job` with the given metadata, whose specification holds the given
/// retry limit and template, and with every other field as the `default()`
/// of `Job` and of `JobSpec` leaves it.
pub uninterp spec fn k8s_job(
    metadata: meta::ObjectMeta,
    backoff_limit: i32,
    template: k8s::core::v1::PodTemplateSpec,
) -> batch::Job;

/// Builds a `k8s_openapi` `Job` over `Job::default()`, with a `JobSpec`
/// over `JobSpec::default()`. Claimed: the result is determined by the
/// metadata, the retry limit and the template.
#[verifier::external_body]
pub(crate) fn make_job(
    metadata: meta::ObjectMeta,
    backoff_limit: i32,
    template: k8s::core::v1::PodTemplateSpec,
) -> (out: batch::Job)
    ensures
        out == k8s_job(metadata, backoff_limit, template),
{
    batch::Job {
        metadata: Some(metadata),
        spec: Some(
            batch::JobSpec { backoff_limit: Some(backoff_limit), template, ..Default::default() },
        ),
        ..Default::default()
    }
}

/// The `Deployment` with the given metadata, whose specification holds the
/// given replica count, a selector that matches the given labels, a
/// strategy of the given type, and the given template, and with every other
/// field as the types' `default()` leaves it.
pub uninterp spec fn k8s_deployment(
    metadata: meta::ObjectMeta,
    replicas: i32,
    selector: Seq<LabelView>,
    strategy: Seq<char>,
    template: k8s::core::v1::PodTemplateSpec,
) -> apps::Deployment;

/// Builds a `k8s_openapi` `Deployment` over `Deployment::default()`, with a
/// `DeploymentSpec`, a `LabelSelector` and a `DeploymentStrategy` over
/// their defaults. The selector's labels are collected into the type's
/// map, which keeps one value per key. Claimed: the result is determined by
/// the arguments.
#[verifier::external_body]
pub(crate) fn make_deployment(
    metadata: meta::ObjectMeta,
    replicas: i32,
    selector: &Vec<Label>,
    strategy: &String,
    template: k8s::core::v1::PodTemplateSpec,
) -> (out: apps::Deployment)
    ensures
        out == k8s_deployment(metadata, replicas, selector.deep_view(), strategy@, template),
{
    let match_labels = selector.iter().map(|l| (l.key.clone(), l.value.clone())).collect();
    let selector = meta::LabelSelector { match_labels: Some(match_labels), ..Default::default() };
    let strategy = apps::DeploymentStrategy { type_: Some(strategy.clone()), ..Default::default() };
    let spec = apps::DeploymentSpec {
        replicas: Some(replicas),
        selector,
        strategy: Some(strategy),
        template,
        ..Default::default()
    };
    apps::Deployment { metadata: Some(metadata), spec: Some(spec), ..Default::default() }
}

/// The JSON text that `serde_json::to_vec` gives for a `Job`, or `None`
/// where it reports an error.
pub uninterp spec fn job_json(job: batch::Job) -> Option<Seq<u8>>;

/// Calls `serde_json::to_vec` on a `Job`. Claimed: whether it succeeds, and
/// the bytes it gives, are determined by the job.
#[verifier::external_body]
pub(crate) fn encode_job(job: &batch::Job) -> (out: Result<Vec<u8>, serde_json::Error>)
    ensures
        match out {
            Ok(bytes) => job_json(*job) == Some(bytes@),
            Err(_) => job_json(*job).is_none(),
        },
{
    serde_json::to_vec(job)
}

/// The JSON text that `serde_json::to_vec` gives for a `Deployment`, or
/// `None` where it reports an error.
pub uninterp spec fn deployment_json(deployment: apps::Deployment) -> Option<Seq<u8>>;

/// Calls `serde_json::to_vec` on a `Deployment`. Claimed: whether it
/// succeeds, and the bytes it gives, are determined by the deployment.
#[verifier::external_body]
pub(crate) fn encode_deployment(deployment: &apps::Deployment) -> (out: Result<
    Vec<u8>,
    serde_json::Error,
>)
    ensures
        match out {
            Ok(bytes) => deployment_json(*deployment) == Some(bytes@),
            Err(_) => deployment_json(*deployment).is_none(),
        },
{
    serde_json::to_vec(deployment)
}

/// The request that `RawApi::create` builds, with default post parameters,
/// to create the resource with the given body in the given namespace of
/// the given part of the API; `None` where it reports an error.
pub uninterp spec fn create_request(
    group: Seq<char>,
    resource: Seq<char>,
    prefix: Seq<char>,
    namespace: Seq<char>,
    version: Seq<char>,
    body: Seq<u8>,
) -> Option<http::Request<Vec<u8>>>;

/// Calls `kube::api::RawApi::create` with `PostParams::default()` on a
/// namespaced `RawApi` of the given fields. Claimed: whether it succeeds,
/// and the request it gives, are determined by the arguments.
#[verifier::external_body]
pub(crate) fn make_create_request(
    group: &String,
    resource: &String,
    prefix: &String,
    namespace: &String,
    version: &String,
    body: Vec<u8>,
) -> (out: Result<http::Request<Vec<u8>>, kube::Error>)
    ensures
        match out {
            Ok(request) => create_request(
                group@,
                resource@,
                prefix@,
                namespace@,
                version@,
                body@,
            ) == Some(request),
            Err(_) => create_request(
                group@,
                resource@,
                prefix@,
                namespace@,
                version@,
                body@,
            ).is_none(),
        },
{
    let api = kube::api::RawApi {
        group: group.clone(),
        resource: resource.clone(),
        prefix: prefix.clone(),
        namespace: Some(namespace.clone()),
        version: version.clone(),
    };
    api.create(&kube::api::PostParams::default(), body)
}

} // verus!
