//! From the library's resources to the values of `k8s_openapi`, and on to
//! the JSON documents that are sent to the control plane.
//!
//! What a value of `k8s_openapi` holds is not visible to the verifier. Each
//! function here states which value it returns by saying from what it was
//! built: the spec functions of this file spell out, in terms of the
//! constructors of the boundary, the `k8s_openapi` value that stands for a
//! value of the library.

use crate::component::{
    ContainerSpec, ContainerSpecView, EnvEntry, EnvEntryView, Limit, PodDefinition,
    PodDefinitionView, Port, PortView, Protocol, Resources, ResourcesView, RestartPolicy,
};
use crate::assoc::keys_distinct;
use crate::cluster::{ApiTarget, ApiTargetView, Submission, SubmissionView};
use crate::error::{WorkloadError, WorkloadErrorView};
use crate::kubernetes::{
    deployment_json, encode_deployment, encode_job, job_json, k8s_container, k8s_container_port,
    k8s_deployment, k8s_env_var, k8s_job, k8s_object_meta, k8s_owner_reference, k8s_pod_spec,
    k8s_pod_template, k8s_resource_limits, make_container, make_container_port, make_deployment,
    make_env_var, make_job, make_object_meta, make_owner_reference, make_pod_spec,
    make_pod_template, make_resource_limits, optional_seq,
};
use crate::metadata::{Metadata, MetadataView, OwnerRef, OwnerRefView};
use crate::resource::{
    DeploymentResource, DeploymentResourceView, JobResource, JobResourceView, NativeResource,
    NativeResourceView, PodTemplate, PodTemplateView, UpdateStrategy,
};
use k8s_openapi::api as k8s;
use k8s_openapi::api::apps::v1 as apps;
use k8s_openapi::api::batch::v1 as batch;
use k8s_openapi::apimachinery::pkg::apis::meta::v1 as meta;
use vstd::prelude::*;

verus! {

/// The word for a restart policy.
pub open spec fn restart_policy_name(policy: RestartPolicy) -> Seq<char> {
    match policy {
        RestartPolicy::Always => "Always"@,
        RestartPolicy::OnFailure => "OnFailure"@,
        RestartPolicy::Never => "Never"@,
    }
}

/// The word for a protocol.
pub open spec fn protocol_name(protocol: Protocol) -> Seq<char> {
    match protocol {
        Protocol::Tcp => "TCP"@,
        Protocol::Udp => "UDP"@,
    }
}

/// The word for an update strategy.
pub open spec fn strategy_name(strategy: UpdateStrategy) -> Seq<char> {
    match strategy {
        UpdateStrategy::RollingUpdate => "RollingUpdate"@,
        UpdateStrategy::Recreate => "Recreate"@,
    }
}

/// A list as an optional field: an empty list is left out.
pub open spec fn unless_empty<T>(list: Seq<T>) -> Option<Seq<T>> {
    if list.len() == 0 {
        None
    } else {
        Some(list)
    }
}

/// The limits that a resources entry sets: first on `cpu`, then on
/// `memory`, each only where one is given.
pub open spec fn resource_limits(resources: ResourcesView) -> Seq<(Seq<char>, Seq<char>)> {
    let cpu = match resources.cpu {
        Some(quantity) => seq![("cpu"@, quantity)],
        None => seq![],
    };
    let memory = match resources.memory {
        Some(quantity) => seq![("memory"@, quantity)],
        None => seq![],
    };
    cpu + memory
}

/// The limits of a resources entry name no resource twice, so the map that
/// holds them holds each of them.
pub proof fn lemma_resource_limits_distinct(resources: ResourcesView)
    ensures
        keys_distinct(resource_limits(resources)),
{
    reveal_strlit("cpu");
    reveal_strlit("memory");
    assert("cpu"@.len() != "memory"@.len());
}

/// The `k8s_openapi` value for a chain of owner references.
pub open spec fn lowered_owner_chain(chain: Option<Seq<OwnerRefView>>) -> Option<
    Seq<meta::OwnerReference>,
> {
    match chain {
        Some(owners) => Some(owners.map_values(|owner: OwnerRefView| k8s_owner_reference(owner))),
        None => None,
    }
}

/// The `k8s_openapi` value for a resource's metadata.
pub open spec fn lowered_metadata(metadata: MetadataView) -> meta::ObjectMeta {
    k8s_object_meta(metadata.name, metadata.labels, lowered_owner_chain(metadata.owner_references))
}

/// The `k8s_openapi` value for an environment entry.
pub open spec fn lowered_env_entry(entry: EnvEntryView) -> k8s::core::v1::EnvVar {
    k8s_env_var(entry.name, entry.value)
}

/// The `k8s_openapi` value for a port.
pub open spec fn lowered_port(port: PortView) -> k8s::core::v1::ContainerPort {
    k8s_container_port(port.name, port.container_port, protocol_name(port.protocol))
}

/// The `k8s_openapi` value for a resources entry: absent where it sets no limit.
pub open spec fn lowered_resources(resources: ResourcesView) -> Option<
    k8s::core::v1::ResourceRequirements,
> {
    if resource_limits(resources).len() == 0 {
        None
    } else {
        Some(k8s_resource_limits(resource_limits(resources)))
    }
}

/// The `k8s_openapi` value for a container. An empty command, argument list,
/// environment or port list is left out.
pub open spec fn lowered_container(container: ContainerSpecView) -> k8s::core::v1::Container {
    k8s_container(
        container.name,
        container.image,
        unless_empty(container.command),
        unless_empty(container.args),
        unless_empty(container.env.map_values(|entry: EnvEntryView| lowered_env_entry(entry))),
        unless_empty(container.ports.map_values(|port: PortView| lowered_port(port))),
        lowered_resources(container.resources),
    )
}

/// The `k8s_openapi` value for a pod.
pub open spec fn lowered_pod(pod: PodDefinitionView) -> k8s::core::v1::PodSpec {
    k8s_pod_spec(
        pod.containers.map_values(|container: ContainerSpecView| lowered_container(container)),
        restart_policy_name(pod.restart_policy),
    )
}

/// The `k8s_openapi` value for a pod template.
pub open spec fn lowered_template(template: PodTemplateView) -> k8s::core::v1::PodTemplateSpec {
    k8s_pod_template(lowered_metadata(template.metadata), lowered_pod(template.spec))
}

/// The `k8s_openapi` value for a run-to-completion resource.
pub open spec fn lowered_job(job: JobResourceView) -> batch::Job {
    k8s_job(lowered_metadata(job.metadata), job.backoff_limit, lowered_template(job.template))
}

/// The `k8s_openapi` value for a replicated resource.
pub open spec fn lowered_deployment(deployment: DeploymentResourceView) -> apps::Deployment {
    k8s_deployment(
        lowered_metadata(deployment.metadata),
        deployment.replicas,
        deployment.selector,
        strategy_name(deployment.strategy),
        lowered_template(deployment.template),
    )
}

/// The JSON document of a resource, or `None` where it has none.
pub open spec fn resource_document(resource: NativeResourceView) -> Option<Seq<u8>> {
    match resource {
        NativeResourceView::RunToCompletion(job) => job_json(lowered_job(job)),
        NativeResourceView::Replicated(deployment) => deployment_json(
            lowered_deployment(deployment),
        ),
    }
}

impl RestartPolicy {
    /// The word for this policy.
    pub fn name(&self) -> (out: String)
        ensures
            out@ == restart_policy_name(*self),
    {
        match self {
            RestartPolicy::Always => String::from_str("Always"),
            RestartPolicy::OnFailure => String::from_str("OnFailure"),
            RestartPolicy::Never => String::from_str("Never"),
        }
    }
}

impl Protocol {
    /// The word for this protocol.
    pub fn name(&self) -> (out: String)
        ensures
            out@ == protocol_name(*self),
    {
        match self {
            Protocol::Tcp => String::from_str("TCP"),
            Protocol::Udp => String::from_str("UDP"),
        }
    }
}

impl UpdateStrategy {
    /// The word for this strategy.
    pub fn name(&self) -> (out: String)
        ensures
            out@ == strategy_name(*self),
    {
        match self {
            UpdateStrategy::RollingUpdate => String::from_str("RollingUpdate"),
            UpdateStrategy::Recreate => String::from_str("Recreate"),
        }
    }
}

impl Resources {
    /// The limits that these resources set, in the order `cpu`, `memory`.
    pub fn limits(&self) -> (out: Vec<Limit>)
        ensures
            out.deep_view() == resource_limits(self@),
            keys_distinct(out.deep_view()),
    {
        let mut out: Vec<Limit> = Vec::new();
        if let Some(quantity) = &self.cpu {
            out.push(Limit { resource: String::from_str("cpu"), quantity: quantity.clone() });
        }
        if let Some(quantity) = &self.memory {
            out.push(Limit { resource: String::from_str("memory"), quantity: quantity.clone() });
        }
        assert(out.deep_view() =~= resource_limits(self@));
        proof {
            lemma_resource_limits_distinct(self@);
        }
        out
    }
}

/// A copy of a list of strings as an optional field.
fn strings_unless_empty(list: &Vec<String>) -> (out: Option<Vec<String>>)
    ensures
        out.deep_view() == unless_empty(list.deep_view()),
{
    if list.len() == 0 {
        None
    } else {
        let copy = list.clone();
        assert(copy.deep_view() =~= list.deep_view());
        Some(copy)
    }
}

fn lower_owner_chain(chain: &Option<Vec<OwnerRef>>) -> (out: Option<Vec<meta::OwnerReference>>)
    ensures
        optional_seq(out) == lowered_owner_chain(chain.deep_view()),
{
    match chain {
        None => None,
        Some(owners) => {
            let mut out: Vec<meta::OwnerReference> = Vec::new();
            let mut i: usize = 0;
            while i < owners.len()
                invariant
                    i <= owners.len(),
                    out.len() == i,
                    forall|j: int| 0 <= j < i ==> out[j] == k8s_owner_reference(owners[j]@),
                decreases owners.len() - i,
            {
                out.push(make_owner_reference(&owners[i]));
                i = i + 1;
            }
            assert(out@ =~= owners.deep_view().map_values(
                |owner: OwnerRefView| k8s_owner_reference(owner),
            ));
            Some(out)
        },
    }
}

fn lower_env(env: &Vec<EnvEntry>) -> (out: Option<Vec<k8s::core::v1::EnvVar>>)
    ensures
        optional_seq(out) == unless_empty(
            env.deep_view().map_values(|entry: EnvEntryView| lowered_env_entry(entry)),
        ),
{
    if env.len() == 0 {
        return None;
    }
    let mut out: Vec<k8s::core::v1::EnvVar> = Vec::new();
    let mut i: usize = 0;
    while i < env.len()
        invariant
            i <= env.len(),
            out.len() == i,
            forall|j: int| 0 <= j < i ==> out[j] == lowered_env_entry(env[j]@),
        decreases env.len() - i,
    {
        out.push(make_env_var(&env[i].name, &env[i].value));
        i = i + 1;
    }
    assert(out@ =~= env.deep_view().map_values(|entry: EnvEntryView| lowered_env_entry(entry)));
    Some(out)
}

fn lower_ports(ports: &Vec<Port>) -> (out: Option<Vec<k8s::core::v1::ContainerPort>>)
    ensures
        optional_seq(out) == unless_empty(
            ports.deep_view().map_values(|port: PortView| lowered_port(port)),
        ),
{
    if ports.len() == 0 {
        return None;
    }
    let mut out: Vec<k8s::core::v1::ContainerPort> = Vec::new();
    let mut i: usize = 0;
    while i < ports.len()
        invariant
            i <= ports.len(),
            out.len() == i,
            forall|j: int| 0 <= j < i ==> out[j] == lowered_port(ports[j]@),
        decreases ports.len() - i,
    {
        let protocol = ports[i].protocol.name();
        out.push(make_container_port(&ports[i].name, ports[i].container_port, &protocol));
        i = i + 1;
    }
    assert(out@ =~= ports.deep_view().map_values(|port: PortView| lowered_port(port)));
    Some(out)
}

fn lower_resources(resources: &Resources) -> (out: Option<
    k8s::core::v1::ResourceRequirements,
>)
    ensures
        out == lowered_resources(resources@),
{
    let limits = resources.limits();
    if limits.len() == 0 {
        None
    } else {
        Some(make_resource_limits(&limits))
    }
}

impl Metadata {
    /// This metadata as a value of `k8s_openapi`.
    pub fn lower(&self) -> (out: meta::ObjectMeta)
        ensures
            out == lowered_metadata(self@),
    {
        make_object_meta(&self.name, &self.labels, lower_owner_chain(&self.owner_references))
    }
}

impl ContainerSpec {
    /// This container as a value of `k8s_openapi`.
    pub fn lower(&self) -> (out: k8s::core::v1::Container)
        ensures
            out == lowered_container(self@),
    {
        make_container(
            &self.name,
            &self.image,
            strings_unless_empty(&self.command),
            strings_unless_empty(&self.args),
            lower_env(&self.env),
            lower_ports(&self.ports),
            lower_resources(&self.resources),
        )
    }
}

impl PodDefinition {
    /// This pod as a value of `k8s_openapi`.
    pub fn lower(&self) -> (out: k8s::core::v1::PodSpec)
        ensures
            out == lowered_pod(self@),
    {
        let mut containers: Vec<k8s::core::v1::Container> = Vec::new();
        let mut i: usize = 0;
        while i < self.containers.len()
            invariant
                i <= self.containers.len(),
                containers.len() == i,
                forall|j: int|
                    0 <= j < i ==> containers[j] == lowered_container(self.containers[j]@),
            decreases self.containers.len() - i,
        {
            containers.push(self.containers[i].lower());
            i = i + 1;
        }
        assert(containers@ =~= self.containers.deep_view().map_values(
            |container: ContainerSpecView| lowered_container(container),
        ));
        let policy = self.restart_policy.name();
        make_pod_spec(containers, &policy)
    }
}

impl PodTemplate {
    /// This template as a value of `k8s_openapi`.
    pub fn lower(&self) -> (out: k8s::core::v1::PodTemplateSpec)
        ensures
            out == lowered_template(self@),
    {
        make_pod_template(self.metadata.lower(), self.spec.lower())
    }
}

impl JobResource {
    /// This resource as a `Job` of `k8s_openapi`.
    pub fn lower(&self) -> (out: batch::Job)
        ensures
            out == lowered_job(self@),
    {
        make_job(self.metadata.lower(), self.backoff_limit, self.template.lower())
    }
}

impl DeploymentResource {
    /// This resource as a `Deployment` of `k8s_openapi`.
    pub fn lower(&self) -> (out: apps::Deployment)
        ensures
            out == lowered_deployment(self@),
    {
        let strategy = self.strategy.name();
        make_deployment(
            self.metadata.lower(),
            self.replicas,
            &self.selector,
            &strategy,
            self.template.lower(),
        )
    }
}

/// What an answer of the encoder means: the bytes are the document, and
/// an error, whatever it says, is a serialization failure.
pub fn document_of(encoded: Result<Vec<u8>, serde_json::Error>) -> (out: Result<
    Vec<u8>,
    WorkloadError,
>)
    ensures
        match encoded {
            Ok(bytes) => out matches Ok(document) && document@ == bytes@,
            Err(_) => out matches Err(error) && error@ == WorkloadErrorView::SerializationFailure,
        },
{
    match encoded {
        Ok(bytes) => Ok(bytes),
        Err(_) => Err(WorkloadError::SerializationFailure),
    }
}

impl NativeResource {
    /// Hands this resource, as a value of `k8s_openapi`, to the JSON
    /// encoder.
    pub fn encode(&self) -> (out: Result<Vec<u8>, serde_json::Error>)
        ensures
            match out {
                Ok(bytes) => resource_document(self@) == Some(bytes@),
                Err(_) => resource_document(self@).is_none(),
            },
    {
        match self {
            NativeResource::RunToCompletion(job) => encode_job(&job.lower()),
            NativeResource::Replicated(deployment) => encode_deployment(&deployment.lower()),
        }
    }

    /// The JSON document of this resource, as it is sent to the control
    /// plane. Fails with `SerializationFailure` exactly where the encoder
    /// reports an error.
    pub fn to_json(&self) -> (out: Result<Vec<u8>, WorkloadError>)
        ensures
            match out {
                Ok(bytes) => resource_document(self@) == Some(bytes@),
                Err(error) => error@ == WorkloadErrorView::SerializationFailure
                    && resource_document(self@).is_none(),
            },
    {
        document_of(self.encode())
    }
}

/// Where a resource of this shape is created in a namespace: jobs under
/// `batch/v1`, deployments under `apps/v1`, both below `apis`.
pub open spec fn resource_target(
    resource: NativeResourceView,
    namespace: Seq<char>,
) -> ApiTargetView {
    match resource {
        NativeResourceView::RunToCompletion(_) => ApiTargetView {
            group: "batch"@,
            version: "v1"@,
            resource: "jobs"@,
            prefix: "apis"@,
            namespace: namespace,
        },
        NativeResourceView::Replicated(_) => ApiTargetView {
            group: "apps"@,
            version: "v1"@,
            resource: "deployments"@,
            prefix: "apis"@,
            namespace: namespace,
        },
    }
}

/// What is submitted to create a resource in a namespace: its document,
/// under its own name, at the target of its shape. Where the resource has
/// no document, a serialization failure.
pub open spec fn resource_submission(resource: NativeResourceView, namespace: Seq<char>) -> Result<
    SubmissionView,
    WorkloadErrorView,
> {
    match resource_document(resource) {
        Some(body) => Ok(
            SubmissionView {
                target: resource_target(resource, namespace),
                name: resource.metadata().name,
                body: body,
            },
        ),
        None => Err(WorkloadErrorView::SerializationFailure),
    }
}

/// The view of a submission or of the failure to make one.
pub open spec fn submission_view(outcome: Result<Submission, WorkloadError>) -> Result<
    SubmissionView,
    WorkloadErrorView,
> {
    match outcome {
        Ok(submission) => Ok(submission@),
        Err(error) => Err(error@),
    }
}

impl NativeResource {
    /// Where this resource is created in `namespace`.
    pub fn target(&self, namespace: &String) -> (out: ApiTarget)
        ensures
            out@ == resource_target(self@, namespace@),
    {
        match self {
            NativeResource::RunToCompletion(_) => ApiTarget {
                group: String::from_str("batch"),
                version: String::from_str("v1"),
                resource: String::from_str("jobs"),
                prefix: String::from_str("apis"),
                namespace: namespace.clone(),
            },
            NativeResource::Replicated(_) => ApiTarget {
                group: String::from_str("apps"),
                version: String::from_str("v1"),
                resource: String::from_str("deployments"),
                prefix: String::from_str("apis"),
                namespace: namespace.clone(),
            },
        }
    }

    /// What is submitted to create this resource in `namespace`, given its
    /// document: the document, under the resource's name, at the target of
    /// its shape.
    pub fn submission_of(&self, namespace: &String, document: Vec<u8>) -> (out: Submission)
        ensures
            out@ == (SubmissionView {
                target: resource_target(self@, namespace@),
                name: self@.metadata().name,
                body: document@,
            }),
    {
        Submission { target: self.target(namespace), name: self.name().clone(), body: document }
    }

    /// What is submitted to create this resource in `namespace`.
    pub fn submission(&self, namespace: &String) -> (out: Result<Submission, WorkloadError>)
        ensures
            submission_view(out) == resource_submission(self@, namespace@),
    {
        match self.to_json() {
            Ok(document) => Ok(self.submission_of(namespace, document)),
            Err(error) => Err(error),
        }
    }
}

} // verus!
