//! The long-running workload kinds: server, singleton and worker.

use crate::cluster::{outcome_view, Cluster, Submission};
use crate::component::{component_pod_spec, Component, ComponentView, RestartPolicy};
use crate::error::WorkloadError;
use crate::lower::submission_view;
use crate::metadata::{instance_labels, instance_metadata, InstanceIdentity, InstanceIdentityView};
use crate::params::{ParamMap, ParamValueView};
use crate::resource::{
    DeploymentResource, DeploymentResourceView, NativeResource, PodTemplate, PodTemplateView,
    UpdateStrategy,
};
use crate::workload_type::{apply_resource, WorkloadTypeView};
use vstd::prelude::*;

verus! {

/// How many replicas a long-running workload gets where its component
/// declares none.
pub const DEFAULT_REPLICAS: i32 = 1;

/// The one replica of a singleton.
pub const SINGLETON_REPLICAS: i32 = 1;

/// The mathematical value of a long-running workload, whichever its kind.
pub ghost struct ServiceView {
    pub identity: InstanceIdentityView,
    pub definition: ComponentView,
    pub params: Map<Seq<char>, ParamValueView>,
}

/// The deployment of an instance with the given replica count and update
/// strategy. The deployment and its pod template carry the same metadata,
/// and the selector is the label set, so that the deployment finds the
/// pods it creates. A pod that exits is always restarted.
pub open spec fn instance_deployment(
    identity: InstanceIdentityView,
    definition: ComponentView,
    replicas: i32,
    strategy: UpdateStrategy,
) -> DeploymentResourceView {
    let labels = instance_labels(identity);
    let metadata = instance_metadata(identity, labels);
    DeploymentResourceView {
        metadata: metadata,
        replicas: replicas,
        selector: labels,
        strategy: strategy,
        template: PodTemplateView {
            metadata: metadata,
            spec: component_pod_spec(definition, RestartPolicy::Always),
        },
    }
}

/// The replica count that a component declares, or the default where it
/// declares none. A declared zero stays zero.
pub open spec fn declared_replicas(definition: ComponentView) -> i32 {
    match definition.replicas {
        Some(replicas) => replicas,
        None => DEFAULT_REPLICAS,
    }
}

/// The deployment of a server, and of a worker: as many replicas as
/// declared, replaced by a rolling update.
pub open spec fn server_deployment(service: ServiceView) -> DeploymentResourceView {
    instance_deployment(
        service.identity,
        service.definition,
        declared_replicas(service.definition),
        UpdateStrategy::RollingUpdate,
    )
}

/// The deployment of a singleton: exactly one replica, whatever is
/// declared, and never two at once, not even while it is replaced.
pub open spec fn singleton_deployment(service: ServiceView) -> DeploymentResourceView {
    instance_deployment(
        service.identity,
        service.definition,
        SINGLETON_REPLICAS,
        UpdateStrategy::Recreate,
    )
}

/// Builds the deployment of an instance.
fn build_deployment(
    identity: &InstanceIdentity,
    definition: &Component,
    replicas: i32,
    strategy: UpdateStrategy,
) -> (out: DeploymentResource)
    ensures
        out@ == instance_deployment(identity@, definition@, replicas, strategy),
{
    let labels = identity.labels();
    DeploymentResource {
        metadata: identity.metadata(&labels),
        replicas,
        strategy,
        template: PodTemplate {
            metadata: identity.metadata(&labels),
            spec: definition.to_pod_spec_with_policy(RestartPolicy::Always),
        },
        selector: labels,
    }
}

/// Server represents a long-running, replicated process that is reachable
/// from outside.
#[derive(Debug, PartialEq, Eq)]
pub struct Server {
    pub identity: InstanceIdentity,
    pub definition: Component,
    pub params: ParamMap,
}

impl View for Server {
    type V = ServiceView;

    open spec fn view(&self) -> ServiceView {
        ServiceView { identity: self.identity@, definition: self.definition@, params: self.params@ }
    }
}

impl Server {
    /// The name of every resource made for this server: the instance's
    /// name.
    pub fn kube_name(&self) -> (out: String)
        ensures
            out@ == self@.identity.instance_name,
    {
        self.identity.instance_name.clone()
    }

    /// The deployment that runs this server.
    pub fn to_deployment(&self) -> (out: DeploymentResource)
        ensures
            out@ == server_deployment(self@),
    {
        let replicas = match self.definition.replicas {
            Some(replicas) => replicas,
            None => DEFAULT_REPLICAS,
        };
        build_deployment(&self.identity, &self.definition, replicas, UpdateStrategy::RollingUpdate)
    }

    /// What is submitted to create this server's deployment.
    pub fn submission(&self) -> (out: Result<Submission, WorkloadError>)
        ensures
            submission_view(out) == WorkloadTypeView::Server(self@).submission(),
    {
        NativeResource::Replicated(self.to_deployment()).submission(&self.identity.namespace)
    }

    /// Creates this server's deployment in a store. A deployment that is
    /// there already is left as it is, and that is a success too. Where
    /// the deployment has no document, or no request can be built for it,
    /// that is a serialization failure and nothing is created.
    pub fn add(&self, cluster: &mut Cluster) -> (out: Result<(), WorkloadError>)
        ensures
            final(cluster)@ == WorkloadTypeView::Server(self@).applied_store(old(cluster)@),
            outcome_view(out) == WorkloadTypeView::Server(self@).applied_outcome(old(cluster)@),
    {
        apply_resource(
            &NativeResource::Replicated(self.to_deployment()),
            &self.identity.namespace,
            cluster,
        )
    }
}

/// Singleton represents a long-running process of which exactly one runs.
#[derive(Debug, PartialEq, Eq)]
pub struct Singleton {
    pub identity: InstanceIdentity,
    pub definition: Component,
    pub params: ParamMap,
}

impl View for Singleton {
    type V = ServiceView;

    open spec fn view(&self) -> ServiceView {
        ServiceView { identity: self.identity@, definition: self.definition@, params: self.params@ }
    }
}

impl Singleton {
    /// The name of every resource made for this singleton: the instance's
    /// name.
    pub fn kube_name(&self) -> (out: String)
        ensures
            out@ == self@.identity.instance_name,
    {
        self.identity.instance_name.clone()
    }

    /// The deployment that runs this singleton.
    pub fn to_deployment(&self) -> (out: DeploymentResource)
        ensures
            out@ == singleton_deployment(self@),
    {
        build_deployment(
            &self.identity,
            &self.definition,
            SINGLETON_REPLICAS,
            UpdateStrategy::Recreate,
        )
    }

    /// What is submitted to create this singleton's deployment.
    pub fn submission(&self) -> (out: Result<Submission, WorkloadError>)
        ensures
            submission_view(out) == WorkloadTypeView::Singleton(self@).submission(),
    {
        NativeResource::Replicated(self.to_deployment()).submission(&self.identity.namespace)
    }

    /// Creates this singleton's deployment in a store. A deployment that is
    /// there already is left as it is, and that is a success too. Where
    /// the deployment has no document, or no request can be built for it,
    /// that is a serialization failure and nothing is created.
    pub fn add(&self, cluster: &mut Cluster) -> (out: Result<(), WorkloadError>)
        ensures
            final(cluster)@ == WorkloadTypeView::Singleton(self@).applied_store(old(cluster)@),
            outcome_view(out) == WorkloadTypeView::Singleton(self@).applied_outcome(old(cluster)@),
    {
        apply_resource(
            &NativeResource::Replicated(self.to_deployment()),
            &self.identity.namespace,
            cluster,
        )
    }
}

/// Worker represents a long-running, replicated process that nothing
/// reaches from outside. It is synthesized as a server is; what sets it
/// apart is for others to act on.
#[derive(Debug, PartialEq, Eq)]
pub struct Worker {
    pub identity: InstanceIdentity,
    pub definition: Component,
    pub params: ParamMap,
}

impl View for Worker {
    type V = ServiceView;

    open spec fn view(&self) -> ServiceView {
        ServiceView { identity: self.identity@, definition: self.definition@, params: self.params@ }
    }
}

impl Worker {
    /// The name of every resource made for this worker: the instance's
    /// name.
    pub fn kube_name(&self) -> (out: String)
        ensures
            out@ == self@.identity.instance_name,
    {
        self.identity.instance_name.clone()
    }

    /// The deployment that runs this worker.
    pub fn to_deployment(&self) -> (out: DeploymentResource)
        ensures
            out@ == server_deployment(self@),
    {
        let replicas = match self.definition.replicas {
            Some(replicas) => replicas,
            None => DEFAULT_REPLICAS,
        };
        build_deployment(&self.identity, &self.definition, replicas, UpdateStrategy::RollingUpdate)
    }

    /// What is submitted to create this worker's deployment.
    pub fn submission(&self) -> (out: Result<Submission, WorkloadError>)
        ensures
            submission_view(out) == WorkloadTypeView::Worker(self@).submission(),
    {
        NativeResource::Replicated(self.to_deployment()).submission(&self.identity.namespace)
    }

    /// Creates this worker's deployment in a store. A deployment that is
    /// there already is left as it is, and that is a success too. Where
    /// the deployment has no document, or no request can be built for it,
    /// that is a serialization failure and nothing is created.
    pub fn add(&self, cluster: &mut Cluster) -> (out: Result<(), WorkloadError>)
        ensures
            final(cluster)@ == WorkloadTypeView::Worker(self@).applied_store(old(cluster)@),
            outcome_view(out) == WorkloadTypeView::Worker(self@).applied_outcome(old(cluster)@),
    {
        apply_resource(
            &NativeResource::Replicated(self.to_deployment()),
            &self.identity.namespace,
            cluster,
        )
    }
}

} // verus!
