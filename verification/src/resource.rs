//! The native resources that the workload kinds synthesize.

use crate::component::{PodDefinition, PodDefinitionView};
use crate::metadata::{Label, LabelView, Metadata, MetadataView};
use vstd::prelude::*;

verus! {

/// The pod template that a resource stamps its pods from.
#[derive(Debug, PartialEq, Eq)]
pub struct PodTemplate {
    pub metadata: Metadata,
    pub spec: PodDefinition,
}

/// The mathematical value of a [`PodTemplate`].
pub ghost struct PodTemplateView {
    pub metadata: MetadataView,
    pub spec: PodDefinitionView,
}

impl View for PodTemplate {
    type V = PodTemplateView;

    open spec fn view(&self) -> PodTemplateView {
        PodTemplateView { metadata: self.metadata@, spec: self.spec@ }
    }
}

/// A run-to-completion resource: what it runs, and how often it retries a
/// failed pod before it gives up.
#[derive(Debug, PartialEq, Eq)]
pub struct JobResource {
    pub metadata: Metadata,
    pub backoff_limit: i32,
    pub template: PodTemplate,
}

/// The mathematical value of a [`JobResource`].
pub ghost struct JobResourceView {
    pub metadata: MetadataView,
    pub backoff_limit: i32,
    pub template: PodTemplateView,
}

impl View for JobResource {
    type V = JobResourceView;

    open spec fn view(&self) -> JobResourceView {
        JobResourceView {
            metadata: self.metadata@,
            backoff_limit: self.backoff_limit,
            template: self.template@,
        }
    }
}

/// How a replicated resource replaces its pods when its template changes.
#[derive(Clone, Copy, Debug, PartialEq, Eq, Structural)]
pub enum UpdateStrategy {
    /// New pods come up while old ones still run.
    RollingUpdate,
    /// Every old pod is gone before a new one starts.
    Recreate,
}

/// A replicated, self-healing resource: how many pods it keeps running,
/// which pods are its own, and what they run.
#[derive(Debug, PartialEq, Eq)]
pub struct DeploymentResource {
    pub metadata: Metadata,
    pub replicas: i32,
    /// The labels by which the deployment finds its pods. What synthesis
    /// puts here holds no key twice.
    pub selector: Vec<Label>,
    pub strategy: UpdateStrategy,
    pub template: PodTemplate,
}

/// The mathematical value of a [`DeploymentResource`].
pub ghost struct DeploymentResourceView {
    pub metadata: MetadataView,
    pub replicas: i32,
    pub selector: Seq<LabelView>,
    pub strategy: UpdateStrategy,
    pub template: PodTemplateView,
}

impl View for DeploymentResource {
    type V = DeploymentResourceView;

    open spec fn view(&self) -> DeploymentResourceView {
        DeploymentResourceView {
            metadata: self.metadata@,
            replicas: self.replicas,
            selector: self.selector.deep_view(),
            strategy: self.strategy,
            template: self.template@,
        }
    }
}

/// A synthesized resource, of whichever shape its workload kind requires.
#[derive(Debug, PartialEq, Eq)]
pub enum NativeResource {
    RunToCompletion(JobResource),
    Replicated(DeploymentResource),
}

/// The mathematical value of a [`NativeResource`].
pub ghost enum NativeResourceView {
    RunToCompletion(JobResourceView),
    Replicated(DeploymentResourceView),
}

impl View for NativeResource {
    type V = NativeResourceView;

    open spec fn view(&self) -> NativeResourceView {
        match self {
            NativeResource::RunToCompletion(job) => NativeResourceView::RunToCompletion(job@),
            NativeResource::Replicated(deployment) => NativeResourceView::Replicated(deployment@),
        }
    }
}

impl NativeResourceView {
    /// The metadata on the resource itself.
    pub open spec fn metadata(self) -> MetadataView {
        match self {
            NativeResourceView::RunToCompletion(job) => job.metadata,
            NativeResourceView::Replicated(deployment) => deployment.metadata,
        }
    }

    /// The pod template inside the resource.
    pub open spec fn template(self) -> PodTemplateView {
        match self {
            NativeResourceView::RunToCompletion(job) => job.template,
            NativeResourceView::Replicated(deployment) => deployment.template,
        }
    }
}

impl NativeResource {
    /// The name under which the resource is created.
    pub fn name(&self) -> (out: &String)
        ensures
            out@ == self@.metadata().name,
    {
        match self {
            NativeResource::RunToCompletion(job) => &job.metadata.name,
            NativeResource::Replicated(deployment) => &deployment.metadata.name,
        }
    }
}

} // verus!
