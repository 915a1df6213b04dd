//! The run-to-completion workload kind.

use crate::cluster::{outcome_view, Cluster, Submission};
use crate::component::{component_pod_spec, Component, ComponentView, RestartPolicy};
use crate::error::{WorkloadError, WorkloadErrorView};
use crate::lower::submission_view;
use crate::metadata::{
    copy_owner_chain, instance_labels, instance_metadata, InstanceIdentity, InstanceIdentityView,
    OwnerRef, OwnerRefView,
};
use crate::params::{ParamMap, ParamValueView};
use crate::resource::{
    JobResource, JobResourceView, NativeResource, PodTemplate, PodTemplateView,
};
use crate::workload_type::{apply_resource, WorkloadTypeView};
use vstd::prelude::*;

verus! {

/// How often a failed pod of a task is retried before the task is given
/// up: a small ceiling, so that a failing one-shot process does not crash
/// in a loop for ever.
pub const TASK_BACKOFF_LIMIT: i32 = 4;

/// Task represents a non-daemon process.
///
/// It is synthesized as a job.
#[derive(Debug, PartialEq, Eq)]
pub struct Task {
    /// The name that the workload goes by.
    pub name: String,
    /// The component's name: the value of the `app` label.
    pub component_name: String,
    /// The instance's name: the name of the job and of its pods' template.
    pub instance_name: String,
    /// The namespace in which the job is created.
    pub namespace: String,
    /// What the job runs.
    pub definition: Component,
    /// The parameter values that the component was resolved with.
    pub params: ParamMap,
    /// The owners of the instance, recorded on everything made for it.
    pub owner_ref: Option<Vec<OwnerRef>>,
}

/// The mathematical value of a [`Task`].
pub ghost struct TaskView {
    pub name: Seq<char>,
    pub component_name: Seq<char>,
    pub instance_name: Seq<char>,
    pub namespace: Seq<char>,
    pub definition: ComponentView,
    pub params: Map<Seq<char>, ParamValueView>,
    pub owner_ref: Option<Seq<OwnerRefView>>,
}

impl View for Task {
    type V = TaskView;

    open spec fn view(&self) -> TaskView {
        TaskView {
            name: self.name@,
            component_name: self.component_name@,
            instance_name: self.instance_name@,
            namespace: self.namespace@,
            definition: self.definition@,
            params: self.params@,
            owner_ref: self.owner_ref.deep_view(),
        }
    }
}

impl TaskView {
    /// The identity of the instance that the task runs.
    pub open spec fn identity(self) -> InstanceIdentityView {
        InstanceIdentityView {
            namespace: self.namespace,
            component_name: self.component_name,
            instance_name: self.instance_name,
            owner_ref: self.owner_ref,
        }
    }
}

/// The job of a task. The job and its pod template carry the same
/// metadata: the instance's name, its labels and its owners. A failed pod
/// is never restarted in place; the job retries with a new pod, up to the
/// retry ceiling.
pub open spec fn task_job(task: TaskView) -> JobResourceView {
    let metadata = instance_metadata(task.identity(), instance_labels(task.identity()));
    JobResourceView {
        metadata: metadata,
        backoff_limit: TASK_BACKOFF_LIMIT,
        template: PodTemplateView {
            metadata: metadata,
            spec: component_pod_spec(task.definition, RestartPolicy::Never),
        },
    }
}

impl Task {
    /// The identity of the instance that the task runs.
    pub fn identity(&self) -> (out: InstanceIdentity)
        ensures
            out@ == self@.identity(),
    {
        InstanceIdentity {
            namespace: self.namespace.clone(),
            component_name: self.component_name.clone(),
            instance_name: self.instance_name.clone(),
            owner_ref: copy_owner_chain(&self.owner_ref),
        }
    }

    /// The name of every resource made for the task: the instance's name.
    pub fn kube_name(&self) -> (out: String)
        ensures
            out@ == self@.instance_name,
    {
        self.instance_name.clone()
    }

    /// Create a Job
    pub fn to_job(&self) -> (out: JobResource)
        ensures
            out@ == task_job(self@),
    {
        let identity = self.identity();
        let labels = identity.labels();
        JobResource {
            metadata: identity.metadata(&labels),
            backoff_limit: TASK_BACKOFF_LIMIT,
            template: PodTemplate {
                metadata: identity.metadata(&labels),
                spec: self.definition.to_pod_spec_with_policy(RestartPolicy::Never),
            },
        }
    }

    /// What is submitted to create the task's job.
    pub fn submission(&self) -> (out: Result<Submission, WorkloadError>)
        ensures
            submission_view(out) == WorkloadTypeView::Task(self@).submission(),
    {
        NativeResource::RunToCompletion(self.to_job()).submission(&self.namespace)
    }

    /// Creates the task's job in a store. A job that is there already is
    /// left as it is, and that is a success too. Where the job has no
    /// document, or no request can be built for it, that is a
    /// serialization failure and nothing is created.
    pub fn add(&self, cluster: &mut Cluster) -> (out: Result<(), WorkloadError>)
        ensures
            final(cluster)@ == WorkloadTypeView::Task(self@).applied_store(old(cluster)@),
            outcome_view(out) == WorkloadTypeView::Task(self@).applied_outcome(old(cluster)@),
    {
        apply_resource(&NativeResource::RunToCompletion(self.to_job()), &self.namespace, cluster)
    }

    /// How far a task has come whose job counts `succeeded` pods that ran
    /// to completion and `failed` pods that did not.
    pub fn progress(succeeded: i32, failed: i32) -> (out: Result<TaskProgress, WorkloadError>)
        ensures
            progress_view(out) == task_progress(succeeded, failed),
    {
        if succeeded > 0 {
            Ok(TaskProgress::Complete)
        } else if failed > TASK_BACKOFF_LIMIT {
            Err(WorkloadError::RetryCeilingExhausted)
        } else {
            Ok(TaskProgress::Active)
        }
    }
}

/// How far a task has come.
#[derive(Clone, Copy, Debug, PartialEq, Eq, Structural)]
pub enum TaskProgress {
    /// The process has not yet run to completion, and may still be tried.
    Active,
    /// The process ran to completion. This is final: the task is not
    /// applied again.
    Complete,
}

/// How far a task has come: complete once a pod succeeded; given up, for
/// good, once more pods failed than the retry ceiling allows; active
/// otherwise.
pub open spec fn task_progress(succeeded: i32, failed: i32) -> Result<
    TaskProgress,
    WorkloadErrorView,
> {
    if succeeded > 0 {
        Ok(TaskProgress::Complete)
    } else if failed > TASK_BACKOFF_LIMIT {
        Err(WorkloadErrorView::RetryCeilingExhausted)
    } else {
        Ok(TaskProgress::Active)
    }
}

/// The view of a task's progress or of its failure.
pub open spec fn progress_view(outcome: Result<TaskProgress, WorkloadError>) -> Result<
    TaskProgress,
    WorkloadErrorView,
> {
    match outcome {
        Ok(progress) => Ok(progress),
        Err(error) => Err(error@),
    }
}

} // verus!
