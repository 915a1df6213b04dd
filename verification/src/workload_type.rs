//! The workload kinds, one strategy each, and the dispatch over them.

pub mod service;
pub mod task;

use crate::cluster::{
    outcome_view, reply_to_create, settled, store_after_create, submission_request, Cluster,
    ResourceKey, Submission, SubmissionView,
};
use crate::component::{Component, ComponentView};
use crate::error::{WorkloadError, WorkloadErrorView};
use crate::lower::{resource_submission, submission_view};
use crate::metadata::{InstanceIdentity, InstanceIdentityView};
use crate::params::{ParamMap, ParamValueView};
use crate::resource::{NativeResource, NativeResourceView};
use crate::workload_type::service::{
    server_deployment, singleton_deployment, Server, ServiceView, Singleton, Worker,
};
use crate::workload_type::task::{task_job, Task, TaskView};
use vstd::prelude::*;

verus! {

/// The execution styles that a component can declare.
#[derive(Clone, Copy, Debug, PartialEq, Eq, Structural)]
pub enum WorkloadKind {
    /// Runs to completion.
    Task,
    /// Runs for ever, replicated, reachable from outside.
    Server,
    /// Runs for ever, exactly once.
    Singleton,
    /// Runs for ever, replicated, not reachable from outside.
    Worker,
}

/// The kind that a declared word stands for, if it stands for one.
pub open spec fn kind_of(declared: Seq<char>) -> Option<WorkloadKind> {
    if declared == "Task"@ {
        Some(WorkloadKind::Task)
    } else if declared == "Server"@ {
        Some(WorkloadKind::Server)
    } else if declared == "Singleton"@ {
        Some(WorkloadKind::Singleton)
    } else if declared == "Worker"@ {
        Some(WorkloadKind::Worker)
    } else {
        None
    }
}

impl WorkloadKind {
    /// The kind that `declared` stands for, if it stands for one.
    pub fn parse(declared: &String) -> (out: Option<WorkloadKind>)
        ensures
            out == kind_of(declared@),
    {
        if *declared == String::from_str("Task") {
            Some(WorkloadKind::Task)
        } else if *declared == String::from_str("Server") {
            Some(WorkloadKind::Server)
        } else if *declared == String::from_str("Singleton") {
            Some(WorkloadKind::Singleton)
        } else if *declared == String::from_str("Worker") {
            Some(WorkloadKind::Worker)
        } else {
            None
        }
    }
}

/// A workload of one of the supported kinds, bound to its component and to
/// the instance that it runs.
#[derive(Debug, PartialEq, Eq)]
pub enum WorkloadType {
    Task(Task),
    Server(Server),
    Singleton(Singleton),
    Worker(Worker),
}

/// The mathematical value of a [`WorkloadType`].
pub ghost enum WorkloadTypeView {
    Task(TaskView),
    Server(ServiceView),
    Singleton(ServiceView),
    Worker(ServiceView),
}

impl View for WorkloadType {
    type V = WorkloadTypeView;

    open spec fn view(&self) -> WorkloadTypeView {
        match self {
            WorkloadType::Task(task) => WorkloadTypeView::Task(task@),
            WorkloadType::Server(server) => WorkloadTypeView::Server(server@),
            WorkloadType::Singleton(singleton) => WorkloadTypeView::Singleton(singleton@),
            WorkloadType::Worker(worker) => WorkloadTypeView::Worker(worker@),
        }
    }
}

impl WorkloadTypeView {
    /// The kind of the workload.
    pub open spec fn kind(self) -> WorkloadKind {
        match self {
            WorkloadTypeView::Task(_) => WorkloadKind::Task,
            WorkloadTypeView::Server(_) => WorkloadKind::Server,
            WorkloadTypeView::Singleton(_) => WorkloadKind::Singleton,
            WorkloadTypeView::Worker(_) => WorkloadKind::Worker,
        }
    }

    /// The identity of the instance that the workload runs.
    pub open spec fn identity(self) -> InstanceIdentityView {
        match self {
            WorkloadTypeView::Task(task) => task.identity(),
            WorkloadTypeView::Server(service) => service.identity,
            WorkloadTypeView::Singleton(service) => service.identity,
            WorkloadTypeView::Worker(service) => service.identity,
        }
    }

    /// The component that the workload runs.
    pub open spec fn definition(self) -> ComponentView {
        match self {
            WorkloadTypeView::Task(task) => task.definition,
            WorkloadTypeView::Server(service) => service.definition,
            WorkloadTypeView::Singleton(service) => service.definition,
            WorkloadTypeView::Worker(service) => service.definition,
        }
    }

    /// The resource of the workload: a job for a task, a deployment for
    /// the long-running kinds.
    pub open spec fn synthesized(self) -> NativeResourceView {
        match self {
            WorkloadTypeView::Task(task) => NativeResourceView::RunToCompletion(task_job(task)),
            WorkloadTypeView::Server(service) => NativeResourceView::Replicated(
                server_deployment(service),
            ),
            WorkloadTypeView::Singleton(service) => NativeResourceView::Replicated(
                singleton_deployment(service),
            ),
            WorkloadTypeView::Worker(service) => NativeResourceView::Replicated(
                server_deployment(service),
            ),
        }
    }

    /// What is submitted to create the workload's resource, in the
    /// instance's namespace.
    pub open spec fn submission(self) -> Result<SubmissionView, WorkloadErrorView> {
        resource_submission(self.synthesized(), self.identity().namespace)
    }

    /// The store after the workload was applied to it.
    pub open spec fn applied_store(self, store: Map<ResourceKey, Seq<u8>>) -> Map<
        ResourceKey,
        Seq<u8>,
    > {
        store_after_apply(self.synthesized(), self.identity().namespace, store)
    }

    /// What applying the workload to a store reports.
    pub open spec fn applied_outcome(self, store: Map<ResourceKey, Seq<u8>>) -> Result<
        (),
        WorkloadErrorView,
    > {
        outcome_of_apply(self.synthesized(), self.identity().namespace, store)
    }
}

/// The store after a resource was applied to it in a namespace. The
/// resource is created only where it has a document and a request can be
/// built for that document; otherwise the store stays as it was.
pub open spec fn store_after_apply(
    resource: NativeResourceView,
    namespace: Seq<char>,
    store: Map<ResourceKey, Seq<u8>>,
) -> Map<ResourceKey, Seq<u8>> {
    match resource_submission(resource, namespace) {
        Ok(submission) => match submission_request(submission) {
            Some(_) => store_after_create(store, submission),
            None => store,
        },
        Err(_) => store,
    }
}

/// What applying a resource to a store in a namespace reports. A resource
/// without a document, or one for whose document no request can be built,
/// is a serialization failure. Otherwise the reply to the creation is
/// settled.
pub open spec fn outcome_of_apply(
    resource: NativeResourceView,
    namespace: Seq<char>,
    store: Map<ResourceKey, Seq<u8>>,
) -> Result<(), WorkloadErrorView> {
    match resource_submission(resource, namespace) {
        Ok(submission) => match submission_request(submission) {
            Some(_) => settled(reply_to_create(store, submission)),
            None => Err(WorkloadErrorView::SerializationFailure),
        },
        Err(error) => Err(error),
    }
}

/// The workload of the given kind for a component and an instance.
pub open spec fn selected(
    kind: WorkloadKind,
    definition: ComponentView,
    identity: InstanceIdentityView,
    params: Map<Seq<char>, ParamValueView>,
) -> WorkloadTypeView {
    let service = ServiceView { identity: identity, definition: definition, params: params };
    match kind {
        WorkloadKind::Task => WorkloadTypeView::Task(
            TaskView {
                name: identity.component_name,
                component_name: identity.component_name,
                instance_name: identity.instance_name,
                namespace: identity.namespace,
                definition: definition,
                params: params,
                owner_ref: identity.owner_ref,
            },
        ),
        WorkloadKind::Server => WorkloadTypeView::Server(service),
        WorkloadKind::Singleton => WorkloadTypeView::Singleton(service),
        WorkloadKind::Worker => WorkloadTypeView::Worker(service),
    }
}

/// The workload that a component declares for an instance: the one of the
/// declared kind, or an error that names the declared word where no kind
/// goes by it.
pub open spec fn dispatched(
    definition: ComponentView,
    identity: InstanceIdentityView,
    params: Map<Seq<char>, ParamValueView>,
) -> Result<WorkloadTypeView, WorkloadErrorView> {
    match kind_of(definition.workload_type) {
        Some(kind) => Ok(selected(kind, definition, identity, params)),
        None => Err(WorkloadErrorView::UnsupportedWorkloadKind(definition.workload_type)),
    }
}

/// The view of a workload or of the failure to select one.
pub open spec fn workload_view(outcome: Result<WorkloadType, WorkloadError>) -> Result<
    WorkloadTypeView,
    WorkloadErrorView,
> {
    match outcome {
        Ok(workload) => Ok(workload@),
        Err(error) => Err(error@),
    }
}

/// Applies a resource to a store: makes its submission, builds the request
/// that creates it in `namespace`, creates it and settles the reply. Where
/// the resource has no document, or no request can be built, that failure
/// is returned and nothing is created. The store stands where the control
/// plane would: it takes the submission whose request was built.
pub fn apply_resource(resource: &NativeResource, namespace: &String, cluster: &mut Cluster) -> (out:
    Result<(), WorkloadError>)
    ensures
        final(cluster)@ == store_after_apply(resource@, namespace@, old(cluster)@),
        outcome_view(out) == outcome_of_apply(resource@, namespace@, old(cluster)@),
{
    let submission = match resource.submission(namespace) {
        Ok(submission) => submission,
        Err(error) => {
            return Err(error);
        },
    };
    match submission.request() {
        Ok(_) => cluster.create(&submission).settle(),
        Err(error) => Err(error),
    }
}

impl WorkloadType {
    /// Selects the workload of the kind that `definition` declares, for
    /// the instance `identity`. An unknown kind is an error, never a
    /// default.
    pub fn select(definition: &Component, identity: &InstanceIdentity, params: &ParamMap) -> (out:
        Result<WorkloadType, WorkloadError>)
        ensures
            workload_view(out) == dispatched(definition@, identity@, params@),
    {
        match WorkloadKind::parse(&definition.workload_type) {
            None => Err(WorkloadError::UnsupportedWorkloadKind(definition.workload_type.clone())),
            Some(WorkloadKind::Task) => {
                let identity = identity.clone();
                Ok(
                    WorkloadType::Task(
                        Task {
                            name: identity.component_name.clone(),
                            component_name: identity.component_name,
                            instance_name: identity.instance_name,
                            namespace: identity.namespace,
                            definition: definition.clone(),
                            params: params.clone(),
                            owner_ref: identity.owner_ref,
                        },
                    ),
                )
            },
            Some(WorkloadKind::Server) => Ok(
                WorkloadType::Server(
                    Server {
                        identity: identity.clone(),
                        definition: definition.clone(),
                        params: params.clone(),
                    },
                ),
            ),
            Some(WorkloadKind::Singleton) => Ok(
                WorkloadType::Singleton(
                    Singleton {
                        identity: identity.clone(),
                        definition: definition.clone(),
                        params: params.clone(),
                    },
                ),
            ),
            Some(WorkloadKind::Worker) => Ok(
                WorkloadType::Worker(
                    Worker {
                        identity: identity.clone(),
                        definition: definition.clone(),
                        params: params.clone(),
                    },
                ),
            ),
        }
    }

    /// The kind of this workload.
    pub fn kind(&self) -> (out: WorkloadKind)
        ensures
            out == self@.kind(),
    {
        match self {
            WorkloadType::Task(_) => WorkloadKind::Task,
            WorkloadType::Server(_) => WorkloadKind::Server,
            WorkloadType::Singleton(_) => WorkloadKind::Singleton,
            WorkloadType::Worker(_) => WorkloadKind::Worker,
        }
    }

    /// The namespace in which this workload's resources live.
    pub fn namespace(&self) -> (out: &String)
        ensures
            out@ == self@.identity().namespace,
    {
        match self {
            WorkloadType::Task(task) => &task.namespace,
            WorkloadType::Server(server) => &server.identity.namespace,
            WorkloadType::Singleton(singleton) => &singleton.identity.namespace,
            WorkloadType::Worker(worker) => &worker.identity.namespace,
        }
    }

    /// Builds the resource of this workload. Nothing is sent anywhere.
    pub fn synthesize(&self) -> (out: NativeResource)
        ensures
            out@ == self@.synthesized(),
    {
        match self {
            WorkloadType::Task(task) => NativeResource::RunToCompletion(task.to_job()),
            WorkloadType::Server(server) => NativeResource::Replicated(server.to_deployment()),
            WorkloadType::Singleton(singleton) => NativeResource::Replicated(
                singleton.to_deployment(),
            ),
            WorkloadType::Worker(worker) => NativeResource::Replicated(worker.to_deployment()),
        }
    }

    /// What is submitted to create this workload's resource.
    pub fn submission(&self) -> (out: Result<Submission, WorkloadError>)
        ensures
            submission_view(out) == self@.submission(),
    {
        match self {
            WorkloadType::Task(task) => task.submission(),
            WorkloadType::Server(server) => server.submission(),
            WorkloadType::Singleton(singleton) => singleton.submission(),
            WorkloadType::Worker(worker) => worker.submission(),
        }
    }

    /// Applies this workload to a store: synthesizes its resource, builds
    /// the request that creates it, and creates it there. A resource that
    /// is there already is left as it is, and that is a success too.
    pub fn apply(&self, cluster: &mut Cluster) -> (out: Result<(), WorkloadError>)
        ensures
            final(cluster)@ == self@.applied_store(old(cluster)@),
            outcome_view(out) == self@.applied_outcome(old(cluster)@),
    {
        match self {
            WorkloadType::Task(task) => task.add(cluster),
            WorkloadType::Server(server) => server.add(cluster),
            WorkloadType::Singleton(singleton) => singleton.add(cluster),
            WorkloadType::Worker(worker) => worker.add(cluster),
        }
    }
}

/// What reconciling an instance submits: the submission of the workload
/// that its component declares.
pub open spec fn planned(
    definition: ComponentView,
    identity: InstanceIdentityView,
    params: Map<Seq<char>, ParamValueView>,
) -> Result<SubmissionView, WorkloadErrorView> {
    match dispatched(definition, identity, params) {
        Ok(workload) => workload.submission(),
        Err(error) => Err(error),
    }
}

/// The store after an instance was reconciled against it.
pub open spec fn reconciled_store(
    definition: ComponentView,
    identity: InstanceIdentityView,
    params: Map<Seq<char>, ParamValueView>,
    store: Map<ResourceKey, Seq<u8>>,
) -> Map<ResourceKey, Seq<u8>> {
    match dispatched(definition, identity, params) {
        Ok(workload) => workload.applied_store(store),
        Err(_) => store,
    }
}

/// What reconciling an instance against a store reports.
pub open spec fn reconciled_outcome(
    definition: ComponentView,
    identity: InstanceIdentityView,
    params: Map<Seq<char>, ParamValueView>,
    store: Map<ResourceKey, Seq<u8>>,
) -> Result<(), WorkloadErrorView> {
    match dispatched(definition, identity, params) {
        Ok(workload) => workload.applied_outcome(store),
        Err(error) => Err(error),
    }
}

/// The first half of a reconciliation: what to submit for the instance.
/// The caller sends the submission's request and settles the reply.
pub fn plan(definition: &Component, identity: &InstanceIdentity, params: &ParamMap) -> (out: Result<
    Submission,
    WorkloadError,
>)
    ensures
        submission_view(out) == planned(definition@, identity@, params@),
{
    match WorkloadType::select(definition, identity, params) {
        Ok(workload) => workload.submission(),
        Err(error) => Err(error),
    }
}

/// Reconciles one instance against a store: selects the workload that the
/// component declares, synthesizes its resource, builds the request that
/// creates it, and creates it. No retry is made here.
pub fn reconcile(
    definition: &Component,
    identity: &InstanceIdentity,
    params: &ParamMap,
    cluster: &mut Cluster,
) -> (out: Result<(), WorkloadError>)
    ensures
        final(cluster)@ == reconciled_store(definition@, identity@, params@, old(cluster)@),
        outcome_view(out) == reconciled_outcome(definition@, identity@, params@, old(cluster)@),
{
    match WorkloadType::select(definition, identity, params) {
        Ok(workload) => workload.apply(cluster),
        Err(error) => Err(error),
    }
}

} // verus!
