//! What holds of every workload and of every reconciliation, proved from
//! the definitions of synthesis and of applying.

use crate::cluster::{
    settled, submission_request, ClusterReplyView, ResourceKey, SubmissionView,
};
use crate::component::{Component, ComponentView, RestartPolicy};
use crate::error::WorkloadErrorView;
use crate::metadata::{label_keys_distinct, InstanceIdentity, InstanceIdentityView};
use crate::params::{ParamMap, ParamValueView};
use crate::resource::NativeResourceView;
use crate::workload_type::service::SINGLETON_REPLICAS;
use crate::workload_type::task::TASK_BACKOFF_LIMIT;
use crate::workload_type::{
    dispatched, kind_of, planned, reconciled_outcome, reconciled_store, WorkloadKind,
    WorkloadType, WorkloadTypeView,
};
use vstd::prelude::*;

verus! {

/// Synthesis is deterministic: two workloads of equal value have the same
/// resource, with the same name, labels and owner references on it and on
/// its pod template, and the same submission, byte for byte.
pub proof fn lemma_synthesis_is_deterministic(a: WorkloadType, b: WorkloadType)
    requires
        a@ == b@,
    ensures
        a@.synthesized() == b@.synthesized(),
        a@.synthesized().metadata() == b@.synthesized().metadata(),
        a@.synthesized().template().metadata == b@.synthesized().template().metadata,
        a@.submission() == b@.submission(),
{
}

/// Dispatch is deterministic: equal inputs select the same workload, or
/// fail alike.
pub proof fn lemma_dispatch_is_deterministic(
    definition_a: Component,
    identity_a: InstanceIdentity,
    params_a: ParamMap,
    definition_b: Component,
    identity_b: InstanceIdentity,
    params_b: ParamMap,
)
    requires
        definition_a@ == definition_b@,
        identity_a@ == identity_b@,
        params_a@ == params_b@,
    ensures
        dispatched(definition_a@, identity_a@, params_a@) == dispatched(
            definition_b@,
            identity_b@,
            params_b@,
        ),
        planned(definition_a@, identity_a@, params_a@) == planned(
            definition_b@,
            identity_b@,
            params_b@,
        ),
{
}

/// The kinds differ in what they run and how, never in how a resource is
/// named, labelled and owned: two workloads for the same instance, of
/// whatever kinds and components, put the same metadata on their
/// resources.
pub proof fn lemma_metadata_follows_identity(a: WorkloadTypeView, b: WorkloadTypeView)
    requires
        a.identity() == b.identity(),
    ensures
        a.synthesized().metadata() == b.synthesized().metadata(),
        a.synthesized().template().metadata == b.synthesized().template().metadata,
{
}

/// The resource is named after the instance, and so is its pod template.
pub proof fn lemma_name_is_instance_name(workload: WorkloadTypeView)
    ensures
        workload.synthesized().metadata().name == workload.identity().instance_name,
        workload.synthesized().template().metadata.name == workload.identity().instance_name,
{
}

/// Selector consistency: the labels on the pod template are the labels on
/// the resource, and a deployment selects its pods by exactly these
/// labels.
pub proof fn lemma_template_labels_match(workload: WorkloadTypeView)
    ensures
        workload.synthesized().template().metadata.labels
            == workload.synthesized().metadata().labels,
        workload.synthesized() matches NativeResourceView::Replicated(deployment)
            ==> deployment.selector == deployment.template.metadata.labels,
{
}

/// No label key occurs twice: not on the resource, not on its pod
/// template, not in a deployment's selector. So the label maps that are
/// sent hold every label that synthesis made.
pub proof fn lemma_label_keys_are_distinct(workload: WorkloadTypeView)
    ensures
        label_keys_distinct(workload.synthesized().metadata().labels),
        label_keys_distinct(workload.synthesized().template().metadata.labels),
        workload.synthesized() matches NativeResourceView::Replicated(deployment)
            ==> label_keys_distinct(deployment.selector),
{
}

/// Every resource carries the instance's chain of owner references, whole
/// and in order, on itself and on its pod template.
pub proof fn lemma_owners_are_propagated(workload: WorkloadTypeView)
    ensures
        workload.synthesized().metadata().owner_references == workload.identity().owner_ref,
        workload.synthesized().template().metadata.owner_references
            == workload.identity().owner_ref,
{
}

/// Each kind has its lifecycle policy, whatever the component declares: a
/// task is a job whose pods are never restarted and which retries at most
/// `TASK_BACKOFF_LIMIT` times; the long-running kinds are deployments
/// whose pods are always restarted; a singleton has exactly one replica.
pub proof fn lemma_lifecycle_policy(workload: WorkloadTypeView)
    ensures
        workload.kind() == WorkloadKind::Task ==> {
            &&& workload.synthesized() is RunToCompletion
            &&& workload.synthesized().template().spec.restart_policy == RestartPolicy::Never
            &&& workload.synthesized()->RunToCompletion_0.backoff_limit == TASK_BACKOFF_LIMIT
        },
        workload.kind() != WorkloadKind::Task ==> {
            &&& workload.synthesized() is Replicated
            &&& workload.synthesized().template().spec.restart_policy == RestartPolicy::Always
        },
        workload.kind() == WorkloadKind::Singleton ==> {
            &&& workload.synthesized() is Replicated
            &&& workload.synthesized()->Replicated_0.replicas == SINGLETON_REPLICAS
        },
{
}

/// A kind that is not known is refused with an error that names it:
/// nothing is planned, and the store is left as it was.
pub proof fn lemma_unknown_kind_is_refused(
    definition: ComponentView,
    identity: InstanceIdentityView,
    params: Map<Seq<char>, ParamValueView>,
    store: Map<ResourceKey, Seq<u8>>,
)
    requires
        kind_of(definition.workload_type).is_none(),
    ensures
        planned(definition, identity, params) == Err::<SubmissionView, WorkloadErrorView>(
            WorkloadErrorView::UnsupportedWorkloadKind(definition.workload_type),
        ),
        reconciled_store(definition, identity, params, store) == store,
        reconciled_outcome(definition, identity, params, store) == Err::<(), WorkloadErrorView>(
            WorkloadErrorView::UnsupportedWorkloadKind(definition.workload_type),
        ),
{
}

/// Reconciling is idempotent. Where an instance has a submission and a
/// request can be built for it, the first reconciliation succeeds and
/// leaves its resource in the store; a second one succeeds too and changes
/// nothing. Into a store that did not hold the resource, the two together
/// put exactly that one resource. Where it fails, it fails alike both
/// times.
pub proof fn lemma_reconcile_is_idempotent(
    definition: ComponentView,
    identity: InstanceIdentityView,
    params: Map<Seq<char>, ParamValueView>,
    store: Map<ResourceKey, Seq<u8>>,
)
    ensures
        ({
            let once = reconciled_store(definition, identity, params, store);
            let twice = reconciled_store(definition, identity, params, once);
            &&& twice == once
            &&& reconciled_outcome(definition, identity, params, once) == reconciled_outcome(
                definition,
                identity,
                params,
                store,
            )
            &&& planned(definition, identity, params) matches Ok(submission)
                ==> submission_request(submission) is Some ==> {
                &&& reconciled_outcome(definition, identity, params, store) is Ok
                &&& once.dom().contains(submission.key())
                &&& !store.dom().contains(submission.key()) ==> twice == store.insert(
                    submission.key(),
                    submission.body,
                )
            }
        }),
{
}

/// Reconciling succeeds exactly if the instance has a submission and a
/// request can be built for it: the store then answers with a creation or
/// with a conflict, and both are successes.
pub proof fn lemma_success_needs_a_request(
    definition: ComponentView,
    identity: InstanceIdentityView,
    params: Map<Seq<char>, ParamValueView>,
    store: Map<ResourceKey, Seq<u8>>,
)
    ensures
        reconciled_outcome(definition, identity, params, store) is Ok <==> (planned(
            definition,
            identity,
            params,
        ) matches Ok(submission) && submission_request(submission) is Some),
{
}

/// A submission for which no request can be built is a serialization
/// failure, and nothing is created.
pub proof fn lemma_unbuildable_request_is_refused(
    definition: ComponentView,
    identity: InstanceIdentityView,
    params: Map<Seq<char>, ParamValueView>,
    store: Map<ResourceKey, Seq<u8>>,
)
    requires
        planned(definition, identity, params) matches Ok(submission) && submission_request(
            submission,
        ) is None,
    ensures
        reconciled_store(definition, identity, params, store) == store,
        reconciled_outcome(definition, identity, params, store) == Err::<(), WorkloadErrorView>(
            WorkloadErrorView::SerializationFailure,
        ),
{
}

/// A failed reconciliation leaves the store untouched.
pub proof fn lemma_failure_changes_nothing(
    definition: ComponentView,
    identity: InstanceIdentityView,
    params: Map<Seq<char>, ParamValueView>,
    store: Map<ResourceKey, Seq<u8>>,
)
    requires
        reconciled_outcome(definition, identity, params, store) is Err,
    ensures
        reconciled_store(definition, identity, params, store) == store,
{
}

/// A reply is a success exactly if it says that the resource was created
/// or that its name is taken: either way the resource is there.
pub proof fn lemma_success_means_present(reply: ClusterReplyView)
    ensures
        settled(reply) is Ok <==> (reply is Created || reply.already_exists()),
{
}

} // verus!
