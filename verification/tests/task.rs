use workloads::cluster::{ApiTarget, Cluster, ClusterReply};
use workloads::component::{Component, Resources, RestartPolicy};
use workloads::error::WorkloadError;
use workloads::metadata::{Label, OwnerRef};
use workloads::params::ParamMap;
use workloads::workload_type::task::{Task, TaskProgress, TASK_BACKOFF_LIMIT};

fn busybox() -> Component {
    Component {
        name: "hello".to_string(),
        workload_type: "Task".to_string(),
        image: "busybox".to_string(),
        command: vec![],
        args: vec![],
        ports: vec![],
        env: vec![],
        resources: Resources { cpu: None, memory: None },
        replicas: None,
    }
}

fn job1(owner_ref: Option<Vec<OwnerRef>>) -> Task {
    Task {
        name: "hello".to_string(),
        component_name: "hello".to_string(),
        instance_name: "job1".to_string(),
        namespace: "default".to_string(),
        definition: busybox(),
        params: ParamMap::new(),
        owner_ref,
    }
}

fn owner(name: &str, uid: &str) -> OwnerRef {
    OwnerRef {
        api_version: "core.oam.dev/v1alpha1".to_string(),
        kind: "ApplicationConfiguration".to_string(),
        name: name.to_string(),
        uid: uid.to_string(),
        controller: Some(true),
        block_owner_deletion: Some(true),
    }
}

fn jobs_in_default() -> ApiTarget {
    ApiTarget {
        group: "batch".to_string(),
        version: "v1".to_string(),
        resource: "jobs".to_string(),
        prefix: "apis".to_string(),
        namespace: "default".to_string(),
    }
}

#[test]
fn kube_name_is_the_instance_name() {
    assert_eq!(job1(None).kube_name(), "job1");
}

#[test]
fn job_is_named_labelled_and_bounded() {
    let job = job1(Some(vec![])).to_job();
    assert_eq!(job.metadata.name, "job1");
    assert_eq!(
        job.metadata.labels,
        vec![Label { key: "app".to_string(), value: "hello".to_string() }]
    );
    assert_eq!(job.metadata.owner_references, Some(vec![]));
    assert_eq!(job.backoff_limit, 4);
    assert_eq!(TASK_BACKOFF_LIMIT, 4);
    assert_eq!(job.template.spec.restart_policy, RestartPolicy::Never);
    assert_eq!(job.template.spec.containers.len(), 1);
    assert_eq!(job.template.spec.containers[0].image, "busybox");
    assert_eq!(job.template.spec.containers[0].name, "hello");
}

#[test]
fn job_template_carries_the_same_metadata() {
    let job = job1(Some(vec![owner("app", "uid-1")])).to_job();
    assert_eq!(job.template.metadata, job.metadata);
    assert_eq!(job.template.metadata.labels, job.metadata.labels);
}

#[test]
fn label_is_the_component_name_not_the_workload_name() {
    let mut task = job1(None);
    task.name = "something-else".to_string();
    task.component_name = "web".to_string();
    let job = task.to_job();
    assert_eq!(job.metadata.labels, vec![Label { key: "app".to_string(), value: "web".to_string() }]);
}

#[test]
fn absent_owner_chain_stays_absent() {
    let job = job1(None).to_job();
    assert_eq!(job.metadata.owner_references, None);
    assert_eq!(job.template.metadata.owner_references, None);
}

#[test]
fn two_owner_references_are_carried_verbatim() {
    let chain = vec![owner("app", "uid-1"), owner("parent", "uid-2")];
    let job = job1(Some(vec![owner("app", "uid-1"), owner("parent", "uid-2")])).to_job();
    assert_eq!(job.metadata.owner_references, Some(vec![owner("app", "uid-1"), owner("parent", "uid-2")]));
    assert_eq!(job.template.metadata.owner_references.as_ref().map(|c| c.len()), Some(2));
    assert_eq!(job.template.metadata.owner_references, Some(chain));
}

#[test]
fn synthesis_is_repeatable() {
    let task = job1(Some(vec![owner("app", "uid-1")]));
    let first = task.to_job();
    let second = task.to_job();
    assert_eq!(first, second);
    assert_eq!(task.submission().unwrap(), task.submission().unwrap());
}

#[test]
fn busybox_task_end_to_end() {
    let task = job1(Some(vec![]));
    let job = task.to_job();
    assert_eq!(job.metadata.name, "job1");
    assert_eq!(job.metadata.labels, vec![Label { key: "app".to_string(), value: "hello".to_string() }]);
    assert_eq!(job.template.spec.restart_policy, RestartPolicy::Never);
    assert_eq!(job.backoff_limit, 4);

    let submission = task.submission().unwrap();
    assert_eq!(submission.target, jobs_in_default());
    assert_eq!(submission.name, "job1");

    assert_eq!(ClusterReply::Created.settle(), Ok(()));
    let taken = ClusterReply::Rejected {
        code: 409,
        reason: "AlreadyExists".to_string(),
        message: "jobs.batch \"job1\" already exists".to_string(),
    };
    assert_eq!(taken.settle(), Ok(()));

    let mut cluster = Cluster::new();
    assert_eq!(task.add(&mut cluster), Ok(()));
    assert_eq!(cluster.len(), 1);
    assert_eq!(task.add(&mut cluster), Ok(()));
    assert_eq!(cluster.len(), 1);
    assert_eq!(cluster.get(&jobs_in_default(), &"job1".to_string()), Some(&submission.body));
}

#[test]
fn task_progress_follows_the_counts() {
    assert_eq!(Task::progress(0, 0), Ok(TaskProgress::Active));
    assert_eq!(Task::progress(0, 4), Ok(TaskProgress::Active));
    assert_eq!(Task::progress(0, 5), Err(WorkloadError::RetryCeilingExhausted));
    assert_eq!(Task::progress(1, 0), Ok(TaskProgress::Complete));
    assert_eq!(Task::progress(1, 5), Ok(TaskProgress::Complete));
    assert_eq!(Task::progress(0, i32::MAX), Err(WorkloadError::RetryCeilingExhausted));
    assert_eq!(Task::progress(-1, -1), Ok(TaskProgress::Active));
}

#[test]
fn add_fails_where_no_request_can_be_built() {
    let mut task = job1(None);
    task.namespace = "not a namespace".to_string();
    assert!(task.submission().is_ok());
    assert_eq!(
        task.submission().unwrap().request().unwrap_err(),
        WorkloadError::SerializationFailure
    );
    let mut cluster = Cluster::new();
    assert_eq!(task.add(&mut cluster), Err(WorkloadError::SerializationFailure));
    assert_eq!(cluster.len(), 0);
    let mut target = jobs_in_default();
    target.namespace = "not a namespace".to_string();
    assert_eq!(cluster.get(&target, &"job1".to_string()), None);
    assert_eq!(task.add(&mut cluster), Err(WorkloadError::SerializationFailure));
    assert_eq!(cluster.len(), 0);
}

#[test]
fn add_failure_leaves_other_resources_alone() {
    let mut cluster = Cluster::new();
    assert_eq!(job1(None).add(&mut cluster), Ok(()));
    let mut task = job1(None);
    task.namespace = "a b".to_string();
    assert_eq!(task.add(&mut cluster), Err(WorkloadError::SerializationFailure));
    assert_eq!(cluster.len(), 1);
    assert!(cluster.get(&jobs_in_default(), &"job1".to_string()).is_some());
}
