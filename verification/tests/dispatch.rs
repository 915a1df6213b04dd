use workloads::cluster::{ApiTarget, Cluster};
use workloads::component::{Component, Resources, RestartPolicy};
use workloads::error::WorkloadError;
use workloads::metadata::{InstanceIdentity, Label, OwnerRef};
use workloads::params::{ParamMap, ParamValue};
use workloads::resource::{NativeResource, UpdateStrategy};
use workloads::workload_type::service::{
    Server, Singleton, Worker, DEFAULT_REPLICAS, SINGLETON_REPLICAS,
};
use workloads::workload_type::{plan, reconcile, WorkloadKind, WorkloadType};

fn component(kind: &str, replicas: Option<i32>) -> Component {
    Component {
        name: "hello".to_string(),
        workload_type: kind.to_string(),
        image: "busybox".to_string(),
        command: vec![],
        args: vec![],
        ports: vec![],
        env: vec![],
        resources: Resources { cpu: None, memory: None },
        replicas,
    }
}

fn owner(name: &str, uid: &str) -> OwnerRef {
    OwnerRef {
        api_version: "core.oam.dev/v1alpha1".to_string(),
        kind: "ApplicationConfiguration".to_string(),
        name: name.to_string(),
        uid: uid.to_string(),
        controller: Some(true),
        block_owner_deletion: Some(true),
    }
}

fn identity(instance: &str, owner_ref: Option<Vec<OwnerRef>>) -> InstanceIdentity {
    InstanceIdentity {
        namespace: "default".to_string(),
        component_name: "hello".to_string(),
        instance_name: instance.to_string(),
        owner_ref,
    }
}

fn target(group: &str, resource: &str) -> ApiTarget {
    ApiTarget {
        group: group.to_string(),
        version: "v1".to_string(),
        resource: resource.to_string(),
        prefix: "apis".to_string(),
        namespace: "default".to_string(),
    }
}

fn app_label() -> Vec<Label> {
    vec![Label { key: "app".to_string(), value: "hello".to_string() }]
}

fn deployment_of(workload: &WorkloadType) -> workloads::resource::DeploymentResource {
    match workload.synthesize() {
        NativeResource::Replicated(deployment) => deployment,
        NativeResource::RunToCompletion(_) => panic!("a job where a deployment was due"),
    }
}

#[test]
fn kind_words_are_recognised() {
    assert_eq!(WorkloadKind::parse(&"Task".to_string()), Some(WorkloadKind::Task));
    assert_eq!(WorkloadKind::parse(&"Server".to_string()), Some(WorkloadKind::Server));
    assert_eq!(WorkloadKind::parse(&"Singleton".to_string()), Some(WorkloadKind::Singleton));
    assert_eq!(WorkloadKind::parse(&"Worker".to_string()), Some(WorkloadKind::Worker));
    assert_eq!(WorkloadKind::parse(&"task".to_string()), None);
    assert_eq!(WorkloadKind::parse(&"Tasks".to_string()), None);
    assert_eq!(WorkloadKind::parse(&"".to_string()), None);
}

#[test]
fn select_builds_the_declared_kind() {
    let params = ParamMap::new();
    for (word, kind) in [
        ("Task", WorkloadKind::Task),
        ("Server", WorkloadKind::Server),
        ("Singleton", WorkloadKind::Singleton),
        ("Worker", WorkloadKind::Worker),
    ] {
        let workload =
            WorkloadType::select(&component(word, None), &identity("one", None), &params).unwrap();
        assert_eq!(workload.kind(), kind);
        assert_eq!(workload.namespace(), "default");
    }
}

#[test]
fn select_binds_component_identity_and_params() {
    let mut params = ParamMap::new();
    params.insert("greeting".to_string(), ParamValue::Text("hi".to_string()));
    let chain = Some(vec![owner("app", "uid-1")]);
    let definition = component("Task", None);
    let workload =
        WorkloadType::select(&definition, &identity("job1", chain), &params).unwrap();
    match workload {
        WorkloadType::Task(task) => {
            assert_eq!(task.name, "hello");
            assert_eq!(task.component_name, "hello");
            assert_eq!(task.instance_name, "job1");
            assert_eq!(task.namespace, "default");
            assert_eq!(task.definition, definition);
            assert_eq!(task.params, params);
            assert_eq!(task.owner_ref, Some(vec![owner("app", "uid-1")]));
        }
        _ => panic!("not a task"),
    }
    let workload =
        WorkloadType::select(&component("Server", Some(2)), &identity("web", None), &params)
            .unwrap();
    match workload {
        WorkloadType::Server(server) => {
            assert_eq!(server.identity, identity("web", None));
            assert_eq!(server.definition, component("Server", Some(2)));
            assert_eq!(server.params, params);
        }
        _ => panic!("not a server"),
    }
}

#[test]
fn unknown_kind_is_refused_by_name() {
    let params = ParamMap::new();
    let refused = WorkloadType::select(&component("Cron", None), &identity("one", None), &params);
    assert_eq!(refused, Err(WorkloadError::UnsupportedWorkloadKind("Cron".to_string())));
    assert_eq!(
        plan(&component("Cron", None), &identity("one", None), &params),
        Err(WorkloadError::UnsupportedWorkloadKind("Cron".to_string()))
    );
}

#[test]
fn unknown_kind_touches_no_cluster() {
    let params = ParamMap::new();
    let mut cluster = Cluster::new();
    assert_eq!(
        reconcile(&component("Task", None), &identity("job1", None), &params, &mut cluster),
        Ok(())
    );
    let before = cluster.len();
    let outcome = reconcile(&component("", None), &identity("job2", None), &params, &mut cluster);
    assert_eq!(outcome, Err(WorkloadError::UnsupportedWorkloadKind("".to_string())));
    assert_eq!(cluster.len(), before);
    assert_eq!(cluster.get(&target("batch", "jobs"), &"job2".to_string()), None);
    assert_eq!(cluster.get(&target("apps", "deployments"), &"job2".to_string()), None);
}

#[test]
fn reconcile_twice_creates_once() {
    let params = ParamMap::new();
    for (word, group, resource) in [
        ("Task", "batch", "jobs"),
        ("Server", "apps", "deployments"),
        ("Singleton", "apps", "deployments"),
        ("Worker", "apps", "deployments"),
    ] {
        let mut cluster = Cluster::new();
        let definition = component(word, None);
        let who = identity("one", Some(vec![owner("app", "uid-1")]));
        assert_eq!(reconcile(&definition, &who, &params, &mut cluster), Ok(()));
        assert_eq!(cluster.len(), 1);
        let stored = cluster.get(&target(group, resource), &"one".to_string()).cloned();
        assert!(stored.is_some());
        assert_eq!(reconcile(&definition, &who, &params, &mut cluster), Ok(()));
        assert_eq!(cluster.len(), 1);
        assert_eq!(cluster.get(&target(group, resource), &"one".to_string()).cloned(), stored);
    }
}

#[test]
fn reconcile_stores_what_was_planned() {
    let params = ParamMap::new();
    let definition = component("Singleton", Some(5));
    let who = identity("solo", None);
    let planned = plan(&definition, &who, &params).unwrap();
    assert_eq!(planned.target, target("apps", "deployments"));
    assert_eq!(planned.name, "solo");
    let mut cluster = Cluster::new();
    assert_eq!(reconcile(&definition, &who, &params, &mut cluster), Ok(()));
    assert_eq!(cluster.get(&planned.target, &planned.name), Some(&planned.body));
    let request = planned.request().unwrap();
    assert_eq!(request.uri().to_string(), "/apis/apps/v1/namespaces/default/deployments?");
    assert_eq!(request.body(), &planned.body);
}

#[test]
fn different_instances_do_not_interfere() {
    let params = ParamMap::new();
    let mut cluster = Cluster::new();
    assert_eq!(
        reconcile(&component("Task", None), &identity("a", None), &params, &mut cluster),
        Ok(())
    );
    assert_eq!(
        reconcile(&component("Task", None), &identity("b", None), &params, &mut cluster),
        Ok(())
    );
    assert_eq!(
        reconcile(&component("Server", None), &identity("a", None), &params, &mut cluster),
        Ok(())
    );
    assert_eq!(cluster.len(), 3);
}

#[test]
fn server_restarts_always_and_takes_declared_replicas() {
    let params = ParamMap::new();
    let workload =
        WorkloadType::select(&component("Server", Some(3)), &identity("web", None), &params)
            .unwrap();
    let deployment = deployment_of(&workload);
    assert_eq!(deployment.replicas, 3);
    assert_eq!(deployment.strategy, UpdateStrategy::RollingUpdate);
    assert_eq!(deployment.template.spec.restart_policy, RestartPolicy::Always);
    assert_eq!(deployment.metadata.name, "web");
    assert_eq!(deployment.metadata.labels, app_label());
    assert_eq!(deployment.selector, app_label());
    assert_eq!(deployment.template.metadata, deployment.metadata);
}

#[test]
fn server_defaults_to_one_replica_and_accepts_zero() {
    let params = ParamMap::new();
    let workload =
        WorkloadType::select(&component("Server", None), &identity("web", None), &params).unwrap();
    assert_eq!(deployment_of(&workload).replicas, 1);
    assert_eq!(DEFAULT_REPLICAS, 1);
    let workload =
        WorkloadType::select(&component("Server", Some(0)), &identity("web", None), &params)
            .unwrap();
    assert_eq!(deployment_of(&workload).replicas, 0);
}

#[test]
fn singleton_has_one_replica_whatever_is_declared() {
    let params = ParamMap::new();
    for declared in [None, Some(0), Some(1), Some(7), Some(-3), Some(i32::MAX)] {
        let workload = WorkloadType::select(
            &component("Singleton", declared),
            &identity("solo", None),
            &params,
        )
        .unwrap();
        let deployment = deployment_of(&workload);
        assert_eq!(deployment.replicas, 1);
        assert_eq!(deployment.strategy, UpdateStrategy::Recreate);
        assert_eq!(deployment.template.spec.restart_policy, RestartPolicy::Always);
    }
    assert_eq!(SINGLETON_REPLICAS, 1);
}

#[test]
fn worker_is_shaped_as_a_server() {
    let params = ParamMap::new();
    let definition = component("Worker", Some(2));
    let worker = WorkloadType::select(&definition, &identity("w", None), &params).unwrap();
    let mut as_server = component("Worker", Some(2));
    as_server.workload_type = "Server".to_string();
    let server = WorkloadType::select(&as_server, &identity("w", None), &params).unwrap();
    assert_eq!(deployment_of(&worker), deployment_of(&server));
}

#[test]
fn kinds_agree_on_metadata() {
    let params = ParamMap::new();
    let who = identity("one", Some(vec![owner("app", "uid-1"), owner("parent", "uid-2")]));
    let task = WorkloadType::select(&component("Task", None), &who, &params).unwrap();
    let job = match task.synthesize() {
        NativeResource::RunToCompletion(job) => job,
        NativeResource::Replicated(_) => panic!("a deployment where a job was due"),
    };
    assert_eq!(job.metadata.owner_references.as_ref().map(|chain| chain.len()), Some(2));
    for word in ["Server", "Singleton", "Worker"] {
        let workload = WorkloadType::select(&component(word, Some(4)), &who, &params).unwrap();
        let deployment = deployment_of(&workload);
        assert_eq!(deployment.metadata, job.metadata);
        assert_eq!(deployment.template.metadata, job.template.metadata);
        assert_eq!(
            deployment.template.metadata.owner_references,
            Some(vec![owner("app", "uid-1"), owner("parent", "uid-2")])
        );
    }
}

#[test]
fn kinds_by_their_own_types() {
    let server = Server {
        identity: identity("web", None),
        definition: component("Server", Some(2)),
        params: ParamMap::new(),
    };
    assert_eq!(server.kube_name(), "web");
    assert_eq!(server.to_deployment().replicas, 2);
    let singleton = Singleton {
        identity: identity("solo", None),
        definition: component("Singleton", Some(2)),
        params: ParamMap::new(),
    };
    assert_eq!(singleton.kube_name(), "solo");
    assert_eq!(singleton.to_deployment().replicas, 1);
    let worker = Worker {
        identity: identity("bee", None),
        definition: component("Worker", None),
        params: ParamMap::new(),
    };
    assert_eq!(worker.kube_name(), "bee");
    assert_eq!(worker.to_deployment().replicas, 1);

    let mut cluster = Cluster::new();
    assert_eq!(server.add(&mut cluster), Ok(()));
    assert_eq!(singleton.add(&mut cluster), Ok(()));
    assert_eq!(worker.add(&mut cluster), Ok(()));
    assert_eq!(worker.add(&mut cluster), Ok(()));
    assert_eq!(cluster.len(), 3);
    assert_eq!(
        cluster.get(&target("apps", "deployments"), &"web".to_string()),
        Some(&server.submission().unwrap().body)
    );
    assert_eq!(singleton.submission().unwrap().name, "solo");
    assert_eq!(worker.submission().unwrap().target, target("apps", "deployments"));
}

#[test]
fn apply_and_synthesize_by_the_workload() {
    let params = ParamMap::new();
    let workload =
        WorkloadType::select(&component("Task", None), &identity("job1", None), &params).unwrap();
    let mut cluster = Cluster::new();
    assert_eq!(workload.apply(&mut cluster), Ok(()));
    assert_eq!(workload.apply(&mut cluster), Ok(()));
    assert_eq!(cluster.len(), 1);
    let submission = workload.submission().unwrap();
    assert_eq!(submission.body, workload.synthesize().to_json().unwrap());
    assert_eq!(cluster.get(&submission.target, &submission.name), Some(&submission.body));
}

#[test]
fn reconcile_fails_where_no_request_can_be_built() {
    let params = ParamMap::new();
    for word in ["Task", "Server", "Singleton", "Worker"] {
        let mut who = identity("one", None);
        who.namespace = "not a namespace".to_string();
        let definition = component(word, None);
        let planned = plan(&definition, &who, &params).unwrap();
        assert_eq!(planned.request().unwrap_err(), WorkloadError::SerializationFailure);
        let mut cluster = Cluster::new();
        assert_eq!(
            reconcile(&definition, &who, &params, &mut cluster),
            Err(WorkloadError::SerializationFailure)
        );
        assert_eq!(cluster.len(), 0);
        assert_eq!(cluster.get(&planned.target, &planned.name), None);
        let workload = WorkloadType::select(&definition, &who, &params).unwrap();
        assert_eq!(workload.apply(&mut cluster), Err(WorkloadError::SerializationFailure));
        assert_eq!(cluster.len(), 0);
    }
}

#[test]
fn kinds_fail_alike_where_no_request_can_be_built() {
    let mut who = identity("web", None);
    who.namespace = "two words".to_string();
    let mut cluster = Cluster::new();
    let server = Server {
        identity: identity("web", None),
        definition: component("Server", None),
        params: ParamMap::new(),
    };
    assert_eq!(server.add(&mut cluster), Ok(()));
    let server = Server { identity: who, definition: component("Server", None), params: ParamMap::new() };
    assert_eq!(server.add(&mut cluster), Err(WorkloadError::SerializationFailure));
    let mut who = identity("solo", None);
    who.namespace = "two words".to_string();
    let singleton = Singleton {
        identity: who,
        definition: component("Singleton", None),
        params: ParamMap::new(),
    };
    assert_eq!(singleton.add(&mut cluster), Err(WorkloadError::SerializationFailure));
    let mut who = identity("bee", None);
    who.namespace = "two words".to_string();
    let worker =
        Worker { identity: who, definition: component("Worker", None), params: ParamMap::new() };
    assert_eq!(worker.add(&mut cluster), Err(WorkloadError::SerializationFailure));
    assert_eq!(cluster.len(), 1);
}

#[test]
fn synthesized_labels_hold_no_key_twice() {
    let params = ParamMap::new();
    for word in ["Task", "Server", "Singleton", "Worker"] {
        let workload =
            WorkloadType::select(&component(word, None), &identity("one", None), &params).unwrap();
        let labels = identity("one", None).labels();
        assert_eq!(labels.len(), 1);
        match workload.synthesize() {
            NativeResource::RunToCompletion(job) => {
                assert_eq!(job.metadata.labels, app_label());
                assert_eq!(job.metadata.lower().labels.unwrap().len(), job.metadata.labels.len());
            }
            NativeResource::Replicated(deployment) => {
                assert_eq!(deployment.selector, app_label());
                let lowered = deployment.lower().spec.unwrap();
                assert_eq!(
                    lowered.selector.match_labels.unwrap().len(),
                    deployment.selector.len()
                );
            }
        }
    }
}
