use workloads::component::{
    Component, ContainerSpec, EnvEntry, PodDefinition, Port, Protocol, Resources, RestartPolicy,
};
use workloads::metadata::{InstanceIdentity, Label, Metadata, OwnerRef};
use workloads::params::ParamMap;
use workloads::resource::{
    DeploymentResource, JobResource, NativeResource, PodTemplate, UpdateStrategy,
};
use workloads::workload_type::task::Task;

fn metadata() -> Metadata {
    Metadata {
        name: "job1".to_string(),
        labels: vec![Label { key: "app".to_string(), value: "hello".to_string() }],
        owner_references: None,
    }
}

fn bare_container() -> ContainerSpec {
    ContainerSpec {
        name: "hello".to_string(),
        image: "busybox".to_string(),
        command: vec![],
        args: vec![],
        ports: vec![],
        env: vec![],
        resources: Resources { cpu: None, memory: None },
    }
}

fn full_container() -> ContainerSpec {
    ContainerSpec {
        name: "web".to_string(),
        image: "nginx:1.17".to_string(),
        command: vec!["nginx".to_string()],
        args: vec!["-g".to_string(), "daemon off;".to_string()],
        ports: vec![
            Port { name: "http".to_string(), container_port: 80, protocol: Protocol::Tcp },
            Port { name: "dns".to_string(), container_port: 53, protocol: Protocol::Udp },
        ],
        env: vec![EnvEntry { name: "MODE".to_string(), value: "fast".to_string() }],
        resources: Resources { cpu: Some("500m".to_string()), memory: Some("128Mi".to_string()) },
    }
}

fn template(container: ContainerSpec, policy: RestartPolicy) -> PodTemplate {
    PodTemplate {
        metadata: metadata(),
        spec: PodDefinition { containers: vec![container], restart_policy: policy },
    }
}

fn parsed(bytes: &[u8]) -> serde_json::Value {
    serde_json::from_slice(bytes).unwrap()
}

fn expected(text: &str) -> serde_json::Value {
    serde_json::from_str(text).unwrap()
}

#[test]
fn job_document_of_the_busybox_task() {
    let task = Task {
        name: "hello".to_string(),
        component_name: "hello".to_string(),
        instance_name: "job1".to_string(),
        namespace: "default".to_string(),
        definition: Component {
            name: "hello".to_string(),
            workload_type: "Task".to_string(),
            image: "busybox".to_string(),
            command: vec![],
            args: vec![],
            ports: vec![],
            env: vec![],
            resources: Resources { cpu: None, memory: None },
            replicas: None,
        },
        params: ParamMap::new(),
        owner_ref: None,
    };
    let body = NativeResource::RunToCompletion(task.to_job()).to_json().unwrap();
    let text = "{\"apiVersion\":\"batch/v1\",\"kind\":\"Job\",\
        \"metadata\":{\"labels\":{\"app\":\"hello\"},\"name\":\"job1\"},\
        \"spec\":{\"backoffLimit\":4,\"template\":{\
        \"metadata\":{\"labels\":{\"app\":\"hello\"},\"name\":\"job1\"},\
        \"spec\":{\"containers\":[{\"image\":\"busybox\",\"name\":\"hello\"}],\
        \"restartPolicy\":\"Never\"}}}}";
    assert_eq!(String::from_utf8(body.clone()).unwrap(), text);
    assert_eq!(task.submission().unwrap().body, body);
}

#[test]
fn job_document_with_every_field() {
    let mut job = JobResource {
        metadata: metadata(),
        backoff_limit: 2,
        template: template(full_container(), RestartPolicy::OnFailure),
    };
    job.metadata.owner_references = Some(vec![OwnerRef {
        api_version: "core.oam.dev/v1alpha1".to_string(),
        kind: "ApplicationConfiguration".to_string(),
        name: "app".to_string(),
        uid: "uid-1".to_string(),
        controller: Some(true),
        block_owner_deletion: None,
    }]);
    let body = NativeResource::RunToCompletion(job).to_json().unwrap();
    let text = "{\"apiVersion\":\"batch/v1\",\"kind\":\"Job\",\
        \"metadata\":{\"labels\":{\"app\":\"hello\"},\"name\":\"job1\",\"ownerReferences\":[\
        {\"apiVersion\":\"core.oam.dev/v1alpha1\",\"controller\":true,\
        \"kind\":\"ApplicationConfiguration\",\"name\":\"app\",\"uid\":\"uid-1\"}]},\
        \"spec\":{\"backoffLimit\":2,\"template\":{\
        \"metadata\":{\"labels\":{\"app\":\"hello\"},\"name\":\"job1\"},\
        \"spec\":{\"containers\":[{\"args\":[\"-g\",\"daemon off;\"],\"command\":[\"nginx\"],\
        \"env\":[{\"name\":\"MODE\",\"value\":\"fast\"}],\"image\":\"nginx:1.17\",\"name\":\"web\",\
        \"ports\":[{\"containerPort\":80,\"name\":\"http\",\"protocol\":\"TCP\"},\
        {\"containerPort\":53,\"name\":\"dns\",\"protocol\":\"UDP\"}],\
        \"resources\":{\"limits\":{\"cpu\":\"500m\",\"memory\":\"128Mi\"}}}],\
        \"restartPolicy\":\"OnFailure\"}}}}";
    assert_eq!(parsed(&body), expected(text));
}

#[test]
fn deployment_document() {
    let deployment = DeploymentResource {
        metadata: metadata(),
        replicas: 3,
        selector: vec![Label { key: "app".to_string(), value: "hello".to_string() }],
        strategy: UpdateStrategy::Recreate,
        template: template(bare_container(), RestartPolicy::Always),
    };
    let body = NativeResource::Replicated(deployment).to_json().unwrap();
    let text = "{\"apiVersion\":\"apps/v1\",\"kind\":\"Deployment\",\
        \"metadata\":{\"labels\":{\"app\":\"hello\"},\"name\":\"job1\"},\
        \"spec\":{\"replicas\":3,\"selector\":{\"matchLabels\":{\"app\":\"hello\"}},\
        \"strategy\":{\"type\":\"Recreate\"},\"template\":{\
        \"metadata\":{\"labels\":{\"app\":\"hello\"},\"name\":\"job1\"},\
        \"spec\":{\"containers\":[{\"image\":\"busybox\",\"name\":\"hello\"}],\
        \"restartPolicy\":\"Always\"}}}}";
    assert_eq!(parsed(&body), expected(text));
}

#[test]
fn lowered_metadata_holds_name_labels_and_owners() {
    let mut metadata = metadata();
    metadata.labels.push(Label { key: "tier".to_string(), value: "web".to_string() });
    metadata.owner_references = Some(vec![
        OwnerRef {
            api_version: "v1".to_string(),
            kind: "Parent".to_string(),
            name: "p1".to_string(),
            uid: "u1".to_string(),
            controller: Some(false),
            block_owner_deletion: Some(true),
        },
        OwnerRef {
            api_version: "v2".to_string(),
            kind: "Grandparent".to_string(),
            name: "p2".to_string(),
            uid: "u2".to_string(),
            controller: None,
            block_owner_deletion: None,
        },
    ]);
    let lowered = metadata.lower();
    assert_eq!(lowered.name, Some("job1".to_string()));
    let labels = lowered.labels.unwrap();
    assert_eq!(labels.len(), 2);
    assert_eq!(labels.get("app"), Some(&"hello".to_string()));
    assert_eq!(labels.get("tier"), Some(&"web".to_string()));
    let owners = lowered.owner_references.unwrap();
    assert_eq!(owners.len(), 2);
    assert_eq!(owners[0].api_version, "v1");
    assert_eq!(owners[0].kind, "Parent");
    assert_eq!(owners[0].name, "p1");
    assert_eq!(owners[0].uid, "u1");
    assert_eq!(owners[0].controller, Some(false));
    assert_eq!(owners[0].block_owner_deletion, Some(true));
    assert_eq!(owners[1].kind, "Grandparent");
    assert_eq!(owners[1].controller, None);
    assert_eq!(lowered.namespace, None);
    assert_eq!(lowered.annotations, None);
}

#[test]
fn lowered_metadata_without_owners() {
    let lowered = metadata().lower();
    assert_eq!(lowered.owner_references, None);
    let mut with_empty_chain = metadata();
    with_empty_chain.owner_references = Some(vec![]);
    assert_eq!(with_empty_chain.lower().owner_references, Some(vec![]));
}

#[test]
fn lowered_container_leaves_empty_lists_out() {
    let lowered = bare_container().lower();
    assert_eq!(lowered.name, "hello");
    assert_eq!(lowered.image, Some("busybox".to_string()));
    assert_eq!(lowered.command, None);
    assert_eq!(lowered.args, None);
    assert_eq!(lowered.env, None);
    assert_eq!(lowered.ports, None);
    assert_eq!(lowered.resources, None);
}

#[test]
fn lowered_container_holds_every_field() {
    let lowered = full_container().lower();
    assert_eq!(lowered.name, "web");
    assert_eq!(lowered.image, Some("nginx:1.17".to_string()));
    assert_eq!(lowered.command, Some(vec!["nginx".to_string()]));
    assert_eq!(lowered.args, Some(vec!["-g".to_string(), "daemon off;".to_string()]));
    let env = lowered.env.unwrap();
    assert_eq!(env.len(), 1);
    assert_eq!(env[0].name, "MODE");
    assert_eq!(env[0].value, Some("fast".to_string()));
    assert_eq!(env[0].value_from, None);
    let ports = lowered.ports.unwrap();
    assert_eq!(ports.len(), 2);
    assert_eq!(ports[0].container_port, 80);
    assert_eq!(ports[0].name, Some("http".to_string()));
    assert_eq!(ports[0].protocol, Some("TCP".to_string()));
    assert_eq!(ports[1].container_port, 53);
    assert_eq!(ports[1].protocol, Some("UDP".to_string()));
    let resources = lowered.resources.unwrap();
    assert_eq!(resources.requests, None);
    let limits = resources.limits.unwrap();
    assert_eq!(limits.len(), 2);
    assert_eq!(limits.get("cpu").map(|q| q.0.clone()), Some("500m".to_string()));
    assert_eq!(limits.get("memory").map(|q| q.0.clone()), Some("128Mi".to_string()));
}

#[test]
fn limits_come_in_order_and_only_where_given() {
    let none = Resources { cpu: None, memory: None };
    assert_eq!(none.limits().len(), 0);
    let memory_only = Resources { cpu: None, memory: Some("1Gi".to_string()) };
    let limits = memory_only.limits();
    assert_eq!(limits.len(), 1);
    assert_eq!(limits[0].resource, "memory");
    assert_eq!(limits[0].quantity, "1Gi");
    let both = Resources { cpu: Some("2".to_string()), memory: Some("1Gi".to_string()) };
    let limits = both.limits();
    assert_eq!(limits.len(), 2);
    assert_eq!(limits[0].resource, "cpu");
    assert_eq!(limits[0].quantity, "2");
    assert_eq!(limits[1].resource, "memory");
}

#[test]
fn lowered_pod_and_template() {
    let pod = PodDefinition {
        containers: vec![bare_container(), full_container()],
        restart_policy: RestartPolicy::Never,
    };
    let lowered = pod.lower();
    assert_eq!(lowered.containers.len(), 2);
    assert_eq!(lowered.containers[0].name, "hello");
    assert_eq!(lowered.containers[1].name, "web");
    assert_eq!(lowered.restart_policy, Some("Never".to_string()));
    let lowered = template(bare_container(), RestartPolicy::Always).lower();
    assert_eq!(lowered.metadata.unwrap().name, Some("job1".to_string()));
    assert_eq!(lowered.spec.unwrap().restart_policy, Some("Always".to_string()));
}

#[test]
fn lowered_job_and_deployment() {
    let job = JobResource {
        metadata: metadata(),
        backoff_limit: 4,
        template: template(bare_container(), RestartPolicy::Never),
    };
    let lowered = job.lower();
    assert_eq!(lowered.metadata.unwrap().name, Some("job1".to_string()));
    assert_eq!(lowered.status, None);
    let spec = lowered.spec.unwrap();
    assert_eq!(spec.backoff_limit, Some(4));
    assert_eq!(spec.completions, None);
    assert_eq!(spec.template.spec.unwrap().containers[0].image, Some("busybox".to_string()));

    let deployment = DeploymentResource {
        metadata: metadata(),
        replicas: 0,
        selector: vec![Label { key: "app".to_string(), value: "hello".to_string() }],
        strategy: UpdateStrategy::RollingUpdate,
        template: template(bare_container(), RestartPolicy::Always),
    };
    let lowered = deployment.lower();
    let spec = lowered.spec.unwrap();
    assert_eq!(spec.replicas, Some(0));
    assert_eq!(
        spec.selector.match_labels.unwrap().get("app"),
        Some(&"hello".to_string())
    );
    assert_eq!(spec.selector.match_expressions, None);
    assert_eq!(spec.strategy.unwrap().type_, Some("RollingUpdate".to_string()));
    assert_eq!(spec.template.metadata.unwrap().name, Some("job1".to_string()));
}

#[test]
fn words_of_the_policies() {
    assert_eq!(RestartPolicy::Always.name(), "Always");
    assert_eq!(RestartPolicy::OnFailure.name(), "OnFailure");
    assert_eq!(RestartPolicy::Never.name(), "Never");
    assert_eq!(Protocol::Tcp.name(), "TCP");
    assert_eq!(Protocol::Udp.name(), "UDP");
    assert_eq!(UpdateStrategy::RollingUpdate.name(), "RollingUpdate");
    assert_eq!(UpdateStrategy::Recreate.name(), "Recreate");
}

#[test]
fn targets_of_the_shapes() {
    let job = NativeResource::RunToCompletion(JobResource {
        metadata: metadata(),
        backoff_limit: 4,
        template: template(bare_container(), RestartPolicy::Never),
    });
    let target = job.target(&"default".to_string());
    assert_eq!(target.group, "batch");
    assert_eq!(target.version, "v1");
    assert_eq!(target.resource, "jobs");
    assert_eq!(target.prefix, "apis");
    assert_eq!(target.namespace, "default");
    assert_eq!(job.name(), "job1");

    let deployment = NativeResource::Replicated(DeploymentResource {
        metadata: metadata(),
        replicas: 1,
        selector: vec![],
        strategy: UpdateStrategy::RollingUpdate,
        template: template(bare_container(), RestartPolicy::Always),
    });
    let target = deployment.target(&"prod".to_string());
    assert_eq!(target.group, "apps");
    assert_eq!(target.version, "v1");
    assert_eq!(target.resource, "deployments");
    assert_eq!(target.prefix, "apis");
    assert_eq!(target.namespace, "prod");
    let submission = deployment.submission(&"prod".to_string()).unwrap();
    assert_eq!(submission.target, target);
    assert_eq!(submission.name, "job1");
    assert_eq!(submission.body, deployment.to_json().unwrap());
}

#[test]
fn metadata_from_identity() {
    let identity = InstanceIdentity {
        namespace: "default".to_string(),
        component_name: "hello".to_string(),
        instance_name: "job1".to_string(),
        owner_ref: None,
    };
    let labels = identity.labels();
    assert_eq!(labels, vec![Label { key: "app".to_string(), value: "hello".to_string() }]);
    assert_eq!(identity.metadata(&labels), metadata());
    let other = vec![Label { key: "k".to_string(), value: "v".to_string() }];
    assert_eq!(identity.metadata(&other).labels, other);
}
