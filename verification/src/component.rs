//! The component definition: the resolved description of one process, and
//! the pod-level specification derived from it.

use vstd::prelude::*;

verus! {

/// What the orchestrator does when a pod's process exits.
#[derive(Clone, Copy, Debug, PartialEq, Eq, Structural)]
pub enum RestartPolicy {
    Always,
    OnFailure,
    Never,
}

/// The transport protocol of a declared port.
#[derive(Clone, Copy, Debug, PartialEq, Eq, Structural)]
pub enum Protocol {
    Tcp,
    Udp,
}

/// A port that the process listens on.
#[derive(Debug, PartialEq, Eq)]
pub struct Port {
    pub name: String,
    pub container_port: i32,
    pub protocol: Protocol,
}

/// The mathematical value of a [`Port`].
pub ghost struct PortView {
    pub name: Seq<char>,
    pub container_port: i32,
    pub protocol: Protocol,
}

impl View for Port {
    type V = PortView;

    open spec fn view(&self) -> PortView {
        PortView { name: self.name@, container_port: self.container_port, protocol: self.protocol }
    }
}

impl DeepView for Port {
    type V = PortView;

    open spec fn deep_view(&self) -> PortView {
        self@
    }
}

impl Clone for Port {
    fn clone(&self) -> (out: Self)
        ensures
            out@ == self@,
    {
        Port {
            name: self.name.clone(),
            container_port: self.container_port,
            protocol: self.protocol,
        }
    }
}

/// One variable of the process's environment.
#[derive(Debug, PartialEq, Eq)]
pub struct EnvEntry {
    pub name: String,
    pub value: String,
}

/// The mathematical value of an [`EnvEntry`].
pub ghost struct EnvEntryView {
    pub name: Seq<char>,
    pub value: Seq<char>,
}

impl View for EnvEntry {
    type V = EnvEntryView;

    open spec fn view(&self) -> EnvEntryView {
        EnvEntryView { name: self.name@, value: self.value@ }
    }
}

impl DeepView for EnvEntry {
    type V = EnvEntryView;

    open spec fn deep_view(&self) -> EnvEntryView {
        self@
    }
}

impl Clone for EnvEntry {
    fn clone(&self) -> (out: Self)
        ensures
            out@ == self@,
    {
        EnvEntry { name: self.name.clone(), value: self.value.clone() }
    }
}

/// The most of each resource that the process may use; an absent entry
/// sets no limit.
#[derive(Debug, PartialEq, Eq)]
pub struct Resources {
    pub cpu: Option<String>,
    pub memory: Option<String>,
}

/// The mathematical value of [`Resources`].
pub ghost struct ResourcesView {
    pub cpu: Option<Seq<char>>,
    pub memory: Option<Seq<char>>,
}

impl View for Resources {
    type V = ResourcesView;

    open spec fn view(&self) -> ResourcesView {
        ResourcesView { cpu: self.cpu.deep_view(), memory: self.memory.deep_view() }
    }
}

impl Clone for Resources {
    fn clone(&self) -> (out: Self)
        ensures
            out@ == self@,
    {
        Resources { cpu: self.cpu.clone(), memory: self.memory.clone() }
    }
}

/// A limit on one resource: the resource's name and the most of it that
/// may be used.
#[derive(Debug, PartialEq, Eq)]
pub struct Limit {
    pub resource: String,
    pub quantity: String,
}

impl DeepView for Limit {
    type V = (Seq<char>, Seq<char>);

    open spec fn deep_view(&self) -> (Seq<char>, Seq<char>) {
        (self.resource@, self.quantity@)
    }
}

/// One container of a pod.
#[derive(Debug, PartialEq, Eq)]
pub struct ContainerSpec {
    pub name: String,
    pub image: String,
    pub command: Vec<String>,
    pub args: Vec<String>,
    pub ports: Vec<Port>,
    pub env: Vec<EnvEntry>,
    pub resources: Resources,
}

/// The mathematical value of a [`ContainerSpec`].
pub ghost struct ContainerSpecView {
    pub name: Seq<char>,
    pub image: Seq<char>,
    pub command: Seq<Seq<char>>,
    pub args: Seq<Seq<char>>,
    pub ports: Seq<PortView>,
    pub env: Seq<EnvEntryView>,
    pub resources: ResourcesView,
}

impl View for ContainerSpec {
    type V = ContainerSpecView;

    open spec fn view(&self) -> ContainerSpecView {
        ContainerSpecView {
            name: self.name@,
            image: self.image@,
            command: self.command.deep_view(),
            args: self.args.deep_view(),
            ports: self.ports.deep_view(),
            env: self.env.deep_view(),
            resources: self.resources@,
        }
    }
}

impl DeepView for ContainerSpec {
    type V = ContainerSpecView;

    open spec fn deep_view(&self) -> ContainerSpecView {
        self@
    }
}

/// The pod-level specification: what runs, and what happens when it exits.
#[derive(Debug, PartialEq, Eq)]
pub struct PodDefinition {
    pub containers: Vec<ContainerSpec>,
    pub restart_policy: RestartPolicy,
}

/// The mathematical value of a [`PodDefinition`].
pub ghost struct PodDefinitionView {
    pub containers: Seq<ContainerSpecView>,
    pub restart_policy: RestartPolicy,
}

impl View for PodDefinition {
    type V = PodDefinitionView;

    open spec fn view(&self) -> PodDefinitionView {
        PodDefinitionView {
            containers: self.containers.deep_view(),
            restart_policy: self.restart_policy,
        }
    }
}

/// The resolved, parameter-free description of a single process.
#[derive(Debug, PartialEq, Eq)]
pub struct Component {
    /// The name under which the process runs in its pod.
    pub name: String,
    /// The declared workload kind.
    pub workload_type: String,
    pub image: String,
    pub command: Vec<String>,
    pub args: Vec<String>,
    pub ports: Vec<Port>,
    pub env: Vec<EnvEntry>,
    pub resources: Resources,
    /// The declared number of replicas, where one is declared.
    pub replicas: Option<i32>,
}

/// The mathematical value of a [`Component`].
pub ghost struct ComponentView {
    pub name: Seq<char>,
    pub workload_type: Seq<char>,
    pub image: Seq<char>,
    pub command: Seq<Seq<char>>,
    pub args: Seq<Seq<char>>,
    pub ports: Seq<PortView>,
    pub env: Seq<EnvEntryView>,
    pub resources: ResourcesView,
    pub replicas: Option<i32>,
}

impl View for Component {
    type V = ComponentView;

    open spec fn view(&self) -> ComponentView {
        ComponentView {
            name: self.name@,
            workload_type: self.workload_type@,
            image: self.image@,
            command: self.command.deep_view(),
            args: self.args.deep_view(),
            ports: self.ports.deep_view(),
            env: self.env.deep_view(),
            resources: self.resources@,
            replicas: self.replicas,
        }
    }
}

/// A copy of a list of ports.
fn copy_ports(ports: &Vec<Port>) -> (out: Vec<Port>)
    ensures
        out.deep_view() == ports.deep_view(),
{
    let mut out: Vec<Port> = Vec::new();
    let mut i: usize = 0;
    while i < ports.len()
        invariant
            i <= ports.len(),
            out.len() == i,
            forall|j: int| 0 <= j < i ==> out[j]@ == ports[j]@,
        decreases ports.len() - i,
    {
        out.push(ports[i].clone());
        i = i + 1;
    }
    assert(out.deep_view() =~= ports.deep_view());
    out
}

/// A copy of an environment.
fn copy_env(env: &Vec<EnvEntry>) -> (out: Vec<EnvEntry>)
    ensures
        out.deep_view() == env.deep_view(),
{
    let mut out: Vec<EnvEntry> = Vec::new();
    let mut i: usize = 0;
    while i < env.len()
        invariant
            i <= env.len(),
            out.len() == i,
            forall|j: int| 0 <= j < i ==> out[j]@ == env[j]@,
        decreases env.len() - i,
    {
        out.push(env[i].clone());
        i = i + 1;
    }
    assert(out.deep_view() =~= env.deep_view());
    out
}

/// A copy of a list of strings.
fn copy_strings(strings: &Vec<String>) -> (out: Vec<String>)
    ensures
        out.deep_view() == strings.deep_view(),
{
    let out = strings.clone();
    assert(out.deep_view() =~= strings.deep_view());
    out
}

impl Clone for Component {
    fn clone(&self) -> (out: Self)
        ensures
            out@ == self@,
    {
        Component {
            name: self.name.clone(),
            workload_type: self.workload_type.clone(),
            image: self.image.clone(),
            command: copy_strings(&self.command),
            args: copy_strings(&self.args),
            ports: copy_ports(&self.ports),
            env: copy_env(&self.env),
            resources: self.resources.clone(),
            replicas: self.replicas,
        }
    }
}

/// The one container that runs the component's process.
pub open spec fn component_container(component: ComponentView) -> ContainerSpecView {
    ContainerSpecView {
        name: component.name,
        image: component.image,
        command: component.command,
        args: component.args,
        ports: component.ports,
        env: component.env,
        resources: component.resources,
    }
}

/// The pod that runs the component's process under the given restart
/// policy: a single container, made of the component's fields.
pub open spec fn component_pod_spec(
    component: ComponentView,
    policy: RestartPolicy,
) -> PodDefinitionView {
    PodDefinitionView { containers: seq![component_container(component)], restart_policy: policy }
}

impl Component {
    /// The pod-level specification of this component, with the restart
    /// policy that the workload kind calls for.
    pub fn to_pod_spec_with_policy(&self, policy: RestartPolicy) -> (out: PodDefinition)
        ensures
            out@ == component_pod_spec(self@, policy),
    {
        let container = ContainerSpec {
            name: self.name.clone(),
            image: self.image.clone(),
            command: copy_strings(&self.command),
            args: copy_strings(&self.args),
            ports: copy_ports(&self.ports),
            env: copy_env(&self.env),
            resources: self.resources.clone(),
        };
        let mut containers: Vec<ContainerSpec> = Vec::new();
        containers.push(container);
        assert(containers.deep_view() =~= seq![component_container(self@)]);
        PodDefinition { containers, restart_policy: policy }
    }
}

} // verus!
