use vstd::prelude::*;

use crate::crd::H2OSpec;
use crate::numtext::{decimal, u32_to_string};

verus! {

/// Repository of the official H2O image for Kubernetes; a version is its tag.
pub const OFFICIAL_IMAGE: &'static str = "h2oai/h2o-open-source-k8s";

/// Share of the pod's memory that the JVM takes when the specification sets none.
pub const DEFAULT_MEMORY_PERCENTAGE: u8 = 50;

/// Port on which H2O serves its API inside the pod.
pub const H2O_PORT: u32 = 54321;

/// Port of the Kubernetes assisted-clustering API inside the pod; it serves the readiness probe.
pub const CLUSTERING_API_PORT: u32 = 8081;

/// Path of the readiness probe: only the leader node reports ready.
pub const READINESS_PATH: &'static str = "/kubernetes/isLeaderNode";

/// A name/value pair of the container's environment.
pub struct EnvVar {
    pub name: String,
    pub value: String,
}

/// CPU and memory amounts, as platform quantity texts.
pub struct ResourceAmounts {
    pub cpu: String,
    pub memory: String,
}

/// The stateful pod group that runs one H2O node per pod.
pub struct StatefulSetManifest {
    pub name: String,
    pub namespace: String,
    /// The headless service that the pods are reached through.
    pub service_name: String,
    pub replicas: u32,
    /// Value of the `app` label that selects the pods.
    pub app_label: String,
    pub container_name: String,
    pub image: String,
    pub command: Vec<String>,
    pub limits: ResourceAmounts,
    pub requests: ResourceAmounts,
    pub env: Vec<EnvVar>,
}

/// What a stateful-set manifest says, as plain sequences.
pub struct WorkloadModel {
    pub name: Seq<char>,
    pub namespace: Seq<char>,
    pub service_name: Seq<char>,
    pub replicas: u32,
    pub app_label: Seq<char>,
    pub container_name: Seq<char>,
    pub image: Seq<char>,
    pub command: Seq<Seq<char>>,
    /// `(cpu, memory)`
    pub limits: (Seq<char>, Seq<char>),
    /// `(cpu, memory)`
    pub requests: (Seq<char>, Seq<char>),
    /// `(name, value)` pairs, in order.
    pub env: Seq<(Seq<char>, Seq<char>)>,
}

impl View for StatefulSetManifest {
    type V = WorkloadModel;

    open spec fn view(&self) -> WorkloadModel {
        WorkloadModel {
            name: self.name@,
            namespace: self.namespace@,
            service_name: self.service_name@,
            replicas: self.replicas,
            app_label: self.app_label@,
            container_name: self.container_name@,
            image: self.image@,
            command: self.command@.map_values(|s: String| s@),
            limits: (self.limits.cpu@, self.limits.memory@),
            requests: (self.requests.cpu@, self.requests.memory@),
            env: self.env@.map_values(|e: EnvVar| (e.name@, e.value@)),
        }
    }
}

/// DNS name of the cluster's headless service, through which the nodes find each other.
pub open spec fn service_dns(name: Seq<char>, namespace: Seq<char>) -> Seq<char> {
    name + "-service."@ + namespace + ".svc.cluster.local"@
}

/// Command that starts H2O in the official image, with the JVM taking `percentage`
/// percent of the container's memory.
pub open spec fn jvm_command(percentage: nat) -> Seq<Seq<char>> {
    seq![
        "/bin/bash"@,
        "-c"@,
        "java -XX:+UseContainerSupport -XX:MaxRAMPercentage="@ + decimal(percentage)
            + " -jar /opt/h2oai/h2o-3/h2o.jar"@,
    ]
}

/// The manifest for a cluster named `name` in `namespace`, running `command` in `image`
/// on `nodes` pods with `cpu` CPUs and `memory` each, as limit and as request alike.
pub open spec fn workload_model(
    name: Seq<char>,
    namespace: Seq<char>,
    image: Seq<char>,
    command: Seq<Seq<char>>,
    nodes: u32,
    memory: Seq<char>,
    cpu: u32,
) -> WorkloadModel {
    WorkloadModel {
        name: name + "-stateful-set"@,
        namespace,
        service_name: name + "-service"@,
        replicas: nodes,
        app_label: name,
        container_name: name,
        image,
        command,
        limits: (decimal(cpu as nat), memory),
        requests: (decimal(cpu as nat), memory),
        env: seq![
            ("H2O_KUBERNETES_SERVICE_DNS"@, service_dns(name, namespace)),
            ("H2O_NODE_LOOKUP_TIMEOUT"@, "180"@),
            ("H2O_NODE_EXPECTED_COUNT"@, decimal(nodes as nat)),
            ("H2O_KUBERNETES_API_PORT"@, "8081"@),
        ],
    }
}

pub open spec fn memory_percentage_of(spec: H2OSpec) -> nat {
    match spec.resources.memory_percentage {
        Some(p) => p as nat,
        None => DEFAULT_MEMORY_PERCENTAGE as nat,
    }
}

/// The image of a specification: the official one tagged with the version, else the custom one.
pub open spec fn image_of(spec: H2OSpec) -> Seq<char> {
    match spec.version {
        Some(v) => OFFICIAL_IMAGE@ + ":"@ + v@,
        None => spec.custom_image->Some_0.image@,
    }
}

/// The command of a specification: with a custom image and no version, the custom
/// image's own command run by the shell, if it has one; else the command that starts
/// H2O in the official layout.
pub open spec fn command_of(spec: H2OSpec) -> Seq<Seq<char>> {
    match (spec.version, spec.custom_image) {
        (None, Some(ci)) => match ci.command {
            Some(c) => seq!["/bin/bash"@, "-c"@, c@],
            None => jvm_command(memory_percentage_of(spec)),
        },
        _ => jvm_command(memory_percentage_of(spec)),
    }
}

/// The workload that a cluster specification asks for.
pub open spec fn workload_of(name: Seq<char>, namespace: Seq<char>, spec: H2OSpec) -> WorkloadModel {
    workload_model(
        name,
        namespace,
        image_of(spec),
        command_of(spec),
        spec.nodes,
        spec.resources.memory@,
        spec.resources.cpu,
    )
}

fn env_var(name: &str, value: String) -> (r: EnvVar)
    ensures
        r.name@ == name@,
        r.value@ == value@,
{
    EnvVar { name: String::from_str(name), value }
}

fn shell_command(script: String) -> (r: Vec<String>)
    ensures
        r@.map_values(|s: String| s@) == seq!["/bin/bash"@, "-c"@, script@],
{
    let mut v: Vec<String> = Vec::new();
    v.push(String::from_str("/bin/bash"));
    v.push(String::from_str("-c"));
    v.push(script);
    assert(v@.map_values(|s: String| s@) =~= seq!["/bin/bash"@, "-c"@, script@]);
    v
}

fn start_command(memory_percentage: u8) -> (r: Vec<String>)
    ensures
        r@.map_values(|s: String| s@) == jvm_command(memory_percentage as nat),
{
    let script = String::from_str("java -XX:+UseContainerSupport -XX:MaxRAMPercentage=")
        .concat(u32_to_string(memory_percentage as u32).as_str())
        .concat(" -jar /opt/h2oai/h2o-3/h2o.jar");
    shell_command(script)
}

fn workload_manifest(
    name: &str,
    namespace: &str,
    image: String,
    command: Vec<String>,
    nodes: u32,
    memory: &str,
    num_cpu: u32,
) -> (r: StatefulSetManifest)
    ensures
        r@ == workload_model(
            name@,
            namespace@,
            image@,
            command@.map_values(|s: String| s@),
            nodes,
            memory@,
            num_cpu,
        ),
{
    let mut env: Vec<EnvVar> = Vec::new();
    let dns = String::from_str(name).concat("-service.").concat(namespace).concat(
        ".svc.cluster.local",
    );
    env.push(env_var("H2O_KUBERNETES_SERVICE_DNS", dns));
    env.push(env_var("H2O_NODE_LOOKUP_TIMEOUT", String::from_str("180")));
    env.push(env_var("H2O_NODE_EXPECTED_COUNT", u32_to_string(nodes)));
    env.push(env_var("H2O_KUBERNETES_API_PORT", String::from_str("8081")));
    let r = StatefulSetManifest {
        name: String::from_str(name).concat("-stateful-set"),
        namespace: String::from_str(namespace),
        service_name: String::from_str(name).concat("-service"),
        replicas: nodes,
        app_label: String::from_str(name),
        container_name: String::from_str(name),
        image,
        command,
        limits: ResourceAmounts { cpu: u32_to_string(num_cpu), memory: String::from_str(memory) },
        requests: ResourceAmounts { cpu: u32_to_string(num_cpu), memory: String::from_str(memory) },
        env,
    };
    assert(r@.env =~= workload_model(
        name@,
        namespace@,
        image@,
        command@.map_values(|s: String| s@),
        nodes,
        memory@,
        num_cpu,
    ).env);
    r
}

/// The stateful set of an H2O cluster run from image `docker_img_name:docker_img_tag`.
pub fn h2o_stateful_set(
    name: &str,
    namespace: &str,
    docker_img_name: &str,
    docker_img_tag: &str,
    nodes: u32,
    memory_percentage: u8,
    memory: &str,
    num_cpu: u32,
) -> (r: StatefulSetManifest)
    ensures
        r@ == workload_model(
            name@,
            namespace@,
            docker_img_name@ + ":"@ + docker_img_tag@,
            jvm_command(memory_percentage as nat),
            nodes,
            memory@,
            num_cpu,
        ),
{
    let image = String::from_str(docker_img_name).concat(":").concat(docker_img_tag);
    workload_manifest(name, namespace, image, start_command(memory_percentage), nodes, memory, num_cpu)
}

/// The stateful set that a cluster specification asks for. A validated specification
/// always names an image; when it names both, the version wins.
pub fn build_workload(name: &str, namespace: &str, spec: &H2OSpec) -> (r: StatefulSetManifest)
    requires
        spec.version is Some || spec.custom_image is Some,
    ensures
        r@ == workload_of(name@, namespace@, *spec),
{
    let percentage = match spec.resources.memory_percentage {
        Some(p) => p,
        None => DEFAULT_MEMORY_PERCENTAGE,
    };
    let memory = spec.resources.memory.as_str();
    match &spec.version {
        Some(v) => h2o_stateful_set(
            name,
            namespace,
            OFFICIAL_IMAGE,
            v.as_str(),
            spec.nodes,
            percentage,
            memory,
            spec.resources.cpu,
        ),
        None => {
            let ci = spec.custom_image.as_ref().unwrap();
            let command = match &ci.command {
                Some(c) => shell_command(c.clone()),
                None => start_command(percentage),
            };
            workload_manifest(
                name,
                namespace,
                ci.image.clone(),
                command,
                spec.nodes,
                memory,
                spec.resources.cpu,
            )
        },
    }
}

/// In every workload generated from a specification, the resource limits equal the
/// resource requests: the specification's CPU count and memory.
pub proof fn lemma_limits_equal_requests(name: Seq<char>, namespace: Seq<char>, spec: H2OSpec)
    ensures
        workload_of(name, namespace, spec).limits == workload_of(name, namespace, spec).requests,
        workload_of(name, namespace, spec).limits == (
            decimal(spec.resources.cpu as nat),
            spec.resources.memory@,
        ),
{
}

/// Workload generation is a function of its inputs: two manifests built from the
/// same identity and specification say the same thing.
pub proof fn lemma_workload_deterministic(
    name: Seq<char>,
    namespace: Seq<char>,
    spec: H2OSpec,
    first: StatefulSetManifest,
    second: StatefulSetManifest,
)
    requires
        first@ == workload_of(name, namespace, spec),
        second@ == workload_of(name, namespace, spec),
    ensures
        first@ == second@,
{
}

} // verus!
