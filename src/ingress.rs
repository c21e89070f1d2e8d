use vstd::prelude::*;

verus! {

/// One path of an HTTP ingress rule, routed to a service port.
pub struct IngressPath {
    pub path: Option<String>,
    /// `Exact`, `Prefix` or `ImplementationSpecific`.
    pub path_type: String,
    pub service_name: String,
    pub service_port: u32,
}

/// One ingress rule: its HTTP paths, when it has any.
pub struct IngressRule {
    pub http: Option<Vec<IngressPath>>,
}

/// One address that the platform's load balancer assigned to an ingress.
pub struct LoadBalancerEntry {
    pub ip: Option<String>,
    pub hostname: Option<String>,
}

/// A network ingress point: its rules, and the addresses reported in its status.
pub struct IngressManifest {
    pub name: String,
    pub namespace: String,
    /// Target that a matched path is rewritten to by the ingress controller.
    pub rewrite_target: String,
    pub rules: Option<Vec<IngressRule>>,
    pub load_balancer: Option<Vec<LoadBalancerEntry>>,
}

/// The ingress of an H2O cluster named `name`: one exact-match path `/<name>`,
/// rewritten to the root and routed to port 80 of the cluster's service.
pub open spec fn is_h2o_ingress(r: IngressManifest, name: Seq<char>, namespace: Seq<char>) -> bool {
    &&& r.name@ == name + "-ingress"@
    &&& r.namespace@ == namespace
    &&& r.rewrite_target@ == "/$2"@
    &&& r.load_balancer is None
    &&& r.rules matches Some(rules) && rules@.len() == 1
    &&& r.rules->Some_0@[0].http matches Some(paths) && paths@.len() == 1
    &&& r.rules->Some_0@[0].http->Some_0@[0].path matches Some(p) && p@ == "/"@ + name
    &&& r.rules->Some_0@[0].http->Some_0@[0].path_type@ == "Exact"@
    &&& r.rules->Some_0@[0].http->Some_0@[0].service_name@ == name + "-service"@
    &&& r.rules->Some_0@[0].http->Some_0@[0].service_port == 80
}

/// The address of the last load-balancer entry, if the status reports one.
pub open spec fn last_ip(i: IngressManifest) -> Option<String> {
    match i.load_balancer {
        Some(entries) => if entries@.len() > 0 {
            entries@.last().ip
        } else {
            None
        },
        None => None,
    }
}

/// The path of the last HTTP path of the last rule, if there is one.
pub open spec fn last_path(i: IngressManifest) -> Option<String> {
    match i.rules {
        Some(rules) => if rules@.len() > 0 {
            match rules@.last().http {
                Some(paths) => if paths@.len() > 0 {
                    paths@.last().path
                } else {
                    None
                },
                None => None,
            }
        } else {
            None
        },
        None => None,
    }
}

/// The ingress of the H2O cluster named `name` in `namespace`.
pub fn h2o_ingress(name: &str, namespace: &str) -> (r: IngressManifest)
    ensures
        is_h2o_ingress(r, name@, namespace@),
{
    let path = IngressPath {
        path: Some(String::from_str("/").concat(name)),
        path_type: String::from_str("Exact"),
        service_name: String::from_str(name).concat("-service"),
        service_port: 80,
    };
    let mut paths: Vec<IngressPath> = Vec::new();
    paths.push(path);
    let mut rules: Vec<IngressRule> = Vec::new();
    rules.push(IngressRule { http: Some(paths) });
    IngressManifest {
        name: String::from_str(name).concat("-ingress"),
        namespace: String::from_str(namespace),
        rewrite_target: String::from_str("/$2"),
        rules: Some(rules),
        load_balancer: None,
    }
}

fn clone_opt(s: &Option<String>) -> (r: Option<String>)
    ensures
        r == *s,
{
    match s {
        Some(v) => Some(v.clone()),
        None => None,
    }
}

/// The IP of the last address that the ingress's status reports, if any.
pub fn any_ip(ingress: &IngressManifest) -> (r: Option<String>)
    ensures
        r == last_ip(*ingress),
{
    match &ingress.load_balancer {
        Some(entries) => {
            let n = entries.len();
            if n == 0 {
                None
            } else {
                clone_opt(&entries[n - 1].ip)
            }
        },
        None => None,
    }
}

/// The path of the last HTTP path of the ingress's last rule, if any.
pub fn any_path(ingress: &IngressManifest) -> (r: Option<String>)
    ensures
        r == last_path(*ingress),
{
    match &ingress.rules {
        Some(rules) => {
            let n = rules.len();
            if n == 0 {
                return None;
            }
            match &rules[n - 1].http {
                Some(paths) => {
                    let m = paths.len();
                    if m == 0 {
                        None
                    } else {
                        clone_opt(&paths[m - 1].path)
                    }
                },
                None => None,
            }
        },
        None => None,
    }
}

/// Ingress generation is a function of its inputs: two ingresses generated for the
/// same identity have the same names, rewrite target, rules, paths and backends.
pub proof fn lemma_ingress_deterministic(
    name: Seq<char>,
    namespace: Seq<char>,
    first: IngressManifest,
    second: IngressManifest,
)
    requires
        is_h2o_ingress(first, name, namespace),
        is_h2o_ingress(second, name, namespace),
    ensures
        first.name@ == second.name@,
        first.namespace@ == second.namespace@,
        first.rewrite_target@ == second.rewrite_target@,
        first.load_balancer == second.load_balancer,
        first.rules->Some_0@.len() == second.rules->Some_0@.len() == 1,
        ({
            let p = first.rules->Some_0@[0].http->Some_0@;
            let q = second.rules->Some_0@[0].http->Some_0@;
            &&& p.len() == q.len() == 1
            &&& p[0].path->Some_0@ == q[0].path->Some_0@
            &&& p[0].path_type@ == q[0].path_type@
            &&& p[0].service_name@ == q[0].service_name@
            &&& p[0].service_port == q[0].service_port
        }),
{
}

} // verus!
