use h2o_kubernetes::crd::{CustomImage, H2OSpec, Resources};
use h2o_kubernetes::ingress::{any_ip, any_path, h2o_ingress, IngressManifest, LoadBalancerEntry};
use h2o_kubernetes::statefulset::{build_workload, h2o_stateful_set, StatefulSetManifest};

fn env_value(s: &StatefulSetManifest, name: &str) -> Option<String> {
    s.env.iter().find(|e| e.name == name).map(|e| e.value.clone())
}

fn versioned(nodes: u32, cpu: u32, memory: &str, version: &str) -> H2OSpec {
    let resources = Resources::new(cpu, memory.to_string(), None).unwrap();
    H2OSpec::new(nodes, Some(version.to_string()), resources, None).unwrap()
}

#[test]
fn scenario_three_nodes() {
    let spec = versioned(3, 2, "4Gi", "3.44");
    let s = build_workload("h2o-test", "default", &spec);
    assert_eq!(s.replicas, 3);
    assert_eq!(s.limits.cpu, "2");
    assert_eq!(s.limits.memory, "4Gi");
    assert_eq!(s.requests.cpu, "2");
    assert_eq!(s.requests.memory, "4Gi");
    assert_eq!(env_value(&s, "H2O_NODE_EXPECTED_COUNT"), Some("3".to_string()));
    assert_eq!(s.name, "h2o-test-stateful-set");
    assert_eq!(s.service_name, "h2o-test-service");
    assert_eq!(s.image, "h2oai/h2o-open-source-k8s:3.44");
    assert_eq!(
        env_value(&s, "H2O_KUBERNETES_SERVICE_DNS"),
        Some("h2o-test-service.default.svc.cluster.local".to_string())
    );
    assert_eq!(env_value(&s, "H2O_NODE_LOOKUP_TIMEOUT"), Some("180".to_string()));
    assert_eq!(
        s.command,
        vec![
            "/bin/bash".to_string(),
            "-c".to_string(),
            "java -XX:+UseContainerSupport -XX:MaxRAMPercentage=50 -jar /opt/h2oai/h2o-3/h2o.jar"
                .to_string()
        ]
    );
}

#[test]
fn limits_equal_requests() {
    for (cpu, mem) in [(1u32, "1Gi"), (16, "128974848"), (u32::MAX, "1.5e3")] {
        let s = build_workload("c", "ns", &versioned(1, cpu, mem, "latest"));
        assert_eq!(s.limits.cpu, s.requests.cpu);
        assert_eq!(s.limits.memory, s.requests.memory);
        assert_eq!(s.limits.cpu, cpu.to_string());
    }
}

#[test]
fn generation_is_repeatable() {
    let spec = versioned(5, 4, "8Gi", "3.32.0.1");
    let a = build_workload("x", "y", &spec);
    let b = build_workload("x", "y", &spec);
    assert_eq!(a.name, b.name);
    assert_eq!(a.image, b.image);
    assert_eq!(a.command, b.command);
    assert_eq!(a.replicas, b.replicas);
    let ea: Vec<(String, String)> = a.env.iter().map(|e| (e.name.clone(), e.value.clone())).collect();
    let eb: Vec<(String, String)> = b.env.iter().map(|e| (e.name.clone(), e.value.clone())).collect();
    assert_eq!(ea, eb);
    let i1 = h2o_ingress("x", "y");
    let i2 = h2o_ingress("x", "y");
    assert_eq!(i1.name, i2.name);
    assert_eq!(any_path(&i1), any_path(&i2));
}

#[test]
fn explicit_image_and_percentage() {
    let s = h2o_stateful_set("n", "ns", "repo/img", "tag", 7, 80, "2Gi", 3);
    assert_eq!(s.image, "repo/img:tag");
    assert_eq!(s.replicas, 7);
    assert_eq!(s.namespace, "ns");
    assert_eq!(
        s.command[2],
        "java -XX:+UseContainerSupport -XX:MaxRAMPercentage=80 -jar /opt/h2oai/h2o-3/h2o.jar"
    );
    assert_eq!(env_value(&s, "H2O_NODE_EXPECTED_COUNT"), Some("7".to_string()));
}

#[test]
fn custom_image_workload() {
    let spec = H2OSpec::new(
        2,
        None,
        Resources::new(1, "1Gi".to_string(), Some(70)).unwrap(),
        Some(CustomImage::new("my/h2o:1".to_string(), Some("run.sh".to_string()))),
    )
    .unwrap();
    let s = build_workload("c", "ns", &spec);
    assert_eq!(s.image, "my/h2o:1");
    assert_eq!(s.command, vec!["/bin/bash".to_string(), "-c".to_string(), "run.sh".to_string()]);
    let spec = H2OSpec::new(
        2,
        None,
        Resources::new(1, "1Gi".to_string(), Some(70)).unwrap(),
        Some(CustomImage::new("my/h2o:1".to_string(), None)),
    )
    .unwrap();
    let s = build_workload("c", "ns", &spec);
    assert!(s.command[2].contains("MaxRAMPercentage=70 "));
}

#[test]
fn ingress_routes_name_to_service() {
    let i = h2o_ingress("h2o-test", "default");
    assert_eq!(i.name, "h2o-test-ingress");
    assert_eq!(i.rewrite_target, "/$2");
    assert_eq!(any_path(&i), Some("/h2o-test".to_string()));
    let rules = i.rules.as_ref().unwrap();
    assert_eq!(rules.len(), 1);
    let paths = rules[0].http.as_ref().unwrap();
    assert_eq!(paths[0].path_type, "Exact");
    assert_eq!(paths[0].service_name, "h2o-test-service");
    assert_eq!(paths[0].service_port, 80);
    assert_eq!(any_ip(&i), None);
}

#[test]
fn last_ip_of_status() {
    let mut i: IngressManifest = h2o_ingress("a", "b");
    i.load_balancer = Some(vec![
        LoadBalancerEntry { ip: Some("10.0.0.1".to_string()), hostname: None },
        LoadBalancerEntry { ip: Some("10.0.0.2".to_string()), hostname: None },
    ]);
    assert_eq!(any_ip(&i), Some("10.0.0.2".to_string()));
    i.load_balancer = Some(vec![]);
    assert_eq!(any_ip(&i), None);
    i.rules = None;
    assert_eq!(any_path(&i), None);
}
