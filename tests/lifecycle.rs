use h2o_kubernetes::crd::{CustomImage, H2OSpec, InvalidSpecification, Resources, SpecViolation};
use h2o_kubernetes::lifecycle::{
    has_deletion_stamp, has_h2o3_finalizer, h2o3_finalizer, lifecycle_state, plan_pass,
    resource_steps, schema_steps,
    teardown_outcome, with_finalizer, without_finalizer, DeleteOutcome, LifecycleState, ObjectMeta,
    PassStep, H2O,
};
use h2o_kubernetes::readiness::{timeout_message, WaitAction, WaitError, WaitEvent, WaitPhase, Waiter};
use h2o_kubernetes::schema::{
    installation_step, InstallationEvent, SchemaInstallationState,
    conditions_accept_names, schema_event_ready, schema_field_selector, schema_resource_name,
    SchemaCondition, SchemaEvent, WatchEventKind,
};

fn resources() -> Resources {
    Resources::new(1, "1Gi".to_string(), None).unwrap()
}

fn image() -> Option<CustomImage> {
    Some(CustomImage::new("my/h2o".to_string(), None))
}

fn violation<T>(r: Result<T, InvalidSpecification>) -> Option<SpecViolation> {
    r.err().map(|e| e.violation)
}

#[test]
fn exactly_one_image_source() {
    assert!(H2OSpec::new(1, Some("3.44".to_string()), resources(), None).is_ok());
    assert!(H2OSpec::new(1, None, resources(), image()).is_ok());
    assert_eq!(
        violation(H2OSpec::new(1, None, resources(), None)),
        Some(SpecViolation::ImageSelection)
    );
    assert_eq!(
        violation(H2OSpec::new(1, Some("3.44".to_string()), resources(), image())),
        Some(SpecViolation::ImageSelection)
    );
}

#[test]
fn each_specification_rule() {
    let v = || Some("3.44".to_string());
    assert_eq!(violation(H2OSpec::new(0, v(), resources(), None)), Some(SpecViolation::NoNodes));
    assert_eq!(violation(H2OSpec::new(0, None, resources(), None)), Some(SpecViolation::NoNodes));
    let built = H2OSpec::new(3, v(), resources(), None).unwrap();
    assert_eq!(built.nodes, 3);
    assert_eq!(built.version, v());
    assert!(built.validate().is_ok());
}

#[test]
fn resources_are_checked_when_built() {
    assert_eq!(violation(Resources::new(0, "4Gi".to_string(), None)), Some(SpecViolation::NoCpu));
    assert_eq!(
        violation(Resources::new(1, "one gig".to_string(), None)),
        Some(SpecViolation::MemoryQuantity)
    );
    assert_eq!(
        violation(Resources::new(1, "1Gi".to_string(), Some(0))),
        Some(SpecViolation::MemoryPercentage)
    );
    assert_eq!(
        violation(Resources::new(1, "1Gi".to_string(), Some(101))),
        Some(SpecViolation::MemoryPercentage)
    );
    assert!(Resources::new(1, "1Gi".to_string(), Some(100)).is_ok());
    let r = Resources::new(2, "4Gi".to_string(), None).unwrap();
    assert_eq!((r.cpu, r.memory.as_str(), r.memory_percentage), (2, "4Gi", None));
}

#[test]
fn validate_checks_specifications_read_back() {
    let read_back = H2OSpec {
        nodes: 1,
        version: Some("3.44".to_string()),
        resources: Resources { cpu: 0, memory: "1Gi".to_string(), memory_percentage: None },
        custom_image: None,
    };
    assert_eq!(violation(read_back.validate()), Some(SpecViolation::NoCpu));
    let read_back = H2OSpec {
        nodes: 1,
        version: None,
        resources: Resources { cpu: 1, memory: "1Gi".to_string(), memory_percentage: Some(101) },
        custom_image: image(),
    };
    assert_eq!(violation(read_back.validate()), Some(SpecViolation::MemoryPercentage));
}

fn resource(deletion: Option<i64>, finalizers: Option<Vec<&str>>) -> H2O {
    H2O {
        metadata: ObjectMeta {
            name: Some("h2o-test".to_string()),
            namespace: None,
            deletion_timestamp: deletion,
            finalizers: finalizers.map(|f| f.into_iter().map(|s| s.to_string()).collect()),
        },
        spec: H2OSpec::new(1, Some("3.44".to_string()), resources(), None).unwrap(),
    }
}

#[test]
fn guard_predicates() {
    let token = h2o3_finalizer();
    let t = token.as_str();
    assert!(!has_deletion_stamp(&resource(None, Some(vec![t]))));
    assert!(has_deletion_stamp(&resource(Some(1_600_000_000), None)));
    assert!(has_deletion_stamp(&resource(Some(0), Some(vec!["other"]))));
    assert!(has_h2o3_finalizer(&resource(None, Some(vec!["other", t]))));
    assert!(has_h2o3_finalizer(&resource(Some(5), Some(vec![t]))));
    assert!(!has_h2o3_finalizer(&resource(None, Some(vec!["other"]))));
    assert!(!has_h2o3_finalizer(&resource(None, Some(vec![]))));
    assert!(!has_h2o3_finalizer(&resource(None, None)));
    assert_eq!(lifecycle_state(&resource(None, None)), LifecycleState::Fresh);
    assert_eq!(lifecycle_state(&resource(None, Some(vec![t]))), LifecycleState::Active);
    assert_eq!(lifecycle_state(&resource(Some(1), Some(vec![t]))), LifecycleState::Terminating);
    assert_eq!(lifecycle_state(&resource(Some(1), None)), LifecycleState::Released);
}

#[test]
fn terminating_pass_tears_down_then_releases() {
    let token = h2o3_finalizer();
    let r = resource(Some(1), Some(vec![token.as_str()]));
    assert_eq!(
        plan_pass(true, &r),
        vec![PassStep::DeleteWorkload, PassStep::DeleteIngress, PassStep::RemoveFinalizer]
    );
    let steps = plan_pass(false, &r);
    assert_eq!(steps.last(), Some(&PassStep::RemoveFinalizer));
    assert!(!steps.contains(&PassStep::SubmitWorkload));
    assert!(!steps.contains(&PassStep::SubmitIngress));
}

#[test]
fn apply_passes() {
    assert_eq!(
        plan_pass(false, &resource(None, None)),
        vec![
            PassStep::InstallSchema,
            PassStep::AwaitSchema,
            PassStep::AddFinalizer,
            PassStep::SubmitWorkload,
            PassStep::SubmitIngress
        ]
    );
    let token = h2o3_finalizer();
    assert_eq!(
        plan_pass(true, &resource(None, Some(vec![token.as_str()]))),
        vec![PassStep::SubmitWorkload, PassStep::SubmitIngress]
    );
    assert!(plan_pass(true, &resource(Some(3), None)).is_empty());
}

#[test]
fn finalizer_lists() {
    let token = h2o3_finalizer();
    assert_eq!(with_finalizer(&None), vec![token.clone()]);
    let some = Some(vec!["a".to_string()]);
    assert_eq!(with_finalizer(&some), vec!["a".to_string(), token.clone()]);
    let owned = Some(vec![token.clone(), "a".to_string()]);
    assert_eq!(with_finalizer(&owned), vec![token.clone(), "a".to_string()]);
    let mixed = Some(vec!["a".to_string(), token.clone(), "b".to_string(), token.clone()]);
    assert_eq!(without_finalizer(&mixed), vec!["a".to_string(), "b".to_string()]);
    assert!(without_finalizer(&None).is_empty());
}

#[test]
fn teardown_tolerates_absent_objects() {
    assert_eq!(teardown_outcome(DeleteOutcome::Deleted), Ok(()));
    assert_eq!(teardown_outcome(DeleteOutcome::NotFound), Ok(()));
    assert_eq!(teardown_outcome(DeleteOutcome::Failed("boom".to_string())), Err("boom".to_string()));
}

fn is_ok(a: &WaitAction) -> bool {
    matches!(a, WaitAction::Resolve(Ok(())))
}

#[test]
fn installed_schema_resolves_without_subscription() {
    let (mut w, first) = Waiter::new(30);
    assert!(matches!(first, WaitAction::CheckCurrent));
    let next = w.step(WaitEvent::CurrentState(true));
    assert!(is_ok(&next));
    assert!(matches!(w.phase, WaitPhase::Ready));
}

#[test]
fn wait_resolves_on_condition() {
    let (mut w, _) = Waiter::new(30);
    let a = w.step(WaitEvent::CurrentState(false));
    assert!(matches!(a, WaitAction::Subscribe { timeout_secs: 30 }));
    assert!(matches!(w.step(WaitEvent::Subscribed), WaitAction::AwaitNext));
    assert!(matches!(w.step(WaitEvent::Notification(false)), WaitAction::AwaitNext));
    assert!(is_ok(&w.step(WaitEvent::Notification(true))));
    assert!(is_ok(&w.step(WaitEvent::StreamEnded)));
}

#[test]
fn wait_times_out_when_stream_ends() {
    let (mut w, _) = Waiter::new(45);
    w.step(WaitEvent::CurrentState(false));
    w.step(WaitEvent::Subscribed);
    w.step(WaitEvent::Notification(false));
    let a = w.step(WaitEvent::StreamEnded);
    assert!(matches!(a, WaitAction::Resolve(Err(WaitError::Timeout { waited_secs: 45 }))));
    let again = w.step(WaitEvent::Notification(true));
    assert!(matches!(again, WaitAction::Resolve(Err(WaitError::Timeout { waited_secs: 45 }))));
}

#[test]
fn wait_passes_transport_faults_on() {
    let (mut w, _) = Waiter::new(10);
    w.step(WaitEvent::CurrentState(false));
    let a = w.step(WaitEvent::Fault("connection refused".to_string()));
    match a {
        WaitAction::Resolve(Err(WaitError::Platform(m))) => assert_eq!(m, "connection refused"),
        _ => panic!("expected a platform error"),
    }
}

#[test]
fn timeout_text() {
    assert_eq!(timeout_message(120), "H2O Custom Resource not in ready state after 120 seconds.");
}

fn cond(t: &str, s: &str) -> SchemaCondition {
    SchemaCondition { type_: t.to_string(), status: s.to_string() }
}

#[test]
fn schema_readiness_events() {
    assert_eq!(schema_resource_name(), "h2os.h2o.ai");
    assert_eq!(schema_field_selector(), "metadata.name=h2os.h2o.ai");
    assert!(conditions_accept_names(&vec![cond("Established", "False"), cond("NamesAccepted", "True")]));
    assert!(!conditions_accept_names(&vec![cond("NamesAccepted", "False"), cond("NamesAccepted", "True")]));
    assert!(!conditions_accept_names(&vec![]));
    let modified = SchemaEvent {
        kind: WatchEventKind::Modified,
        conditions: Some(vec![cond("NamesAccepted", "True")]),
    };
    assert!(schema_event_ready(&modified));
    let added = SchemaEvent { kind: WatchEventKind::Added, conditions: Some(vec![cond("NamesAccepted", "True")]) };
    assert!(!schema_event_ready(&added));
    let bare = SchemaEvent { kind: WatchEventKind::Modified, conditions: None };
    assert!(!schema_event_ready(&bare));
}

#[test]
fn schema_installation_lifecycle() {
    assert_eq!(installation_step(SchemaInstallationState::Absent, InstallationEvent::InstallRequested), SchemaInstallationState::Installing);
    assert_eq!(installation_step(SchemaInstallationState::Installing, InstallationEvent::NamesAcceptedObserved), SchemaInstallationState::NamesAccepted);
    assert_eq!(installation_step(SchemaInstallationState::Installing, InstallationEvent::DeadlinePassed), SchemaInstallationState::TimedOut);
    assert_eq!(installation_step(SchemaInstallationState::Installing, InstallationEvent::Fault), SchemaInstallationState::Failed);
    assert_eq!(installation_step(SchemaInstallationState::Absent, InstallationEvent::Fault), SchemaInstallationState::Failed);
    assert_eq!(installation_step(SchemaInstallationState::Absent, InstallationEvent::NamesAcceptedObserved), SchemaInstallationState::Absent);
    assert_eq!(installation_step(SchemaInstallationState::NamesAccepted, InstallationEvent::DeadlinePassed), SchemaInstallationState::NamesAccepted);
    assert_eq!(installation_step(SchemaInstallationState::TimedOut, InstallationEvent::NamesAcceptedObserved), SchemaInstallationState::TimedOut);
}

#[test]
fn wait_error_messages() {
    assert_eq!(
        WaitError::Timeout { waited_secs: 180 }.message(),
        "H2O Custom Resource not in ready state after 180 seconds."
    );
    assert_eq!(WaitError::Platform("unreachable".to_string()).message(), "unreachable");
}

#[test]
fn pass_parts() {
    assert_eq!(schema_steps(false), vec![PassStep::InstallSchema, PassStep::AwaitSchema]);
    assert!(schema_steps(true).is_empty());
    let token = h2o3_finalizer();
    assert_eq!(
        resource_steps(&resource(Some(1), Some(vec![token.as_str()]))),
        vec![PassStep::DeleteWorkload, PassStep::DeleteIngress, PassStep::RemoveFinalizer]
    );
    assert_eq!(
        resource_steps(&resource(None, None)),
        vec![PassStep::AddFinalizer, PassStep::SubmitWorkload, PassStep::SubmitIngress]
    );
}
