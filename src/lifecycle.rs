use vstd::prelude::*;

use crate::crd::H2OSpec;

verus! {

/// The finalizer token that this operator owns on `H2O` resources.
pub open spec fn finalizer_name() -> Seq<char> {
    "h2o3.h2o.ai/finalizer"@
}

/// The finalizer token that this operator owns on `H2O` resources.
pub fn h2o3_finalizer() -> (r: String)
    ensures
        r@ == finalizer_name(),
{
    String::from_str("h2o3.h2o.ai/finalizer")
}

/// The metadata of a live resource that the lifecycle decisions read.
pub struct ObjectMeta {
    pub name: Option<String>,
    pub namespace: Option<String>,
    /// When deletion was requested, in seconds since the Unix epoch.
    pub deletion_timestamp: Option<i64>,
    pub finalizers: Option<Vec<String>>,
}

/// A live `H2O` custom resource, as observed from the platform.
pub struct H2O {
    pub metadata: ObjectMeta,
    pub spec: H2OSpec,
}

/// Where a resource stands with respect to deletion and the operator's finalizer.
#[derive(PartialEq, Eq, Structural, Clone, Copy, Debug)]
pub enum LifecycleState {
    /// No finalizer, no deletion requested: not reconciled yet.
    Fresh,
    /// Finalizer present, no deletion requested.
    Active,
    /// Finalizer present, deletion requested: teardown is due.
    Terminating,
    /// No finalizer, deletion requested: the platform will remove the resource.
    Released,
}

/// One step of a reconciliation pass.
#[derive(PartialEq, Eq, Structural, Clone, Copy, Debug)]
pub enum PassStep {
    InstallSchema,
    AwaitSchema,
    AddFinalizer,
    SubmitWorkload,
    SubmitIngress,
    DeleteWorkload,
    DeleteIngress,
    RemoveFinalizer,
}

/// The texts of a list of strings.
pub open spec fn texts(v: Seq<String>) -> Seq<Seq<char>> {
    v.map_values(|s: String| s@)
}

pub open spec fn finalizer_texts(h2o: H2O) -> Seq<Seq<char>> {
    match h2o.metadata.finalizers {
        Some(f) => texts(f@),
        None => Seq::empty(),
    }
}

pub open spec fn has_deletion_intent(h2o: H2O) -> bool {
    h2o.metadata.deletion_timestamp is Some
}

pub open spec fn owns_finalizer(h2o: H2O) -> bool {
    finalizer_texts(h2o).contains(finalizer_name())
}

pub open spec fn lifecycle_of(h2o: H2O) -> LifecycleState {
    if owns_finalizer(h2o) {
        if has_deletion_intent(h2o) {
            LifecycleState::Terminating
        } else {
            LifecycleState::Active
        }
    } else {
        if has_deletion_intent(h2o) {
            LifecycleState::Released
        } else {
            LifecycleState::Fresh
        }
    }
}

/// The schema part of a pass: install and await the schema when it is absent.
pub open spec fn schema_part(schema_installed: bool) -> Seq<PassStep> {
    if schema_installed {
        Seq::empty()
    } else {
        seq![PassStep::InstallSchema, PassStep::AwaitSchema]
    }
}

/// The resource part of a pass: a terminating resource is torn down and released;
/// a fresh one gets the finalizer; fresh and active ones get their manifests submitted.
pub open spec fn resource_part(state: LifecycleState) -> Seq<PassStep> {
    match state {
        LifecycleState::Fresh => seq![
            PassStep::AddFinalizer,
            PassStep::SubmitWorkload,
            PassStep::SubmitIngress,
        ],
        LifecycleState::Active => seq![PassStep::SubmitWorkload, PassStep::SubmitIngress],
        LifecycleState::Terminating => seq![
            PassStep::DeleteWorkload,
            PassStep::DeleteIngress,
            PassStep::RemoveFinalizer,
        ],
        LifecycleState::Released => Seq::empty(),
    }
}

/// The steps of one pass, in order: the schema part, then the resource part.
pub open spec fn pass_steps(schema_installed: bool, state: LifecycleState) -> Seq<PassStep> {
    schema_part(schema_installed) + resource_part(state)
}

/// Whether deletion of the resource has been requested, that is, a deletion timestamp is set.
pub fn has_deletion_stamp(h2o: &H2O) -> (r: bool)
    ensures
        r == has_deletion_intent(*h2o),
{
    h2o.metadata.deletion_timestamp.is_some()
}

fn contains_text(v: &Vec<String>, t: &String) -> (r: bool)
    ensures
        r == texts(v@).contains(t@),
{
    let mut i: usize = 0;
    while i < v.len()
        invariant
            i <= v@.len(),
            forall|k: int| 0 <= k < i ==> v@[k]@ != t@,
        decreases v@.len() - i,
    {
        if v[i] == *t {
            assert(texts(v@)[i as int] == t@);
            return true;
        }
        i = i + 1;
    }
    assert(!texts(v@).contains(t@)) by {
        if texts(v@).contains(t@) {
            let k = choose|k: int| 0 <= k < texts(v@).len() && texts(v@)[k] == t@;
            assert(v@[k]@ == t@);
        }
    }
    false
}

/// Whether the resource carries the finalizer that this operator owns.
pub fn has_h2o3_finalizer(h2o: &H2O) -> (r: bool)
    ensures
        r == owns_finalizer(*h2o),
{
    match &h2o.metadata.finalizers {
        Some(finalizers) => contains_text(finalizers, &h2o3_finalizer()),
        None => false,
    }
}

/// The lifecycle state of the resource.
pub fn lifecycle_state(h2o: &H2O) -> (r: LifecycleState)
    ensures
        r == lifecycle_of(*h2o),
{
    let owned = has_h2o3_finalizer(h2o);
    let deleting = has_deletion_stamp(h2o);
    if owned {
        if deleting {
            LifecycleState::Terminating
        } else {
            LifecycleState::Active
        }
    } else if deleting {
        LifecycleState::Released
    } else {
        LifecycleState::Fresh
    }
}

/// The steps that come before the resource is read: installing and awaiting the
/// schema when it is absent.
pub fn schema_steps(schema_installed: bool) -> (r: Vec<PassStep>)
    ensures
        r@ == schema_part(schema_installed),
{
    let mut steps: Vec<PassStep> = Vec::new();
    if !schema_installed {
        steps.push(PassStep::InstallSchema);
        steps.push(PassStep::AwaitSchema);
    }
    assert(steps@ =~= schema_part(schema_installed));
    steps
}

/// The steps that the lifecycle state of `h2o` asks for.
pub fn resource_steps(h2o: &H2O) -> (r: Vec<PassStep>)
    ensures
        r@ == resource_part(lifecycle_of(*h2o)),
{
    let mut steps: Vec<PassStep> = Vec::new();
    match lifecycle_state(h2o) {
        LifecycleState::Fresh => {
            steps.push(PassStep::AddFinalizer);
            steps.push(PassStep::SubmitWorkload);
            steps.push(PassStep::SubmitIngress);
        },
        LifecycleState::Active => {
            steps.push(PassStep::SubmitWorkload);
            steps.push(PassStep::SubmitIngress);
        },
        LifecycleState::Terminating => {
            steps.push(PassStep::DeleteWorkload);
            steps.push(PassStep::DeleteIngress);
            steps.push(PassStep::RemoveFinalizer);
        },
        LifecycleState::Released => {},
    }
    assert(steps@ =~= resource_part(lifecycle_of(*h2o)));
    steps
}

/// The steps of one reconciliation pass over `h2o`.
pub fn plan_pass(schema_installed: bool, h2o: &H2O) -> (r: Vec<PassStep>)
    ensures
        r@ == pass_steps(schema_installed, lifecycle_of(*h2o)),
{
    let mut steps = schema_steps(schema_installed);
    let mut rest = resource_steps(h2o);
    steps.append(&mut rest);
    steps
}

/// The finalizer list with the operator's token added at the end, unless it is
/// already there.
pub fn with_finalizer(finalizers: &Option<Vec<String>>) -> (r: Vec<String>)
    ensures
        ({
            let old_texts = match finalizers {
                Some(f) => texts(f@),
                None => Seq::empty(),
            };
            texts(r@) == if old_texts.contains(finalizer_name()) {
                old_texts
            } else {
                old_texts.push(finalizer_name())
            }
        }),
{
    let token = h2o3_finalizer();
    let mut r: Vec<String> = Vec::new();
    match finalizers {
        Some(f) => {
            let mut i: usize = 0;
            while i < f.len()
                invariant
                    i <= f@.len(),
                    texts(r@) =~= texts(f@).take(i as int),
                decreases f@.len() - i,
            {
                r.push(f[i].clone());
                assert(texts(f@).take(i + 1) =~= texts(f@).take(i as int).push(f@[i as int]@));
                i = i + 1;
            }
            assert(texts(f@).take(f@.len() as int) =~= texts(f@));
            if contains_text(f, &token) {
                return r;
            }
        },
        None => {},
    }
    r.push(token);
    proof {
        let old_texts = match finalizers {
            Some(f) => texts(f@),
            None => Seq::<Seq<char>>::empty(),
        };
        assert(texts(r@) =~= old_texts.push(finalizer_name()));
    }
    r
}

/// The finalizer list without the operator's token, other entries kept in order.
pub fn without_finalizer(finalizers: &Option<Vec<String>>) -> (r: Vec<String>)
    ensures
        texts(r@) == match finalizers {
            Some(f) => texts(f@).filter(|t: Seq<char>| t != finalizer_name()),
            None => Seq::empty(),
        },
{
    let token = h2o3_finalizer();
    let mut r: Vec<String> = Vec::new();
    match finalizers {
        Some(f) => {
            let mut i: usize = 0;
            while i < f.len()
                invariant
                    i <= f@.len(),
                    token@ == finalizer_name(),
                    texts(r@) == texts(f@).take(i as int).filter(
                        |t: Seq<char>| t != finalizer_name(),
                    ),
                decreases f@.len() - i,
            {
                let ghost pred = |t: Seq<char>| t != finalizer_name();
                proof {
                    let pre = texts(f@).take(i as int);
                    assert(texts(f@).take(i + 1) =~= pre.push(f@[i as int]@));
                    pre.lemma_filter_push(f@[i as int]@, pred);
                }
                if f[i] != token {
                    r.push(f[i].clone());
                    assert(texts(r@) =~= texts(f@).take(i as int).filter(pred).push(f@[i as int]@));
                }
                i = i + 1;
            }
            assert(texts(f@).take(f@.len() as int) =~= texts(f@));
        },
        None => {},
    }
    r
}

/// What the platform answered to the deletion of a dependent object.
pub enum DeleteOutcome {
    Deleted,
    /// The object was already absent.
    NotFound,
    /// The transport failed; carries the cause.
    Failed(String),
}

/// The result of a best-effort teardown step: an object that is already absent
/// counts as deleted; a transport failure is passed on.
pub fn teardown_outcome(outcome: DeleteOutcome) -> (r: Result<(), String>)
    ensures
        r == match outcome {
            DeleteOutcome::Failed(m) => Err(m),
            _ => Ok::<(), String>(()),
        },
{
    match outcome {
        DeleteOutcome::Failed(m) => Err(m),
        _ => Ok(()),
    }
}

/// The two lifecycle predicates read nothing but the resource: the deletion intent
/// holds exactly when a deletion timestamp is set, whatever the finalizers; the
/// finalizer is owned exactly when the token is among the finalizers, whatever the
/// deletion timestamp.
pub proof fn lemma_guard_predicates(h2o: H2O, other: H2O)
    ensures
        has_deletion_intent(h2o) <==> h2o.metadata.deletion_timestamp is Some,
        owns_finalizer(h2o) <==> finalizer_texts(h2o).contains(finalizer_name()),
        h2o.metadata.deletion_timestamp == other.metadata.deletion_timestamp ==> (
        has_deletion_intent(h2o) == has_deletion_intent(other)),
        finalizer_texts(h2o) == finalizer_texts(other) ==> (owns_finalizer(h2o) == owns_finalizer(
            other,
        )),
{
}

/// A pass over a resource whose deletion was requested while the operator's finalizer
/// is present tears down the workload and the ingress, then removes the finalizer as
/// its last step, and submits no manifest.
pub proof fn lemma_terminating_pass(schema_installed: bool, h2o: H2O)
    requires
        has_deletion_intent(h2o),
        owns_finalizer(h2o),
    ensures
        ({
            let steps = pass_steps(schema_installed, lifecycle_of(h2o));
            &&& steps.last() == PassStep::RemoveFinalizer
            &&& exists|i: int, j: int|
                0 <= i < steps.len() - 1 && 0 <= j < steps.len() - 1 && steps[i]
                    == PassStep::DeleteWorkload && steps[j] == PassStep::DeleteIngress
            &&& !steps.contains(PassStep::SubmitWorkload)
            &&& !steps.contains(PassStep::SubmitIngress)
            &&& !steps.contains(PassStep::AddFinalizer)
        }),
{
    let steps = pass_steps(schema_installed, lifecycle_of(h2o));
    let k: int = if schema_installed { 0 } else { 2 };
    assert(steps[k] == PassStep::DeleteWorkload);
    assert(steps[k + 1] == PassStep::DeleteIngress);
    assert(steps.len() == k + 3);
}

} // verus!
