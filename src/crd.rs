use vstd::prelude::*;

use crate::quantity::{is_quantity, is_quantity_text};

verus! {

/// Resources allocated by each H2O pod. Limits and requests are always set to the
/// same value so that H2O operations are reproducible.
pub struct Resources {
    /// Number of virtual CPUs allocated to each H2O pod.
    pub cpu: u32,
    /// A platform quantity text, such as `4Gi`.
    pub memory: String,
    /// Percentage of the pod's memory that the H2O JVM may take, if set.
    pub memory_percentage: Option<u8>,
}

/// A user-chosen image with H2O inside.
pub struct CustomImage {
    /// Full image reference, with repository prefix, image name and tag.
    pub image: String,
    /// Command run when the image starts, if set.
    pub command: Option<String>,
}

/// Desired state of an H2O cluster: its size, per-pod resources and image selection.
pub struct H2OSpec {
    pub nodes: u32,
    pub version: Option<String>,
    pub resources: Resources,
    pub custom_image: Option<CustomImage>,
}

/// The first rule of a cluster specification that a value breaks.
#[derive(PartialEq, Eq, Structural, Clone, Copy, Debug)]
pub enum SpecViolation {
    /// The node count is zero.
    NoNodes,
    /// Neither or both of a version and a custom image are given.
    ImageSelection,
    /// The CPU count is zero.
    NoCpu,
    /// The memory text is not a platform quantity.
    MemoryQuantity,
    /// The memory percentage is outside `[1, 100]`.
    MemoryPercentage,
}

/// A cluster specification was rejected.
#[derive(PartialEq, Eq, Structural, Clone, Copy, Debug)]
pub struct InvalidSpecification {
    pub violation: SpecViolation,
}

/// Exactly one of a version and a custom image is given.
pub open spec fn image_selection_ok(spec: H2OSpec) -> bool {
    spec.version is Some != spec.custom_image is Some
}

pub open spec fn percentage_ok(p: Option<u8>) -> bool {
    match p {
        Some(v) => 1 <= v <= 100,
        None => true,
    }
}

/// The first rule of per-pod resources that `r` breaks, in the order: CPU count,
/// memory text, memory percentage; `None` when it breaks none.
pub open spec fn resources_violation(r: Resources) -> Option<SpecViolation> {
    if r.cpu == 0 {
        Some(SpecViolation::NoCpu)
    } else if !is_quantity(r.memory@) {
        Some(SpecViolation::MemoryQuantity)
    } else if !percentage_ok(r.memory_percentage) {
        Some(SpecViolation::MemoryPercentage)
    } else {
        None
    }
}

/// The first rule that `spec` breaks, in the order: node count, image selection,
/// CPU count, memory text, memory percentage; `None` when it breaks none.
pub open spec fn spec_violation(spec: H2OSpec) -> Option<SpecViolation> {
    if spec.nodes == 0 {
        Some(SpecViolation::NoNodes)
    } else if !image_selection_ok(spec) {
        Some(SpecViolation::ImageSelection)
    } else {
        resources_violation(spec.resources)
    }
}

pub open spec fn spec_is_valid(spec: H2OSpec) -> bool {
    spec_violation(spec) is None
}

fn check_resources(r: &Resources) -> (v: Option<SpecViolation>)
    ensures
        v == resources_violation(*r),
{
    if r.cpu == 0 {
        Some(SpecViolation::NoCpu)
    } else if !is_quantity_text(r.memory.as_str()) {
        Some(SpecViolation::MemoryQuantity)
    } else {
        match r.memory_percentage {
            Some(p) => if 1 <= p && p <= 100 {
                None
            } else {
                Some(SpecViolation::MemoryPercentage)
            },
            None => None,
        }
    }
}

impl Resources {
    /// Builds per-pod resources and checks them: the resources when they break no
    /// rule, else the first rule broken.
    pub fn new(cpu: u32, memory: String, memory_percentage: Option<u8>) -> (r: Result<
        Self,
        InvalidSpecification,
    >)
        ensures
            r is Ok <==> resources_violation((Resources { cpu, memory, memory_percentage })) is None,
            r matches Ok(x) ==> x == (Resources { cpu, memory, memory_percentage }),
            r matches Err(e) ==> resources_violation((Resources { cpu, memory, memory_percentage }))
                == Some(e.violation),
    {
        let r = Resources { cpu, memory, memory_percentage };
        match check_resources(&r) {
            Some(v) => Err(InvalidSpecification { violation: v }),
            None => Ok(r),
        }
    }
}

impl CustomImage {
    pub fn new(image: String, command: Option<String>) -> (r: Self)
        ensures
            r.image == image,
            r.command == command,
    {
        CustomImage { image, command }
    }
}

impl H2OSpec {
    /// Builds a cluster specification and checks it: the specification when it
    /// breaks no rule, else the first rule broken.
    pub fn new(
        nodes: u32,
        version: Option<String>,
        resources: Resources,
        custom_image: Option<CustomImage>,
    ) -> (r: Result<Self, InvalidSpecification>)
        ensures
            r is Ok <==> spec_is_valid((H2OSpec { nodes, version, resources, custom_image })),
            r matches Ok(s) ==> s == (H2OSpec { nodes, version, resources, custom_image }),
            r matches Err(e) ==> spec_violation((H2OSpec { nodes, version, resources, custom_image }))
                == Some(e.violation),
    {
        let spec = H2OSpec { nodes, version, resources, custom_image };
        match spec.validate() {
            Ok(()) => Ok(spec),
            Err(e) => Err(e),
        }
    }

    /// Checks the rules of a cluster specification, such as one read back from the
    /// platform; reports the first one broken.
    pub fn validate(&self) -> (r: Result<(), InvalidSpecification>)
        ensures
            r is Ok <==> spec_is_valid(*self),
            r matches Err(e) ==> spec_violation(*self) == Some(e.violation),
    {
        let violation = if self.nodes == 0 {
            Some(SpecViolation::NoNodes)
        } else if self.version.is_some() == self.custom_image.is_some() {
            Some(SpecViolation::ImageSelection)
        } else {
            check_resources(&self.resources)
        };
        match violation {
            Some(v) => Err(InvalidSpecification { violation: v }),
            None => Ok(()),
        }
    }
}

/// A specification that selects exactly one of a version and a custom image, and
/// meets the rules on nodes, CPU and memory, is accepted; one that selects neither
/// or both is rejected.
pub proof fn lemma_image_selection(spec: H2OSpec)
    ensures
        (spec.version is Some != spec.custom_image is Some) && spec.nodes > 0
            && spec.resources.cpu > 0 && is_quantity(spec.resources.memory@) && percentage_ok(
            spec.resources.memory_percentage,
        ) ==> spec_is_valid(spec),
        (spec.version is Some == spec.custom_image is Some) ==> !spec_is_valid(spec),
{
}

} // verus!
