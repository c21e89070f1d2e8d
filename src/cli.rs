use vstd::prelude::*;

use crate::numtext::{parse_i64, parsed_i64};
use crate::quantity::{is_quantity, is_quantity_text};

verus! {

/// Commands that a user can issue.
pub enum Command {
    Deployment(UserDeploymentSpecification),
    /// Undeploy the cluster that the deployment descriptor at this path describes.
    Undeploy(String),
    /// Create an ingress for the cluster that the descriptor at this path describes.
    Ingress(String),
}

pub struct UserDeploymentSpecification {
    /// Name of the deployment; generated when the user gives none.
    pub name: String,
    /// Namespace to deploy to; when absent, the configured default is used.
    pub namespace: Option<String>,
    /// Percentage of the container's memory that the H2O JVM takes.
    pub memory_percentage: u8,
    /// Memory of each H2O node, as a platform quantity text; request and limit alike.
    pub memory: String,
    /// CPUs of each H2O node; request and limit alike.
    pub num_cpu: u32,
    /// Number of H2O nodes in the cluster.
    pub num_h2o_nodes: u32,
    /// Path of the kubeconfig file; when absent, well-known locations are searched.
    pub kubeconfig_path: Option<String>,
}

impl UserDeploymentSpecification {
    pub fn new(
        name: String,
        namespace: Option<String>,
        memory_percentage: u8,
        memory: String,
        num_cpu: u32,
        num_h2o_nodes: u32,
        kubeconfig_path: Option<String>,
    ) -> (r: Self)
        ensures
            r.name == name,
            r.namespace == namespace,
            r.memory_percentage == memory_percentage,
            r.memory == memory,
            r.num_cpu == num_cpu,
            r.num_h2o_nodes == num_h2o_nodes,
            r.kubeconfig_path == kubeconfig_path,
    {
        UserDeploymentSpecification {
            name,
            namespace,
            memory_percentage,
            memory,
            num_cpu,
            num_h2o_nodes,
            kubeconfig_path,
        }
    }
}

#[derive(PartialEq, Eq, Structural, Clone, Copy, Debug)]
pub enum CommandErrorKind {
    /// No deployment descriptor path was given.
    MissingDeploymentDescriptor,
    /// The given deployment descriptor path leads to no file.
    UnreachableDeploymentDescriptor,
}

/// Error while processing user input.
#[derive(Debug)]
pub struct UserInputError {
    kind: CommandErrorKind,
}

impl UserInputError {
    pub closed spec fn spec_kind(&self) -> CommandErrorKind {
        self.kind
    }

    pub fn new(kind: CommandErrorKind) -> (r: Self)
        ensures
            r.spec_kind() == kind,
    {
        UserInputError { kind }
    }

    pub fn kind(&self) -> (r: CommandErrorKind)
        ensures
            r == self.spec_kind(),
    {
        self.kind
    }
}

/// The deployment's name: the one the user gave, else `h2o-` followed by a generated one.
pub fn deployment_name(given: Option<String>, generated: &str) -> (r: String)
    ensures
        r@ == match given {
            Some(n) => n@,
            None => "h2o-"@ + generated@,
        },
{
    match given {
        Some(n) => n,
        None => String::from_str("h2o-").concat(generated),
    }
}

/// Chooses the deployment descriptor named on standard input: the path as given
/// when it leads to a file, else the path taken relative to the working directory
/// when that leads to a file.
pub fn resolve_descriptor(
    stdin_text: String,
    is_file: bool,
    relative: String,
    relative_is_file: bool,
) -> (r: Result<String, UserInputError>)
    ensures
        stdin_text@.len() == 0 ==> (r matches Err(e)
            && e.spec_kind() == CommandErrorKind::MissingDeploymentDescriptor),
        stdin_text@.len() > 0 && is_file ==> r == Ok::<String, UserInputError>(stdin_text),
        stdin_text@.len() > 0 && !is_file && relative_is_file ==> r == Ok::<String, UserInputError>(
            relative,
        ),
        stdin_text@.len() > 0 && !is_file && !relative_is_file ==> (r matches Err(e)
            && e.spec_kind() == CommandErrorKind::UnreachableDeploymentDescriptor),
{
    if stdin_text.as_str().unicode_len() == 0 {
        Err(UserInputError::new(CommandErrorKind::MissingDeploymentDescriptor))
    } else if is_file {
        Ok(stdin_text)
    } else if relative_is_file {
        Ok(relative)
    } else {
        Err(UserInputError::new(CommandErrorKind::UnreachableDeploymentDescriptor))
    }
}

/// Accepts a path that leads to a file; `is_file` says whether it does.
pub fn validate_path(user_provided_path: String, is_file: bool) -> (r: Result<(), String>)
    ensures
        is_file ==> r is Ok,
        !is_file ==> (r matches Err(m) && m@ == "Invalid file path: '"@ + user_provided_path@
            + "'"@),
{
    if is_file {
        Ok(())
    } else {
        Err(String::from_str("Invalid file path: '").concat(user_provided_path.as_str()).concat("'"))
    }
}

/// Accepts an integer text whose value is at least one.
pub fn validate_int_greater_than_zero(input: String) -> (r: Result<(), String>)
    requires
        parsed_i64(input@) is Some,
    ensures
        r is Ok <==> parsed_i64(input@)->Some_0 >= 1,
        r matches Err(m) ==> m@ == "Error: The number provided must be greater than zero."@,
{
    let number = parse_i64(input.as_str()).unwrap();
    if number < 1 {
        Err(String::from_str("Error: The number provided must be greater than zero."))
    } else {
        Ok(())
    }
}

/// Accepts an integer text whose value lies in `[1, 100]`.
pub fn validate_percentage(input: String) -> (r: Result<(), String>)
    requires
        parsed_i64(input@) is Some,
    ensures
        r is Ok <==> 1 <= parsed_i64(input@)->Some_0 <= 100,
        r matches Err(m) ==> m@ == "Error: The number must be withing range <1,100>."@,
{
    let number = parse_i64(input.as_str()).unwrap();
    if number < 1 || number > 100 {
        Err(String::from_str("Error: The number must be withing range <1,100>."))
    } else {
        Ok(())
    }
}

/// Accepts a memory amount written as a platform quantity, such as `1Gi` or `1024Mi`.
pub fn validate_memory(input: String) -> (r: Result<(), String>)
    ensures
        r is Ok <==> is_quantity(input@),
        r matches Err(m) ==> m@
            == "Memory requirement must match the following pattern: ^([+-]?[0-9.]+)([eEinumkKMGTP]*[-+]?[0-9]*)$. For example 1Gi or 1024Mi."@,
{
    if is_quantity_text(input.as_str()) {
        Ok(())
    } else {
        Err(
            String::from_str(
                "Memory requirement must match the following pattern: ^([+-]?[0-9.]+)([eEinumkKMGTP]*[-+]?[0-9]*)$. For example 1Gi or 1024Mi.",
            ),
        )
    }
}

} // verus!
