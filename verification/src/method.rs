//! What every operation of the protocol has in common.

use crate::error::{Field, ProtocolViolation, Violation};
use vstd::prelude::*;
use vstd::string::StringExecFns;

verus! {

/// The path of a resource: the base path, a separator, the identifier of the
/// resource, and a suffix that may be empty.
pub open spec fn spec_resource_path(
    base: Seq<char>,
    identifier: Seq<char>,
    suffix: Seq<char>,
) -> Seq<char> {
    base + "/"@ + identifier + suffix
}

/// Builds the path of a resource from its base path, its identifier and a
/// suffix. The identifier is taken as it is.
pub fn resource_path(base: &str, identifier: &str, suffix: &str) -> (path: String)
    ensures
        path@ == spec_resource_path(base@, identifier@, suffix@),
{
    String::from_str(base).concat("/").concat(identifier).concat(suffix)
}

/// Builds the path of a resource itself, without a suffix.
pub fn plain_resource_path(base: &str, identifier: &str) -> (path: String)
    ensures
        path@ == spec_resource_path(base@, identifier@, Seq::empty()),
{
    proof {
        reveal_strlit("");
    }
    assert(""@ =~= Seq::<char>::empty());
    resource_path(base, identifier, "")
}

/// The logical kind of an operation. The transport selects the verb of the
/// request by it.
#[derive(Clone, Copy, Debug, PartialEq, Eq, Structural)]
pub enum Operation {
    /// Create a new entity.
    Create,
    /// Get an entity or resource.
    Read,
    /// Modify an existing entity.
    Modify,
    /// Replace an existing entity.
    Replace,
    /// Delete an entity.
    Delete,
    /// Get the header data or short info about an entity.
    ReadHeader,
}

/// The verb of a request.
#[derive(Clone, Copy, Debug, PartialEq, Eq, Structural)]
pub enum Verb {
    /// GET
    Get,
    /// POST
    Post,
    /// PUT
    Put,
    /// PATCH
    Patch,
    /// DELETE
    Delete,
    /// HEAD
    Head,
}

impl Operation {
    /// The verb by which an operation of this kind is sent.
    pub open spec fn spec_verb(self) -> Verb {
        match self {
            Operation::Create => Verb::Post,
            Operation::Read => Verb::Get,
            Operation::Modify => Verb::Patch,
            Operation::Replace => Verb::Put,
            Operation::Delete => Verb::Delete,
            Operation::ReadHeader => Verb::Head,
        }
    }

    /// Returns the verb by which an operation of this kind is sent.
    pub fn verb(self) -> (verb: Verb)
        ensures
            verb == self.spec_verb(),
    {
        match self {
            Operation::Create => Verb::Post,
            Operation::Read => Verb::Get,
            Operation::Modify => Verb::Patch,
            Operation::Replace => Verb::Put,
            Operation::Delete => Verb::Delete,
            Operation::ReadHeader => Verb::Head,
        }
    }
}

/// The fields of a response in which a result and a status code are found.
#[derive(Clone, Copy, Debug)]
pub struct RpcReturnType {
    /// The name of the field that holds the result, or none where the result
    /// is the whole body.
    pub result_field: Option<&'static str>,
    /// The name of the field that holds the status code, or none where the
    /// response never holds one.
    pub code_field: Option<&'static str>,
}

impl RpcReturnType {
    /// The name of the result field as a mathematical value.
    pub open spec fn result_name(self) -> Option<Seq<char>> {
        match self.result_field {
            Some(name) => Some(name@),
            None => None,
        }
    }

    /// The name of the code field as a mathematical value.
    pub open spec fn code_name(self) -> Option<Seq<char>> {
        match self.code_field {
            Some(name) => Some(name@),
            None => None,
        }
    }
}

/// Where the result of a call is found in the body of the response.
#[derive(Clone, Copy, Debug, PartialEq, Eq, Structural)]
pub enum ResultLocation {
    /// The body as a whole is the result.
    WholeBody,
    /// The result is the value of the field at this position among the
    /// fields of the body.
    Field {
        /// The position of the field.
        index: usize,
    },
}

/// Whether `index` is the first position in `names` at which `name` stands.
pub open spec fn is_first_position_of(names: Seq<String>, index: int, name: Seq<char>) -> bool {
    &&& 0 <= index < names.len()
    &&& names[index]@ == name
    &&& forall|i: int| 0 <= i < index ==> (#[trigger] names[i])@ != name
}

/// Whether `location` is where a method with the return type `return_type`
/// finds its result in a body with the fields `names`, or `location` is the
/// violation that the absence of the result field makes.
pub open spec fn is_result_location(
    location: Result<ResultLocation, ProtocolViolation>,
    return_type: RpcReturnType,
    names: Seq<String>,
) -> bool {
    match return_type.result_name() {
        None => location == Ok::<_, ProtocolViolation>(ResultLocation::WholeBody),
        Some(name) => match location {
            Ok(ResultLocation::Field { index }) => is_first_position_of(names, index as int, name),
            Ok(ResultLocation::WholeBody) => false,
            Err(violation) => {
                &&& violation == ProtocolViolation::Response {
                    violation: Violation::MissingField { field: Field::Result },
                }
                &&& forall|i: int| 0 <= i < names.len() ==> (#[trigger] names[i])@ != name
            },
        },
    }
}

/// Finds the result of a call in the body of a successful response, of which
/// the names of the fields are given in their order. A method that names a
/// result field finds its result there and nowhere else: a body without that
/// field violates the protocol. A method that names none takes the body as a
/// whole.
pub fn locate_result(return_type: RpcReturnType, names: &Vec<String>) -> (location: Result<
    ResultLocation,
    ProtocolViolation,
>)
    ensures
        is_result_location(location, return_type, names@),
{
    match return_type.result_field {
        None => Ok(ResultLocation::WholeBody),
        Some(name) => {
            let wanted = String::from_str(name);
            let mut index: usize = 0;
            while index < names.len()
                invariant
                    index <= names.len(),
                    return_type.result_name() == Some(name@),
                    wanted@ == name@,
                    forall|i: int| 0 <= i < index ==> (#[trigger] names@[i])@ != name@,
                decreases names.len() - index,
            {
                if names[index] == wanted {
                    return Ok(ResultLocation::Field { index });
                }
                index = index + 1;
            }
            Err(
                ProtocolViolation::Response {
                    violation: Violation::MissingField { field: Field::Result },
                },
            )
        },
    }
}

} // verus!
