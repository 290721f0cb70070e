//! Interop layer for inspecting and driving the objects of a running Il2Cpp runtime.
//!
//! The runtime's records are held as plain values: an address is a `usize`
//! (zero for a null pointer), a C string is a `String`, an array behind a
//! pointer and a count is a `Vec`. The runtime's entry points are the methods
//! of [`il2cpp::api::Il2CppApi`], which the embedding program implements; each
//! contract says what is returned for whatever the runtime answered.

use vstd::prelude::*;
use vstd::string::StringExecFns;

pub mod app;
pub mod cppvector;
pub mod engine;
/// The core of this library: the records of the runtime and the operations on them.
pub mod il2cpp;
pub mod pattern;
pub mod prelude;
pub mod scan;
pub mod system;

verus! {

/// The ways an operation on the runtime can fail.
#[derive(Debug)]
pub enum Il2CppError {
    /// No loaded module knows a class of this name.
    MissingClass(String),
    /// The runtime has no class for the given type handle.
    MissingClassForType,
    /// The class declares no method of that name, arity and flags.
    MissingMethod,
    /// The runtime could not create an instance of the class of this name.
    FailedInstantiation(String),
    /// The runtime could not create the array.
    FailedArrayInstantiation,
    /// The invoker returned nothing.
    FailedMethodInvocation,
    /// The runtime has no reflection object for the type.
    FailedReflectionQuerying,
    /// An index or range reaches past the elements of a buffer.
    OutOfBounds,
}

impl Il2CppError {
    /// What the error says, in words.
    pub open spec fn message(&self) -> Seq<char> {
        match self {
            Il2CppError::MissingClass(name) => "could not find the class `"@ + name@ + "`"@,
            Il2CppError::MissingClassForType => "could not find the class for the Il2CppType"@,
            Il2CppError::MissingMethod => "could not find the method"@,
            Il2CppError::FailedInstantiation(name) => "could not instantiate the class `"@ + name@
                + "`"@,
            Il2CppError::FailedArrayInstantiation => "could not instantiate the array"@,
            Il2CppError::FailedMethodInvocation => "could not invoke the method"@,
            Il2CppError::FailedReflectionQuerying => "could not get a ReflectionType for the type"@,
            Il2CppError::OutOfBounds => "index out of bounds"@,
        }
    }

    /// What the error says, in words.
    pub fn to_string(&self) -> (r: String)
        ensures
            r@ == self.message(),
    {
        match self {
            Il2CppError::MissingClass(name) => {
                String::from_str("could not find the class `").concat(name.as_str()).concat("`")
            },
            Il2CppError::MissingClassForType => String::from_str(
                "could not find the class for the Il2CppType",
            ),
            Il2CppError::MissingMethod => String::from_str("could not find the method"),
            Il2CppError::FailedInstantiation(name) => {
                String::from_str("could not instantiate the class `").concat(name.as_str()).concat(
                    "`",
                )
            },
            Il2CppError::FailedArrayInstantiation => String::from_str(
                "could not instantiate the array",
            ),
            Il2CppError::FailedMethodInvocation => String::from_str("could not invoke the method"),
            Il2CppError::FailedReflectionQuerying => String::from_str(
                "could not get a ReflectionType for the type",
            ),
            Il2CppError::OutOfBounds => String::from_str("index out of bounds"),
        }
    }
}

/// A specialized result type for operations on the runtime.
pub type Il2CppResult<T> = Result<T, Il2CppError>;

} // verus!
