//! The records of the runtime and the operations on them.

use vstd::prelude::*;
use crate::Il2CppError;
use crate::Il2CppResult;
use crate::il2cpp::api::Il2CppApi;
use crate::il2cpp::class::Il2CppClass;
use crate::il2cpp::class::class_resolved;
use crate::il2cpp::object::Il2CppObject;
use crate::il2cpp::object::object_allocated;
use crate::pattern::find_pattern;
use crate::pattern::pattern_offset;
use crate::pattern::spec_is_pattern;

pub mod api;
pub mod assembly;
pub mod cache;
pub mod class;
pub mod method;
pub mod object;

verus! {

/// The application domain of the runtime.
pub struct Il2CppDomain;

/// A type handle of the runtime: what the type refers to, and its attribute bits.
#[derive(Clone, Copy, Debug, PartialEq, Eq, Structural)]
pub struct Il2CppType {
    /// A class index, a generic parameter index or the address of a further
    /// record, as the attribute bits say.
    pub data: usize,
    pub bits: u32,
}

impl Default for Il2CppType {
    /// The handle of all zero bits.
    fn default() -> (r: Self)
        ensures
            r == (Il2CppType { data: 0, bits: 0 }),
    {
        Il2CppType { data: 0, bits: 0 }
    }
}

/// The address of the internal call of that full name, null where the
/// runtime knows none.
pub fn method_from_name<A: Il2CppApi>(api: &A, name: &str) -> (r: usize)
    ensures
        call_ensures(A::method_name, (api, name), r),
{
    api.method_name(name)
}

/// A new object of the class.
pub fn instantiate_class<A: Il2CppApi, T: Default>(api: &A, class: &Il2CppClass) -> (r: Il2CppResult<
    Il2CppObject<T>,
>)
    ensures
        object_allocated(api, class, r),
{
    Il2CppObject::from_class(api, class)
}

/// A new object of the class of that namespace and name.
pub fn instantiate_class_by_name<A: Il2CppApi, T: Default>(
    api: &A,
    namespace: &str,
    name: &str,
) -> (r: Il2CppResult<Il2CppObject<T>>)
    ensures
        exists|found: Il2CppResult<Il2CppClass>|
            {
                &&& class_resolved(api, namespace, name, found)
                &&& match found {
                    Ok(class) => object_allocated(api, &class, r),
                    Err(e) => r == Err::<Il2CppObject<T>, Il2CppError>(e),
                }
            },
{
    match Il2CppClass::from_name(api, namespace, name) {
        Ok(class) => instantiate_class(api, &class),
        Err(e) => Err(e),
    }
}

/// The bytes by which the code that starts the runtime is known.
pub const INIT_PATTERN: &'static str =
    "fd 7b be a9 f3 0b 00 f9 fd 03 00 91 f3 03 00 aa ?? ?? ?? ?? ?? ?? ?? ?? c0 00 80 52 ?? ?? ?? ?? e0 03 13 aa ?? ?? ?? ?? f3 0b 40 f9 00 00 00 12 fd 7b c2 a8 c0 03 5f d6";

/// How far behind the start of the program text `text` the code that starts
/// the runtime lies: the offset that the scanner reports for the bytes by
/// which that code is known; `None` where it reports none.
pub fn il2cpp_init_scan(text: &[u8]) -> (r: Option<usize>)
    ensures
        r == if spec_is_pattern(INIT_PATTERN@) {
            pattern_offset(text@, INIT_PATTERN@)
        } else {
            None
        },
{
    find_pattern(text, INIT_PATTERN)
}

} // verus!
