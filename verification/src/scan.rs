//! References to methods of the runtime by namespace, class, name and arity.

use vstd::prelude::*;
use vstd::string::StrSliceExecFns;
use crate::Il2CppError;
use crate::Il2CppResult;
use crate::il2cpp::api::Il2CppApi;
use crate::il2cpp::class::Il2CppClass;
use crate::il2cpp::class::class_resolved;
use crate::il2cpp::class::get_class_method_from_name;
use crate::il2cpp::class::method_search;
use crate::il2cpp::method::MethodInfo;
use crate::il2cpp::method::MethodInfoView;

verus! {

/// Whether a parameter of that name is one of the method's own parameters:
/// not one whose name starts with an underscore, not the trailing method
/// descriptor `method_info`, not the receiver `this`.
pub open spec fn counts_as_argument(name: Seq<char>) -> bool {
    &&& !(name.len() > 0 && name[0] == '_')
    &&& name != "method_info"@
    &&& name != "this"@
}

/// The number of names among `names` that count as arguments.
pub open spec fn counted_arguments(names: Seq<String>) -> nat
    decreases names.len(),
{
    if names.len() == 0 {
        0
    } else {
        counted_arguments(names.drop_last()) + if counts_as_argument(names.last()@) {
            1nat
        } else {
            0nat
        }
    }
}

/// Whether a parameter of that name is one of the method's own parameters.
pub fn is_argument(name: &String) -> (r: bool)
    ensures
        r == counts_as_argument(name@),
{
    let text: &str = name.as_str();
    if text.unicode_len() > 0 && text.get_char(0) == '_' {
        return false;
    }
    let descriptor: String = "method_info".to_owned();
    let receiver: String = "this".to_owned();
    !(*name == descriptor) && !(*name == receiver)
}

/// The number of parameters by which the runtime knows a method that is
/// declared with parameters of the names `inputs`.
pub fn get_fn_arg_count(inputs: &Vec<String>) -> (r: usize)
    ensures
        r == counted_arguments(inputs@),
{
    let mut count: usize = 0;
    let mut k: usize = 0;
    while k < inputs.len()
        invariant
            k <= inputs@.len(),
            count <= k,
            count == counted_arguments(inputs@.subrange(0, k as int)),
        decreases inputs@.len() - k,
    {
        assert(inputs@.subrange(0, k + 1).drop_last() =~= inputs@.subrange(0, k as int));
        if is_argument(&inputs[k]) {
            count += 1;
        }
        k += 1;
    }
    assert(inputs@.subrange(0, k as int) =~= inputs@);
    count
}

/// How far the code of `method` lies behind the start of the program text
/// at `text`.
pub fn get_offset(method: &MethodInfo, text: usize) -> (r: usize)
    requires
        text <= method.method_ptr,
    ensures
        r == method.method_ptr - text,
{
    method.method_ptr - text
}

/// A reference to a method of the runtime: the namespace and the name of its
/// class, its own name, and the number of its parameters where that number
/// is not to be taken from the declaration.
#[derive(Debug)]
pub struct ScanInfo {
    pub namespace: &'static str,
    pub class: &'static str,
    pub method: &'static str,
    /// The number of parameters that overrides the declared one; zero for none.
    pub forced_arg_count: usize,
}

impl ScanInfo {
    /// The number of parameters by which the method is looked up, where its
    /// declaration shows `arg_count` of them.
    pub fn get_arg_count(&self, arg_count: usize) -> (r: usize)
        ensures
            r == if self.forced_arg_count == 0 {
                arg_count
            } else {
                self.forced_arg_count
            },
    {
        if self.forced_arg_count == 0 {
            arg_count
        } else {
            self.forced_arg_count
        }
    }

    /// What the lookup of the method gives for each run of answers of the
    /// runtime, where the declaration shows `arg_count` parameters.
    pub open spec fn found(&self, api: &impl Il2CppApi, arg_count: usize, r: Il2CppResult<
        MethodInfo,
    >) -> bool {
        exists|class: Il2CppResult<Il2CppClass>|
            {
                &&& class_resolved(api, self.namespace, self.class, class)
                &&& match class {
                    Ok(class) => method_search(
                        api,
                        &class,
                        self.method,
                        if self.forced_arg_count == 0 {
                            arg_count
                        } else {
                            self.forced_arg_count
                        },
                        0,
                        r,
                    ),
                    Err(e) => r == Err::<MethodInfo, Il2CppError>(e),
                }
            }
    }

    /// The method that the reference names.
    pub fn get_ref<A: Il2CppApi>(&self, api: &A, arg_count: usize) -> (r: Il2CppResult<MethodInfo>)
        ensures
            self.found(api, arg_count, r),
    {
        get_class_method_from_name(
            api,
            self.namespace,
            self.class,
            self.method,
            self.get_arg_count(arg_count),
        )
    }

    /// The method that the reference names as the start of a descriptor of
    /// one's own: with its invoker, token, flags and slot cleared.
    pub fn as_base<A: Il2CppApi>(&self, api: &A, arg_count: usize) -> (r: Il2CppResult<MethodInfo>)
        ensures
            exists|found: Il2CppResult<MethodInfo>|
                {
                    &&& self.found(api, arg_count, found)
                    &&& match found {
                        Ok(method) => r is Ok && r->Ok_0@ == (MethodInfoView {
                            address: 0,
                            invoker_method: 0,
                            bitflags: 0,
                            flags: 0,
                            iflags: 0,
                            slot: 0,
                            token: 0,
                            ..method@
                        }),
                        Err(e) => r == Err::<MethodInfo, Il2CppError>(e),
                    }
                },
    {
        match self.get_ref(api, arg_count) {
            Ok(method) => Ok(MethodInfo::new_from(method)),
            Err(e) => Err(e),
        }
    }
}

} // verus!
