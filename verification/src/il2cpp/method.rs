//! Method descriptors.

use vstd::prelude::*;
use crate::Il2CppError;
use crate::Il2CppResult;
use crate::il2cpp::Il2CppType;
use crate::il2cpp::api::Il2CppApi;
use crate::il2cpp::class::Il2CppReflectionType;

verus! {

/// The method descriptor that some entry points of the runtime take as a last
/// argument, where there is one.
pub type OptionalMethod = Option<MethodInfo>;

/// One parameter of a method.
#[derive(Debug)]
pub struct ParameterInfo {
    /// The parameter's name; `None` where the runtime holds no name.
    pub name: Option<String>,
    pub position: i32,
    pub token: u32,
    pub parameter_type: Il2CppType,
}

/// A method of the runtime: where its code starts, the thunk that calls it
/// with boxed arguments, and what the metadata says of it.
#[derive(Debug)]
pub struct MethodInfo {
    /// Where the descriptor lies in the runtime's memory; null for a
    /// descriptor that the runtime does not hold.
    pub address: usize,
    /// The address of the method's code.
    pub method_ptr: usize,
    /// The address of the thunk that calls the method with boxed arguments.
    pub invoker_method: usize,
    /// The method's name; `None` where the runtime holds no name.
    pub name: Option<String>,
    /// The address of the declaring class, if the method has one.
    pub class: Option<usize>,
    pub return_type: usize,
    pub parameters: Vec<ParameterInfo>,
    pub info_or_definition: usize,
    pub generic_method_or_container: usize,
    pub token: u32,
    pub flags: u16,
    pub iflags: u16,
    /// The method's slot in the virtual-method table of its class.
    pub slot: u16,
    pub parameters_count: u8,
    pub bitflags: u8,
}

/// What a method descriptor holds.
pub struct MethodInfoView {
    pub address: usize,
    pub method_ptr: usize,
    pub invoker_method: usize,
    pub name: Option<String>,
    pub class: Option<usize>,
    pub return_type: usize,
    pub parameters: Seq<ParameterInfo>,
    pub info_or_definition: usize,
    pub generic_method_or_container: usize,
    pub token: u32,
    pub flags: u16,
    pub iflags: u16,
    pub slot: u16,
    pub parameters_count: u8,
    pub bitflags: u8,
}

impl View for MethodInfo {
    type V = MethodInfoView;

    open spec fn view(&self) -> MethodInfoView {
        MethodInfoView {
            address: self.address,
            method_ptr: self.method_ptr,
            invoker_method: self.invoker_method,
            name: self.name,
            class: self.class,
            return_type: self.return_type,
            parameters: self.parameters@,
            info_or_definition: self.info_or_definition,
            generic_method_or_container: self.generic_method_or_container,
            token: self.token,
            flags: self.flags,
            iflags: self.iflags,
            slot: self.slot,
            parameters_count: self.parameters_count,
            bitflags: self.bitflags,
        }
    }
}

/// A copy of an optional name.
pub fn clone_name(name: &Option<String>) -> (r: Option<String>)
    ensures
        r == *name,
{
    match name {
        Some(text) => Some(text.clone()),
        None => None,
    }
}

impl Clone for ParameterInfo {
    fn clone(&self) -> (r: Self)
        ensures
            r == *self,
    {
        ParameterInfo {
            name: clone_name(&self.name),
            position: self.position,
            token: self.token,
            parameter_type: self.parameter_type,
        }
    }
}

/// A copy of a parameter list.
pub fn clone_parameters(parameters: &Vec<ParameterInfo>) -> (r: Vec<ParameterInfo>)
    ensures
        r@ == parameters@,
{
    let mut copy: Vec<ParameterInfo> = Vec::with_capacity(parameters.len());
    let mut done: usize = 0;
    while done < parameters.len()
        invariant
            done <= parameters@.len(),
            copy@ == parameters@.subrange(0, done as int),
        decreases parameters@.len() - done,
    {
        copy.push(parameters[done].clone());
        done += 1;
        assert(copy@ =~= parameters@.subrange(0, done as int));
    }
    assert(parameters@.subrange(0, done as int) =~= parameters@);
    copy
}

impl Clone for MethodInfo {
    fn clone(&self) -> (r: Self)
        ensures
            r@ == self@,
    {
        MethodInfo {
            address: self.address,
            method_ptr: self.method_ptr,
            invoker_method: self.invoker_method,
            name: clone_name(&self.name),
            class: self.class,
            return_type: self.return_type,
            parameters: clone_parameters(&self.parameters),
            info_or_definition: self.info_or_definition,
            generic_method_or_container: self.generic_method_or_container,
            token: self.token,
            flags: self.flags,
            iflags: self.iflags,
            slot: self.slot,
            parameters_count: self.parameters_count,
            bitflags: self.bitflags,
        }
    }
}

impl MethodInfo {
    /// Whether the descriptor counts as many parameters as it lists.
    pub open spec fn wf(&self) -> bool {
        self.parameters@.len() == self.parameters_count
    }

    /// A descriptor of nothing: every address null, every number zero, no
    /// name, no class, no parameter.
    pub fn new() -> (r: Self)
        ensures
            r@ == (MethodInfoView {
                address: 0,
                method_ptr: 0,
                invoker_method: 0,
                name: None,
                class: None,
                return_type: 0,
                parameters: Seq::<ParameterInfo>::empty(),
                info_or_definition: 0,
                generic_method_or_container: 0,
                token: 0,
                flags: 0,
                iflags: 0,
                slot: 0,
                parameters_count: 0,
                bitflags: 0,
            }),
            r.wf(),
    {
        MethodInfo {
            address: 0,
            method_ptr: 0,
            invoker_method: 0,
            name: None,
            class: None,
            return_type: 0,
            parameters: Vec::new(),
            info_or_definition: 0,
            generic_method_or_container: 0,
            token: 0,
            flags: 0,
            iflags: 0,
            slot: 0,
            parameters_count: 0,
            bitflags: 0,
        }
    }

    /// `base` as the start of a descriptor of one's own, which the runtime
    /// does not hold: it keeps the code, the name, the class, the return type
    /// and the parameters; the invoker, the token, the flags and the slot are
    /// cleared.
    pub fn new_from(base: Self) -> (r: Self)
        ensures
            r@ == (MethodInfoView {
                address: 0,
                invoker_method: 0,
                bitflags: 0,
                flags: 0,
                iflags: 0,
                slot: 0,
                token: 0,
                ..base@
            }),
            base.wf() ==> r.wf(),
    {
        MethodInfo {
            address: 0,
            invoker_method: 0,
            bitflags: 0,
            flags: 0,
            iflags: 0,
            slot: 0,
            token: 0,
            ..base
        }
    }

    /// The method's name, if the runtime holds one.
    pub fn get_name(&self) -> (r: Option<String>)
        ensures
            r == self.name,
    {
        clone_name(&self.name)
    }

    /// The method's parameters, in order.
    pub fn get_parameters(&self) -> (r: &[ParameterInfo])
        ensures
            r@ == self.parameters@,
    {
        self.parameters.as_slice()
    }
}

/// What a call of `method` through its invoker gives for each answer of the
/// runtime. A method that lacks its code or its invoker is not called.
pub open spec fn invoked<A: Il2CppApi>(
    api: &A,
    method: &MethodInfo,
    obj: usize,
    params: &[usize],
    r: Il2CppResult<Il2CppReflectionType>,
) -> bool {
    match r {
        Ok(value) => {
            &&& method.spec_can_invoke()
            &&& call_ensures(A::runtime_invoke, (api, method, obj, params), Some(value))
        },
        Err(e) => {
            &&& e is FailedMethodInvocation
            &&& (!method.spec_can_invoke() || call_ensures(
                A::runtime_invoke,
                (api, method, obj, params),
                None::<Il2CppReflectionType>,
            ))
        },
    }
}

/// What the invoker returned, or the failure of the call where it returned
/// nothing.
pub fn invocation_result(returned: Option<Il2CppReflectionType>) -> (r: Il2CppResult<
    Il2CppReflectionType,
>)
    ensures
        match returned {
            Some(value) => r == Ok::<Il2CppReflectionType, Il2CppError>(value),
            None => r == Err::<Il2CppReflectionType, Il2CppError>(
                Il2CppError::FailedMethodInvocation,
            ),
        },
{
    match returned {
        Some(value) => Ok(value),
        None => Err(Il2CppError::FailedMethodInvocation),
    }
}

impl MethodInfo {
    /// Whether the method has both its code and its invoker, as a call
    /// through the invoker needs them.
    pub open spec fn spec_can_invoke(&self) -> bool {
        self.method_ptr != 0 && self.invoker_method != 0
    }

    /// Whether the method has both its code and its invoker.
    pub fn can_invoke(&self) -> (r: bool)
        ensures
            r == self.spec_can_invoke(),
    {
        self.method_ptr != 0 && self.invoker_method != 0
    }

    /// Calls the method through its invoker: on the object at `obj`, or on
    /// none where `obj` is null, with the boxed arguments at `params`. The
    /// arguments have to be what the method's own signature asks for: the
    /// invoker takes them as they are.
    pub fn invoke<A: Il2CppApi>(&self, api: &A, obj: usize, params: &[usize]) -> (r: Il2CppResult<
        Il2CppReflectionType,
    >)
        ensures
            invoked(api, self, obj, params, r),
    {
        if self.can_invoke() {
            invocation_result(api.runtime_invoke(self, obj, params))
        } else {
            Err(Il2CppError::FailedMethodInvocation)
        }
    }
}

impl ParameterInfo {
    /// The parameter's name, if the runtime holds one.
    pub fn get_name(&self) -> (r: Option<String>)
        ensures
            r == self.name,
    {
        clone_name(&self.name)
    }
}

} // verus!
