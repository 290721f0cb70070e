//! The entry points of the runtime.

use vstd::prelude::*;
use crate::cppvector::CppVector;
use crate::il2cpp::Il2CppType;
use crate::il2cpp::assembly::Il2CppAssembly;
use crate::il2cpp::assembly::Il2CppImage;
use crate::il2cpp::class::Il2CppClass;
use crate::il2cpp::class::Il2CppReflectionType;
use crate::il2cpp::method::MethodInfo;
use crate::il2cpp::object::Array;
use crate::il2cpp::object::ArrayHeader;
use crate::il2cpp::object::ObjectHeader;
use crate::pattern::SymbolicReference;
use crate::system::Il2CppString;

verus! {

/// How far behind the start of the program text the code lies that gives
/// the current application domain.
pub fn domain_getcurrent_scan() -> (r: usize)
    ensures
        r == 0x1547d0,
{
    0x1547d0
}

/// The pieces of code of the running process that the embedding program calls.
#[derive(Clone, Copy, Debug, PartialEq, Eq, Structural)]
pub enum EntryPoint {
    Init,
    GetImageByAssemblyName,
    ClassFromName,
    ObjectNew,
    GetMethodFromNameFlags,
    AssemblyGetAllAssemblies,
    ArrayNewSpecific,
    ArrayNew,
    TypeGetObject,
    DomainGetCurrent,
    ClassFromIl2CppType,
    ClassInit,
    GcMallocKind,
    SetupGcDescriptor,
    MethodName,
    Memcpy,
    StringNew,
    SpriteCreate2,
}

/// The bytes by which the code that makes a string of the runtime is known.
pub const STRING_NEW_PATTERN: &'static str =
    "ff 03 01 d1 fd 7b 02 a9 fd 83 00 91 f4 4f 03 a9 f3 03 00 aa ?? ?? ?? ?? 01 7c 40 92 e8 23 00 91 e0 03 13 aa f4 23 00 91 ?? ?? ?? ?? e8 23 40 39 0b fd 41 d3 e9 0f 40 f9";

impl EntryPoint {
    /// How the code is known.
    pub open spec fn spec_reference(&self) -> SymbolicReference {
        match self {
            EntryPoint::Init => SymbolicReference::Offset(0x14ce40),
            EntryPoint::GetImageByAssemblyName => SymbolicReference::Offset(0x14be60),
            EntryPoint::ClassFromName => SymbolicReference::Offset(0x151e30),
            EntryPoint::ObjectNew => SymbolicReference::Offset(0x15fb60),
            EntryPoint::GetMethodFromNameFlags => SymbolicReference::Offset(0x14f0c0),
            EntryPoint::AssemblyGetAllAssemblies => SymbolicReference::Offset(0x14bde0),
            EntryPoint::ArrayNewSpecific => SymbolicReference::Offset(0x14bbc0),
            EntryPoint::ArrayNew => SymbolicReference::Offset(0x14bb90),
            EntryPoint::TypeGetObject => SymbolicReference::Offset(0x162ad0),
            EntryPoint::DomainGetCurrent => SymbolicReference::Offset(0x1547d0),
            EntryPoint::ClassFromIl2CppType => SymbolicReference::Offset(0x14de90),
            EntryPoint::ClassInit => SymbolicReference::Offset(0x14bd30),
            EntryPoint::GcMallocKind => SymbolicReference::Offset(0x474370),
            EntryPoint::SetupGcDescriptor => SymbolicReference::Offset(0x4503c0),
            EntryPoint::MethodName => SymbolicReference::Offset(0x491ff0),
            EntryPoint::Memcpy => SymbolicReference::Offset(0x18eeb30),
            EntryPoint::StringNew => SymbolicReference::Pattern(STRING_NEW_PATTERN),
            EntryPoint::SpriteCreate2 => SymbolicReference::Offset(0x2f989c0),
        }
    }

    /// How the code is known.
    pub fn reference(&self) -> (r: SymbolicReference)
        ensures
            r == self.spec_reference(),
    {
        match self {
            EntryPoint::Init => SymbolicReference::Offset(0x14ce40),
            EntryPoint::GetImageByAssemblyName => SymbolicReference::Offset(0x14be60),
            EntryPoint::ClassFromName => SymbolicReference::Offset(0x151e30),
            EntryPoint::ObjectNew => SymbolicReference::Offset(0x15fb60),
            EntryPoint::GetMethodFromNameFlags => SymbolicReference::Offset(0x14f0c0),
            EntryPoint::AssemblyGetAllAssemblies => SymbolicReference::Offset(0x14bde0),
            EntryPoint::ArrayNewSpecific => SymbolicReference::Offset(0x14bbc0),
            EntryPoint::ArrayNew => SymbolicReference::Offset(0x14bb90),
            EntryPoint::TypeGetObject => SymbolicReference::Offset(0x162ad0),
            EntryPoint::DomainGetCurrent => SymbolicReference::Offset(domain_getcurrent_scan()),
            EntryPoint::ClassFromIl2CppType => SymbolicReference::Offset(0x14de90),
            EntryPoint::ClassInit => SymbolicReference::Offset(0x14bd30),
            EntryPoint::GcMallocKind => SymbolicReference::Offset(0x474370),
            EntryPoint::SetupGcDescriptor => SymbolicReference::Offset(0x4503c0),
            EntryPoint::MethodName => SymbolicReference::Offset(0x491ff0),
            EntryPoint::Memcpy => SymbolicReference::Offset(0x18eeb30),
            EntryPoint::StringNew => SymbolicReference::Pattern(STRING_NEW_PATTERN),
            EntryPoint::SpriteCreate2 => SymbolicReference::Offset(0x2f989c0),
        }
    }
}

/// The entry points of the runtime that this library calls. The embedding
/// program implements them by calls into the running process: it makes the
/// runtime's memory agree with each record that it is handed, and turns what
/// comes back into the records of this library. None of them promises
/// anything: each operation of the library states what it returns for
/// whatever the entry point answered.
pub trait Il2CppApi {
    /// Starts the runtime under the given domain name.
    fn init(&self, domain_name: &str) -> i32;

    /// The class of that namespace and name in the image, if the image has one.
    fn class_from_name(&self, image: &Il2CppImage, namespace: &str, name: &str) -> Option<
        Il2CppClass,
    >;

    /// A new object of the class, unless the runtime cannot make one.
    fn object_new(&self, klass: &Il2CppClass) -> Option<ObjectHeader>;

    /// The method of the class with that name, that many parameters and those
    /// flags, if there is one.
    fn get_method_from_name_flags(
        &self,
        class: &Il2CppClass,
        method_name: &str,
        args_count: usize,
        flags: u32,
    ) -> Option<MethodInfo>;

    /// The loaded modules, in the order in which they were registered.
    fn assembly_getallassemblies(&self) -> CppVector<Il2CppAssembly>;

    /// A new array of `length` elements whose own class is `array_typeinfo`.
    fn array_new_specific(&self, array_typeinfo: &Il2CppClass, length: usize) -> Option<
        ArrayHeader,
    >;

    /// A new array of `length` elements of the class `element_typeinfo`.
    fn array_new(&self, element_typeinfo: &Il2CppClass, length: usize) -> Option<ArrayHeader>;

    /// The reflection object that stands for the type.
    fn type_get_object(&self, ty: &Il2CppType) -> Option<Il2CppReflectionType>;

    /// The class that the type handle refers to.
    fn class_from_il2cpptype(&self, ty: &Il2CppType) -> Option<Il2CppClass>;

    /// Runs the static initializer of the class, unless it has run.
    fn class_init(&self, class: &Il2CppClass);

    /// The address of `size` fresh bytes that the garbage collector manages
    /// as blocks of the given kind.
    fn gc_malloc_kind(&self, size: usize, kind: u32) -> usize;

    /// The address of the internal call of that full name, null if there is none.
    fn method_name(&self, name: &str) -> usize;

    /// Calls the method through its invoker: on the object at `obj`, or on
    /// none where `obj` is null, with the boxed arguments at `params`.
    fn runtime_invoke(&self, method: &MethodInfo, obj: usize, params: &[usize]) -> Option<
        Il2CppReflectionType,
    >;

    /// Calls the method that makes a generic type concrete through its
    /// invoker, on no object, with the definition `generic` and the type
    /// arguments `args` as its boxed arguments.
    fn make_generic_type(
        &self,
        method: &MethodInfo,
        generic: &Il2CppReflectionType,
        args: &Array<Il2CppReflectionType>,
    ) -> Option<Il2CppReflectionType>;

    /// A new string of the runtime that holds `text`.
    fn string_new(&self, text: &str) -> Il2CppString;

    /// Calls the code at `method_ptr` with the given argument words, and with
    /// the method descriptor behind them where one is given. Returns the word
    /// that the code returned, zero where it returns nothing.
    fn call(&self, method_ptr: usize, args: &[usize], method_info: Option<&MethodInfo>) -> usize;
}

} // verus!
