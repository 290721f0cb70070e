//! Class descriptors, and how classes and methods are found.

use vstd::prelude::*;
use crate::Il2CppError;
use crate::Il2CppResult;
use crate::cppvector::CppVector;
use crate::il2cpp::Il2CppType;
use crate::il2cpp::api::Il2CppApi;
use crate::il2cpp::assembly::Il2CppAssembly;
use crate::il2cpp::assembly::Il2CppImage;
use crate::il2cpp::method::MethodInfo;
use crate::il2cpp::method::MethodInfoView;
use crate::il2cpp::method::invocation_result;
use crate::il2cpp::object::Array;
use crate::il2cpp::object::Il2CppObject;
use crate::il2cpp::object::object_allocated;
use crate::system::SystemType;
use crate::system::make_generic_type_found;
use crate::system::runtime_type_make_generic_type;
use crate::il2cpp::object::array_allocated;

verus! {

/// The number of bytes of a class descriptor before its virtual-method table.
pub const CLASS_HEADER_SIZE: usize = 0x138;

/// The number of bytes of one slot of a virtual-method table.
pub const VTABLE_SLOT_SIZE: usize = 0x10;

/// The kind of block of the garbage collector that may hold addresses and is
/// collected when nothing refers to it.
pub const GC_KIND_NORMAL: u32 = 1;

/// What links a class to the generic definition that it instantiates.
#[derive(Clone, Copy, Debug, PartialEq, Eq, Structural)]
pub struct Il2CppGenericClass {
    pub type_definition_idx: i32,
    pub class_inst: usize,
    pub method_inst: usize,
    /// The address of the class made for the instantiation; null until the
    /// runtime has made it.
    pub cached_class: usize,
}

/// The runtime generic context of a class, by the addresses of what it lists.
#[derive(Clone, Copy, Debug, PartialEq, Eq, Structural)]
pub struct Il2CppRGCTXData {
    pub class_self: usize,
    pub class_t: usize,
    pub osef_0: usize,
    pub osef_1: usize,
    pub get_instance: usize,
}

/// The first part of a class descriptor.
#[derive(Debug)]
pub struct Il2CppClass1 {
    /// The address of the image that declares the class.
    pub image: usize,
    pub gc_desc: usize,
    pub name: String,
    pub namespace: String,
    pub byval_arg: Il2CppType,
    pub this_arg: Il2CppType,
    /// The address of the class of the elements, for an array class.
    pub element_class: usize,
    /// The address of the parent class.
    pub parent: usize,
    pub generic_class: Option<Il2CppGenericClass>,
    /// The declared methods.
    pub methods: Vec<MethodInfo>,
    /// The addresses of the nested classes.
    pub nested_types: Vec<usize>,
    pub implemented_interfaces: usize,
    pub interface_offsets: usize,
}

/// The second part of a class descriptor: sizes and counts.
#[derive(Clone, Copy, Debug, PartialEq, Eq, Structural)]
pub struct Il2CppClass2 {
    pub instance_size: u32,
    pub actual_size: u32,
    pub token: u32,
    pub method_count: u16,
    pub property_count: u16,
    pub field_count: u16,
    pub event_count: u16,
    pub nested_type_count: u16,
    pub vtable_count: u16,
    pub interfaces_count: u16,
    pub interface_offsets_count: u16,
    pub type_hierarchy_depth: u8,
    pub generic_recursion_depth: u8,
    pub rank: u8,
}

/// One slot of a virtual-method table: the code that is called, and the
/// method that it implements.
#[derive(Debug)]
pub struct VirtualInvoke {
    pub method_ptr: usize,
    pub method_info: MethodInfo,
}

/// A class of the runtime.
#[derive(Debug)]
pub struct Il2CppClass {
    /// Where the descriptor lies in the runtime's memory.
    pub address: usize,
    pub _1: Il2CppClass1,
    /// The address of the static fields.
    pub static_fields: usize,
    pub rgctx_data: Il2CppRGCTXData,
    pub _2: Il2CppClass2,
    /// The virtual-method table, which lies behind the descriptor.
    pub vtable: Vec<VirtualInvoke>,
}

/// The reflection object that stands for a type.
#[derive(Clone, Copy, Debug, PartialEq, Eq, Structural)]
pub struct Il2CppReflectionType {
    /// Where the object lies in the runtime's memory.
    pub address: usize,
    pub ty: Il2CppType,
}

impl Default for Il2CppReflectionType {
    /// The null reference: what an element of a fresh array holds.
    fn default() -> (r: Self)
        ensures
            r == (Il2CppReflectionType { address: 0, ty: Il2CppType { data: 0, bits: 0 } }),
    {
        Il2CppReflectionType { address: 0, ty: Il2CppType { data: 0, bits: 0 } }
    }
}

/// What a slot of a virtual-method table holds.
pub struct VirtualInvokeView {
    pub method_ptr: usize,
    pub method_info: MethodInfoView,
}

impl View for VirtualInvoke {
    type V = VirtualInvokeView;

    open spec fn view(&self) -> VirtualInvokeView {
        VirtualInvokeView { method_ptr: self.method_ptr, method_info: self.method_info@ }
    }
}

/// What the first part of a class descriptor holds.
pub struct Il2CppClass1View {
    pub image: usize,
    pub gc_desc: usize,
    pub name: String,
    pub namespace: String,
    pub byval_arg: Il2CppType,
    pub this_arg: Il2CppType,
    pub element_class: usize,
    pub parent: usize,
    pub generic_class: Option<Il2CppGenericClass>,
    pub methods: Seq<MethodInfoView>,
    pub nested_types: Seq<usize>,
    pub implemented_interfaces: usize,
    pub interface_offsets: usize,
}

impl View for Il2CppClass1 {
    type V = Il2CppClass1View;

    open spec fn view(&self) -> Il2CppClass1View {
        Il2CppClass1View {
            image: self.image,
            gc_desc: self.gc_desc,
            name: self.name,
            namespace: self.namespace,
            byval_arg: self.byval_arg,
            this_arg: self.this_arg,
            element_class: self.element_class,
            parent: self.parent,
            generic_class: self.generic_class,
            methods: self.methods@.map_values(|m: MethodInfo| m@),
            nested_types: self.nested_types@,
            implemented_interfaces: self.implemented_interfaces,
            interface_offsets: self.interface_offsets,
        }
    }
}

/// What a class descriptor holds.
pub struct Il2CppClassView {
    pub address: usize,
    pub _1: Il2CppClass1View,
    pub static_fields: usize,
    pub rgctx_data: Il2CppRGCTXData,
    pub _2: Il2CppClass2,
    pub vtable: Seq<VirtualInvokeView>,
}

impl View for Il2CppClass {
    type V = Il2CppClassView;

    open spec fn view(&self) -> Il2CppClassView {
        Il2CppClassView {
            address: self.address,
            _1: self._1@,
            static_fields: self.static_fields,
            rgctx_data: self.rgctx_data,
            _2: self._2,
            vtable: self.vtable@.map_values(|slot: VirtualInvoke| slot@),
        }
    }
}

impl Clone for VirtualInvoke {
    fn clone(&self) -> (r: Self)
        ensures
            r@ == self@,
    {
        VirtualInvoke { method_ptr: self.method_ptr, method_info: self.method_info.clone() }
    }
}

impl VirtualInvoke {
    /// The name of the method that the slot implements, if the runtime holds one.
    pub fn get_name(&self) -> (r: Option<String>)
        ensures
            r == self.method_info.name,
    {
        self.method_info.get_name()
    }

    /// Whether the method that the slot implements has the name `name`: the
    /// whole name, letter for letter. A method without a name has no name at
    /// all, the empty one neither.
    pub open spec fn has_name(&self, name: Seq<char>) -> bool {
        self.method_info.name matches Some(text) && text@ == name
    }

    /// Whether the method that the slot implements has the name `name`.
    pub fn is_named(&self, name: &String) -> (r: bool)
        ensures
            r == self.has_name(name@),
    {
        match &self.method_info.name {
            Some(text) => {
                let same: bool = *text == *name;
                assert(same == (text@ == name@));
                same
            },
            None => false,
        }
    }
}

/// Whether no slot of `vtable` before position `end` has the name `name`.
pub open spec fn no_slot_named(vtable: Seq<VirtualInvoke>, name: Seq<char>, end: int) -> bool {
    forall|j: int| 0 <= j < end ==> !(#[trigger] vtable[j]).has_name(name)
}

/// Whether position `i` is the first of `vtable` whose slot has the name `name`.
pub open spec fn first_slot_named(vtable: Seq<VirtualInvoke>, name: Seq<char>, i: int) -> bool {
    &&& 0 <= i < vtable.len()
    &&& vtable[i].has_name(name)
    &&& no_slot_named(vtable, name, i)
}

/// Whether none of `methods` before position `end` has the name `name`.
pub open spec fn no_method_named(methods: Seq<MethodInfo>, name: Seq<char>, end: int) -> bool {
    forall|j: int|
        0 <= j < end ==> !((#[trigger] methods[j]).name matches Some(text) && text@ == name)
}

/// Whether position `i` is the first of `methods` whose method has the name `name`.
pub open spec fn first_method_named(methods: Seq<MethodInfo>, name: Seq<char>, i: int) -> bool {
    &&& 0 <= i < methods.len()
    &&& methods[i].name matches Some(text) && text@ == name
    &&& no_method_named(methods, name, i)
}

/// Copies of the methods, in order.
pub fn clone_methods(methods: &Vec<MethodInfo>) -> (r: Vec<MethodInfo>)
    ensures
        r@.map_values(|m: MethodInfo| m@) == methods@.map_values(|m: MethodInfo| m@),
{
    let mut copy: Vec<MethodInfo> = Vec::with_capacity(methods.len());
    let mut done: usize = 0;
    while done < methods.len()
        invariant
            done <= methods@.len(),
            copy@.len() == done,
            forall|k: int| 0 <= k < done ==> (#[trigger] copy@[k])@ == methods@[k]@,
        decreases methods@.len() - done,
    {
        copy.push(methods[done].clone());
        done += 1;
    }
    assert(copy@.map_values(|m: MethodInfo| m@) =~= methods@.map_values(|m: MethodInfo| m@));
    copy
}

/// Copies of the slots, in order.
pub fn clone_vtable(vtable: &Vec<VirtualInvoke>) -> (r: Vec<VirtualInvoke>)
    ensures
        r@.map_values(|slot: VirtualInvoke| slot@) == vtable@.map_values(
            |slot: VirtualInvoke| slot@,
        ),
{
    let mut copy: Vec<VirtualInvoke> = Vec::with_capacity(vtable.len());
    let mut done: usize = 0;
    while done < vtable.len()
        invariant
            done <= vtable@.len(),
            copy@.len() == done,
            forall|k: int| 0 <= k < done ==> (#[trigger] copy@[k])@ == vtable@[k]@,
        decreases vtable@.len() - done,
    {
        copy.push(vtable[done].clone());
        done += 1;
    }
    assert(copy@.map_values(|slot: VirtualInvoke| slot@) =~= vtable@.map_values(
        |slot: VirtualInvoke| slot@,
    ));
    copy
}

impl Clone for Il2CppClass1 {
    fn clone(&self) -> (r: Self)
        ensures
            r@ == self@,
    {
        Il2CppClass1 {
            image: self.image,
            gc_desc: self.gc_desc,
            name: self.name.clone(),
            namespace: self.namespace.clone(),
            byval_arg: self.byval_arg,
            this_arg: self.this_arg,
            element_class: self.element_class,
            parent: self.parent,
            generic_class: self.generic_class,
            methods: clone_methods(&self.methods),
            nested_types: self.nested_types.clone(),
            implemented_interfaces: self.implemented_interfaces,
            interface_offsets: self.interface_offsets,
        }
    }
}

impl Il2CppClass {
    /// Whether the descriptor counts as many methods, nested classes and
    /// slots of the virtual-method table as it lists.
    pub open spec fn wf(&self) -> bool {
        &&& self._1.methods@.len() == self._2.method_count
        &&& self._1.nested_types@.len() == self._2.nested_type_count
        &&& self.vtable@.len() == self._2.vtable_count
    }

    /// The number of bytes that the descriptor and its virtual-method table
    /// take in the runtime's memory.
    pub open spec fn spec_clone_size(&self) -> int {
        CLASS_HEADER_SIZE + VTABLE_SLOT_SIZE * self._2.vtable_count
    }

    /// The number of bytes that the descriptor and its virtual-method table
    /// take in the runtime's memory.
    pub fn clone_size(&self) -> (r: usize)
        ensures
            r == self.spec_clone_size(),
    {
        let slots: usize = self._2.vtable_count as usize;
        CLASS_HEADER_SIZE + VTABLE_SLOT_SIZE * slots
    }

    /// A copy of the record: what was read of the same descriptor.
    pub fn copy(&self) -> (r: Il2CppClass)
        ensures
            r@ == self@,
            self.wf() ==> r.wf(),
    {
        let copy = Il2CppClass {
            address: self.address,
            _1: self._1.clone(),
            static_fields: self.static_fields,
            rgctx_data: self.rgctx_data,
            _2: self._2,
            vtable: clone_vtable(&self.vtable),
        };
        proof {
            assert(copy@._1.methods.len() == copy._1.methods@.len());
            assert(self@._1.methods.len() == self._1.methods@.len());
            assert(copy@.vtable.len() == copy.vtable@.len());
            assert(self@.vtable.len() == self.vtable@.len());
        }
        copy
    }

    /// A descriptor of one's own: a copy of this one, table included, in
    /// fresh memory of the garbage collector. A change to the copy leaves
    /// the class that the runtime and its objects share as it was.
    pub fn clone<A: Il2CppApi>(&self, api: &A) -> (r: Il2CppClass)
        ensures
            call_ensures(
                A::gc_malloc_kind,
                (api, self.spec_clone_size() as usize, GC_KIND_NORMAL),
                r.address,
            ),
            r@ == (Il2CppClassView { address: r.address, ..self@ }),
            self.wf() ==> r.wf(),
    {
        let address: usize = api.gc_malloc_kind(self.clone_size(), GC_KIND_NORMAL);
        let copy = Il2CppClass {
            address,
            _1: self._1.clone(),
            static_fields: self.static_fields,
            rgctx_data: self.rgctx_data,
            _2: self._2,
            vtable: clone_vtable(&self.vtable),
        };
        proof {
            assert(copy@._1.methods.len() == copy._1.methods@.len());
            assert(self@._1.methods.len() == self._1.methods@.len());
            assert(copy@.vtable.len() == copy.vtable@.len());
            assert(self@.vtable.len() == self.vtable@.len());
        }
        copy
    }

    /// The address of the static fields of the class.
    pub fn get_static_fields(&self) -> (r: usize)
        ensures
            r == self.static_fields,
    {
        self.static_fields
    }

    /// The type handle of the class.
    pub fn get_type(&self) -> (r: &Il2CppType)
        ensures
            *r == self._1.byval_arg,
    {
        &self._1.byval_arg
    }

    /// The name of the class.
    pub fn get_name(&self) -> (r: String)
        ensures
            r == self._1.name,
    {
        self._1.name.clone()
    }

    /// The namespace of the class.
    pub fn get_namespace(&self) -> (r: String)
        ensures
            r == self._1.namespace,
    {
        self._1.namespace.clone()
    }

    /// The virtual-method table.
    pub fn get_vtable(&self) -> (r: &[VirtualInvoke])
        ensures
            r@ == self.vtable@,
    {
        self.vtable.as_slice()
    }

    /// The virtual-method table, to be changed in place.
    pub fn get_vtable_mut(&mut self) -> (r: &mut [VirtualInvoke])
        ensures
            r@ == old(self).vtable@,
            final(self).vtable@ == final(r)@,
            final(self).address == old(self).address,
            final(self)._1 == old(self)._1,
            final(self).static_fields == old(self).static_fields,
            final(self).rgctx_data == old(self).rgctx_data,
            final(self)._2 == old(self)._2,
    {
        self.vtable.as_mut_slice()
    }

    /// The position of the first slot of the table whose method has the name
    /// `name`, if there is one.
    pub fn find_virtual_method(&self, name: &str) -> (r: Option<usize>)
        ensures
            match r {
                Some(i) => first_slot_named(self.vtable@, name@, i as int),
                None => no_slot_named(self.vtable@, name@, self.vtable@.len() as int),
            },
    {
        let wanted: String = name.to_owned();
        let mut i: usize = 0;
        while i < self.vtable.len()
            invariant
                i <= self.vtable@.len(),
                wanted@ == name@,
                no_slot_named(self.vtable@, name@, i as int),
            decreases self.vtable@.len() - i,
        {
            if self.vtable[i].is_named(&wanted) {
                return Some(i);
            }
            i += 1;
        }
        None
    }

    /// The first slot of the virtual-method table whose method has the name
    /// `name`, if there is one. The table and the class stay as they are.
    pub fn get_virtual_method(&self, name: &str) -> (r: Option<&VirtualInvoke>)
        ensures
            match r {
                Some(slot) => exists|i: int|
                    first_slot_named(self.vtable@, name@, i) && *slot == self.vtable@[i],
                None => no_slot_named(self.vtable@, name@, self.vtable@.len() as int),
            },
    {
        match self.find_virtual_method(name) {
            Some(i) => Some(&self.vtable[i]),
            None => None,
        }
    }

    /// The first slot of the virtual-method table whose method has the name
    /// `name`, to be changed in place.
    pub fn get_virtual_method_mut(&mut self, name: &str) -> (r: Option<&mut VirtualInvoke>)
        ensures
            match r {
                Some(slot) => exists|i: int|
                    first_slot_named(old(self).vtable@, name@, i) && *slot == old(self).vtable@[i]
                        && final(self).vtable@ == old(self).vtable@.update(i, *final(slot)),
                None => no_slot_named(old(self).vtable@, name@, old(self).vtable@.len() as int)
                    && final(self).vtable@ == old(self).vtable@,
            },
            final(self).address == old(self).address,
            final(self)._1 == old(self)._1,
            final(self).static_fields == old(self).static_fields,
            final(self).rgctx_data == old(self).rgctx_data,
            final(self)._2 == old(self)._2,
    {
        match self.find_virtual_method(name) {
            Some(i) => Some(&mut self.vtable[i]),
            None => None,
        }
    }

    /// The position of the first declared method of the name `name`, if
    /// there is one. A method without a name has no name at all.
    pub fn find_method(&self, name: &str) -> (r: Option<usize>)
        ensures
            match r {
                Some(i) => first_method_named(self._1.methods@, name@, i as int),
                None => no_method_named(self._1.methods@, name@, self._1.methods@.len() as int),
            },
    {
        let wanted: String = name.to_owned();
        let mut i: usize = 0;
        while i < self._1.methods.len()
            invariant
                i <= self._1.methods@.len(),
                wanted@ == name@,
                no_method_named(self._1.methods@, name@, i as int),
            decreases self._1.methods@.len() - i,
        {
            let named: bool = match &self._1.methods[i].name {
                Some(text) => {
                    let same: bool = *text == wanted;
                    assert(same == (text@ == name@));
                    same
                },
                None => false,
            };
            if named {
                return Some(i);
            }
            i += 1;
        }
        None
    }

    /// The declared methods.
    pub fn get_methods(&self) -> (r: &[MethodInfo])
        ensures
            r@ == self._1.methods@,
    {
        self._1.methods.as_slice()
    }

    /// The addresses of the nested classes.
    pub fn get_nested_types(&self) -> (r: &[usize])
        ensures
            r@ == self._1.nested_types@,
    {
        self._1.nested_types.as_slice()
    }
}


/// Whether none of the modules at the positions from `from` up to, not
/// including, `to` has answered with a class of that namespace and name.
pub open spec fn no_class_in<A: Il2CppApi>(
    api: &A,
    assemblies: Seq<Il2CppAssembly>,
    namespace: &str,
    name: &str,
    from: int,
    to: int,
) -> bool {
    forall|j: int|
        from <= j < to ==> call_ensures(
            A::class_from_name,
            (api, &(#[trigger] assemblies[j]).image, namespace, name),
            None::<Il2CppClass>,
        )
}

/// Whether the module at position `i` has answered with `class`, and none of
/// the modules registered after it with a class.
pub open spec fn class_found_in<A: Il2CppApi>(
    api: &A,
    assemblies: Seq<Il2CppAssembly>,
    namespace: &str,
    name: &str,
    i: int,
    class: Il2CppClass,
) -> bool {
    &&& 0 <= i < assemblies.len()
    &&& call_ensures(A::class_from_name, (api, &assemblies[i].image, namespace, name), Some(class))
    &&& no_class_in(api, assemblies, namespace, name, i + 1, assemblies.len() as int)
}

/// What the search for a class among the loaded modules gives for each run of
/// answers of the runtime: the class of the module registered last among
/// those that have one, or the failure that carries the name.
pub open spec fn class_search<A: Il2CppApi>(
    api: &A,
    assemblies: Seq<Il2CppAssembly>,
    namespace: &str,
    name: &str,
    r: Il2CppResult<Il2CppClass>,
) -> bool {
    match r {
        Ok(class) => exists|i: int| class_found_in(api, assemblies, namespace, name, i, class),
        Err(e) => {
            &&& e matches Il2CppError::MissingClass(text)
            &&& text@ == name@
            &&& no_class_in(api, assemblies, namespace, name, 0, assemblies.len() as int)
        },
    }
}

/// What the search for a class among the modules that the runtime has loaded
/// gives for each run of answers of the runtime.
pub open spec fn class_resolved<A: Il2CppApi>(
    api: &A,
    namespace: &str,
    name: &str,
    r: Il2CppResult<Il2CppClass>,
) -> bool {
    exists|assemblies: CppVector<Il2CppAssembly>|
        call_ensures(A::assembly_getallassemblies, (api,), assemblies) && class_search(
            api,
            assemblies@,
            namespace,
            name,
            r,
        )
}

/// What the search for a method of `class` gives for each answer of the runtime.
pub open spec fn method_search<A: Il2CppApi>(
    api: &A,
    class: &Il2CppClass,
    name: &str,
    args_count: usize,
    flag: u32,
    r: Il2CppResult<MethodInfo>,
) -> bool {
    match r {
        Ok(method) => call_ensures(
            A::get_method_from_name_flags,
            (api, class, name, args_count, flag),
            Some(method),
        ),
        Err(e) => {
            &&& e is MissingMethod
            &&& call_ensures(
                A::get_method_from_name_flags,
                (api, class, name, args_count, flag),
                None::<MethodInfo>,
            )
        },
    }
}

/// What the query for the class of a type handle gives for each answer of the
/// runtime. A class that is returned has had its static initializer run.
pub open spec fn class_of_type<A: Il2CppApi>(
    api: &A,
    ty: &Il2CppType,
    r: Il2CppResult<Il2CppClass>,
) -> bool {
    match r {
        Ok(class) => {
            &&& call_ensures(A::class_from_il2cpptype, (api, ty), Some(class))
            &&& call_ensures(A::class_init, (api, &class), ())
        },
        Err(e) => {
            &&& e is MissingClassForType
            &&& call_ensures(A::class_from_il2cpptype, (api, ty), None::<Il2CppClass>)
        },
    }
}

/// What the query for the reflection object of a type gives for each answer
/// of the runtime.
pub open spec fn reflection_of<A: Il2CppApi>(
    api: &A,
    ty: &Il2CppType,
    r: Il2CppResult<Il2CppReflectionType>,
) -> bool {
    match r {
        Ok(object) => call_ensures(A::type_get_object, (api, ty), Some(object)),
        Err(e) => {
            &&& e is FailedReflectionQuerying
            &&& call_ensures(A::type_get_object, (api, ty), None::<Il2CppReflectionType>)
        },
    }
}

/// The class that a module had, or the failure that carries `name` where
/// none had one.
pub fn class_or_missing(found: Option<Il2CppClass>, name: &str) -> (r: Il2CppResult<Il2CppClass>)
    ensures
        match found {
            Some(class) => r == Ok::<Il2CppClass, Il2CppError>(class),
            None => r matches Err(Il2CppError::MissingClass(text)) && text@ == name@,
        },
{
    match found {
        Some(class) => Ok(class),
        None => Err(Il2CppError::MissingClass(name.to_owned())),
    }
}

/// The class of that namespace and name among `assemblies`. The modules are
/// asked from the one registered last to the one registered first, and the
/// first class that one of them has is the answer: a class of the program
/// wins over one of the same name in the framework that was loaded before it.
pub fn find_class<A: Il2CppApi>(
    api: &A,
    assemblies: &CppVector<Il2CppAssembly>,
    namespace: &str,
    name: &str,
) -> (r: Il2CppResult<Il2CppClass>)
    ensures
        class_search(api, assemblies@, namespace, name, r),
{
    let mut left: usize = assemblies.len();
    while left > 0
        invariant
            left <= assemblies@.len(),
            no_class_in(api, assemblies@, namespace, name, left as int, assemblies@.len() as int),
        decreases left,
    {
        left -= 1;
        let assembly: &Il2CppAssembly = &assemblies.as_slice()[left];
        let found: Option<Il2CppClass> = api.class_from_name(&assembly.image, namespace, name);
        if found.is_some() {
            proof {
                assert(class_found_in(
                    api,
                    assemblies@,
                    namespace,
                    name,
                    left as int,
                    found->Some_0,
                ));
            }
            return class_or_missing(found, name);
        }
    }
    class_or_missing(None, name)
}

/// The class of that namespace and name among the modules that the runtime
/// has loaded.
pub fn get_class_from_name<A: Il2CppApi>(api: &A, namespace: &str, name: &str) -> (r: Il2CppResult<
    Il2CppClass,
>)
    ensures
        class_resolved(api, namespace, name, r),
{
    let assemblies: CppVector<Il2CppAssembly> = crate::il2cpp::assembly::get_assemblies(api);
    find_class(api, &assemblies, namespace, name)
}

/// The method of that name and number of parameters of the class of that
/// namespace and name.
pub fn get_class_method_from_name<A: Il2CppApi>(
    api: &A,
    namespace: &str,
    name: &str,
    method: &str,
    args_count: usize,
) -> (r: Il2CppResult<MethodInfo>)
    ensures
        exists|found: Il2CppResult<Il2CppClass>|
            {
                &&& class_resolved(api, namespace, name, found)
                &&& match found {
                    Ok(class) => method_search(api, &class, method, args_count, 0, r),
                    Err(e) => r == Err::<MethodInfo, Il2CppError>(e),
                }
            },
{
    match get_class_from_name(api, namespace, name) {
        Ok(class) => class.get_method_from_name(api, method, args_count),
        Err(e) => Err(e),
    }
}

/// The method that the runtime found, or the failure to find one.
pub fn method_or_missing(found: Option<MethodInfo>) -> (r: Il2CppResult<MethodInfo>)
    ensures
        match found {
            Some(method) => r == Ok::<MethodInfo, Il2CppError>(method),
            None => r == Err::<MethodInfo, Il2CppError>(Il2CppError::MissingMethod),
        },
{
    match found {
        Some(method) => Ok(method),
        None => Err(Il2CppError::MissingMethod),
    }
}

/// The class that the type handle refers to, with its static initializer run.
pub fn class_from_il2cpptype<A: Il2CppApi>(api: &A, ty: &Il2CppType) -> (r: Il2CppResult<
    Il2CppClass,
>)
    ensures
        class_of_type(api, ty, r),
{
    match api.class_from_il2cpptype(ty) {
        Some(class) => {
            api.class_init(&class);
            Ok(class)
        },
        None => Err(Il2CppError::MissingClassForType),
    }
}

/// The class that the reflection object stands for, with its static
/// initializer run.
pub fn class_from_system_type<A: Il2CppApi>(api: &A, ty: &Il2CppReflectionType) -> (r:
    Il2CppResult<Il2CppClass>)
    ensures
        class_of_type(api, &ty.ty, r),
{
    class_from_il2cpptype(api, &ty.ty)
}

/// The reflection object that the runtime has for the type.
pub fn reflection_or_failure(found: Option<Il2CppReflectionType>) -> (r: Il2CppResult<
    Il2CppReflectionType,
>)
    ensures
        match found {
            Some(object) => r == Ok::<Il2CppReflectionType, Il2CppError>(object),
            None => r == Err::<Il2CppReflectionType, Il2CppError>(
                Il2CppError::FailedReflectionQuerying,
            ),
        },
{
    match found {
        Some(object) => Ok(object),
        None => Err(Il2CppError::FailedReflectionQuerying),
    }
}

impl Il2CppType {
    /// The reflection object that stands for the type.
    pub fn get_object<A: Il2CppApi>(api: &A, ty: &Self) -> (r: Il2CppResult<Il2CppReflectionType>)
        ensures
            reflection_of(api, ty, r),
    {
        reflection_or_failure(api.type_get_object(ty))
    }
}

impl Il2CppClass {
    /// The class of that namespace and name among the modules that the
    /// runtime has loaded.
    pub fn from_name<A: Il2CppApi>(api: &A, namespace: &str, name: &str) -> (r: Il2CppResult<Self>)
        ensures
            class_resolved(api, namespace, name, r),
    {
        get_class_from_name(api, namespace, name)
    }

    /// The class that the type handle refers to, with its static initializer run.
    pub fn from_il2cpptype<A: Il2CppApi>(api: &A, ty: &Il2CppType) -> (r: Il2CppResult<Self>)
        ensures
            class_of_type(api, ty, r),
    {
        class_from_il2cpptype(api, ty)
    }

    /// The class that the reflection object stands for, with its static
    /// initializer run.
    pub fn from_system_type<A: Il2CppApi>(api: &A, ty: &Il2CppReflectionType) -> (r: Il2CppResult<
        Self,
    >)
        ensures
            class_of_type(api, &ty.ty, r),
    {
        class_from_system_type(api, ty)
    }

    /// The class that this generic class gives with the classes `args` as
    /// its type arguments.
    pub fn with_generic_type<A: Il2CppApi>(&self, api: &A, args: &[Il2CppClass]) -> (r:
        Il2CppResult<Il2CppClass>)
        ensures
            generic_instantiated(api, self, args@, r),
    {
        make_generic(api, self, args)
    }

    /// The method of the class with that name and that many parameters.
    pub fn get_method_from_name<A: Il2CppApi>(&self, api: &A, name: &str, args_count: usize) -> (r:
        Il2CppResult<MethodInfo>)
        ensures
            method_search(api, self, name, args_count, 0, r),
    {
        self.get_method_from_name_with_flag(api, name, args_count, 0)
    }

    /// The method of the class with that name, that many parameters and
    /// those flags. The number of parameters tells overloads apart.
    pub fn get_method_from_name_with_flag<A: Il2CppApi>(
        &self,
        api: &A,
        name: &str,
        args_count: usize,
        flag: u32,
    ) -> (r: Il2CppResult<MethodInfo>)
        ensures
            method_search(api, self, name, args_count, flag, r),
    {
        method_or_missing(api.get_method_from_name_flags(self, name, args_count, flag))
    }
}


/// What the call that makes a generic type concrete gives for each answer of
/// the runtime. A method that lacks its code or its invoker is not called.
pub open spec fn generic_type_made<A: Il2CppApi>(
    api: &A,
    method: &MethodInfo,
    generic: &Il2CppReflectionType,
    args: &Array<Il2CppReflectionType>,
    r: Il2CppResult<Il2CppReflectionType>,
) -> bool {
    match r {
        Ok(made) => {
            &&& method.spec_can_invoke()
            &&& call_ensures(A::make_generic_type, (api, method, generic, args), Some(made))
        },
        Err(e) => {
            &&& e is FailedMethodInvocation
            &&& (!method.spec_can_invoke() || call_ensures(
                A::make_generic_type,
                (api, method, generic, args),
                None::<Il2CppReflectionType>,
            ))
        },
    }
}

/// The reflection object of the generic type `generic` made concrete with the
/// type arguments `args`, by a call of `make_generic_method` through its
/// invoker.
pub fn make_generic_type<A: Il2CppApi>(
    api: &A,
    make_generic_method: &MethodInfo,
    generic: &Il2CppReflectionType,
    args: &Array<Il2CppReflectionType>,
) -> (r: Il2CppResult<Il2CppReflectionType>)
    ensures
        generic_type_made(api, make_generic_method, generic, args, r),
{
    if make_generic_method.can_invoke() {
        invocation_result(api.make_generic_type(make_generic_method, generic, args))
    } else {
        Err(Il2CppError::FailedMethodInvocation)
    }
}

/// The number of type arguments that are written into an array of `slots`
/// elements.
pub open spec fn arguments_written(types: Seq<Il2CppClass>, slots: int) -> int {
    if types.len() <= slots {
        types.len() as int
    } else {
        slots
    }
}

/// Whether `filled` is `array` with the reflection object of each of the
/// first `count` classes of `types` in the element of the same position.
pub open spec fn arguments_reflected<A: Il2CppApi>(
    api: &A,
    types: Seq<Il2CppClass>,
    array: Array<Il2CppReflectionType>,
    filled: Array<Il2CppReflectionType>,
    count: int,
) -> bool {
    &&& filled.address == array.address
    &&& filled.klass == array.klass
    &&& filled.monitor == array.monitor
    &&& filled.fields.bounds == array.fields.bounds
    &&& filled.fields.max_length == array.fields.max_length
    &&& filled.fields.m_items@.len() == array.fields.m_items@.len()
    &&& forall|k: int|
        0 <= k < count ==> call_ensures(
            A::type_get_object,
            (api, &(#[trigger] types[k])._1.byval_arg),
            Some(filled.fields.m_items@[k]),
        )
    &&& forall|k: int|
        count <= k < array.fields.m_items@.len() ==> #[trigger] filled.fields.m_items@[k]
            == array.fields.m_items@[k]
}

/// Whether `filled` is `array` with the reflection object of each class of
/// `types` in the element of the same position, as far as both reach.
pub open spec fn all_arguments_reflected<A: Il2CppApi>(
    api: &A,
    types: Seq<Il2CppClass>,
    array: Array<Il2CppReflectionType>,
    filled: Array<Il2CppReflectionType>,
) -> bool {
    arguments_reflected(
        api,
        types,
        array,
        filled,
        arguments_written(types, array.fields.m_items@.len() as int),
    )
}

/// Whether the runtime had no reflection object for the class at position
/// `k` of `types`, after `partly` was made of `array` with the reflection
/// objects of the classes before it.
pub open spec fn argument_refused_at<A: Il2CppApi>(
    api: &A,
    types: Seq<Il2CppClass>,
    array: Array<Il2CppReflectionType>,
    partly: Array<Il2CppReflectionType>,
    k: int,
) -> bool {
    &&& 0 <= k < arguments_written(types, array.fields.m_items@.len() as int)
    &&& arguments_reflected(api, types, array, partly, k)
    &&& call_ensures(A::type_get_object, (api, &types[k]._1.byval_arg), None::<Il2CppReflectionType>)
}

/// Whether `filled` is the array of type arguments that the runtime made for
/// `types`: a new array of the class `system_type` with one element for each
/// class, filled with their reflection objects.
pub open spec fn arguments_prepared<A: Il2CppApi>(
    api: &A,
    system_type: &Il2CppClass,
    types: Seq<Il2CppClass>,
    filled: Array<Il2CppReflectionType>,
) -> bool {
    exists|array: Array<Il2CppReflectionType>|
        array_allocated(api, system_type, types.len() as usize, true, Ok(array))
            && #[trigger] all_arguments_reflected(api, types, array, filled)
}

/// Whether the runtime made the array of type arguments for `types` and then
/// had no reflection object for one of the classes.
pub open spec fn argument_refused<A: Il2CppApi>(
    api: &A,
    system_type: &Il2CppClass,
    types: Seq<Il2CppClass>,
) -> bool {
    exists|array: Array<Il2CppReflectionType>, partly: Array<Il2CppReflectionType>, k: int|
        array_allocated(api, system_type, types.len() as usize, true, Ok(array))
            && #[trigger] argument_refused_at(api, types, array, partly, k)
}

/// Whether the runtime answered every step of the instantiation up to the
/// call that makes the generic type concrete: `filled` is the array of type
/// arguments, `class_type` the reflection object of the generic class, and
/// `made` what the call gave.
pub open spec fn generic_called<A: Il2CppApi>(
    api: &A,
    system_type: &Il2CppClass,
    make_generic_method: &MethodInfo,
    generic_class: &Il2CppClass,
    types: Seq<Il2CppClass>,
    filled: Array<Il2CppReflectionType>,
    class_type: Il2CppReflectionType,
    made: Il2CppResult<Il2CppReflectionType>,
) -> bool {
    &&& arguments_prepared(api, system_type, types, filled)
    &&& reflection_of(api, &generic_class._1.byval_arg, Ok(class_type))
    &&& generic_type_made(api, make_generic_method, &class_type, &filled, made)
}

/// What the instantiation of a generic class gives for each run of answers
/// of the runtime: the class of the type that the call gave, or the failure
/// of the first step that the runtime did not answer.
pub open spec fn generic_made<A: Il2CppApi>(
    api: &A,
    system_type: &Il2CppClass,
    make_generic_method: &MethodInfo,
    generic_class: &Il2CppClass,
    types: Seq<Il2CppClass>,
    r: Il2CppResult<Il2CppClass>,
) -> bool {
    match r {
        Ok(class) => exists|
            filled: Array<Il2CppReflectionType>,
            class_type: Il2CppReflectionType,
            made: Il2CppReflectionType,
        |
            #[trigger] generic_called(
                api,
                system_type,
                make_generic_method,
                generic_class,
                types,
                filled,
                class_type,
                Ok(made),
            ) && class_of_type(api, &made.ty, Ok(class)),
        Err(Il2CppError::FailedArrayInstantiation) => array_allocated(
            api,
            system_type,
            types.len() as usize,
            true,
            Err::<Array<Il2CppReflectionType>, Il2CppError>(
                Il2CppError::FailedArrayInstantiation,
            ),
        ),
        Err(Il2CppError::FailedReflectionQuerying) => {
            ||| argument_refused(api, system_type, types)
            ||| exists|filled: Array<Il2CppReflectionType>|
                #[trigger] arguments_prepared(api, system_type, types, filled) && call_ensures(
                    A::type_get_object,
                    (api, &generic_class._1.byval_arg),
                    None::<Il2CppReflectionType>,
                )
        },
        Err(Il2CppError::FailedMethodInvocation) => exists|
            filled: Array<Il2CppReflectionType>,
            class_type: Il2CppReflectionType,
        |
            #[trigger] generic_called(
                api,
                system_type,
                make_generic_method,
                generic_class,
                types,
                filled,
                class_type,
                Err::<Il2CppReflectionType, Il2CppError>(Il2CppError::FailedMethodInvocation),
            ),
        Err(Il2CppError::MissingClassForType) => exists|
            filled: Array<Il2CppReflectionType>,
            class_type: Il2CppReflectionType,
            made: Il2CppReflectionType,
        |
            #[trigger] generic_called(
                api,
                system_type,
                make_generic_method,
                generic_class,
                types,
                filled,
                class_type,
                Ok(made),
            ) && class_of_type(
                api,
                &made.ty,
                Err::<Il2CppClass, Il2CppError>(Il2CppError::MissingClassForType),
            ),
        Err(_) => false,
    }
}

/// Writes the reflection object of each class of `types` into the element of
/// `array` of the same position, as far as both reach. Stops at the first
/// class for which the runtime has no reflection object.
pub fn reflect_arguments<A: Il2CppApi>(
    api: &A,
    types: &[Il2CppClass],
    array: &mut Array<Il2CppReflectionType>,
) -> (r: Il2CppResult<()>)
    ensures
        match r {
            Ok(_) => all_arguments_reflected(api, types@, *old(array), *final(array)),
            Err(e) => {
                &&& e is FailedReflectionQuerying
                &&& exists|k: int|
                    #[trigger] argument_refused_at(api, types@, *old(array), *final(array), k)
            },
        },
{
    let count: usize = if types.len() <= array.fields.m_items.len() {
        types.len()
    } else {
        array.fields.m_items.len()
    };
    let mut k: usize = 0;
    while k < count
        invariant
            k <= count,
            count == arguments_written(types@, old(array).fields.m_items@.len() as int),
            arguments_reflected(api, types@, *old(array), *array, k as int),
        decreases count - k,
    {
        match Il2CppType::get_object(api, types[k].get_type()) {
            Ok(entry) => {
                array.fields.m_items.set(k, entry);
            },
            Err(e) => {
                proof {
                    assert(argument_refused_at(api, types@, *old(array), *array, k as int));
                }
                return Err(e);
            },
        }
        k += 1;
    }
    Ok(())
}

/// The class that the generic class `generic_class` gives with the classes
/// `types` as its type arguments, where the class of the reflection objects
/// that stand for types and the method of the runtime that makes a generic
/// type concrete are at hand: `system_type` and `make_generic_method`.
pub fn make_generic_with<A: Il2CppApi>(
    api: &A,
    system_type: &Il2CppClass,
    make_generic_method: &MethodInfo,
    generic_class: &Il2CppClass,
    types: &[Il2CppClass],
) -> (r: Il2CppResult<Il2CppClass>)
    ensures
        generic_made(api, system_type, make_generic_method, generic_class, types@, r),
{
    let allocated: Il2CppResult<Array<Il2CppReflectionType>> = Array::new_specific(
        api,
        system_type,
        types.len(),
    );
    let mut array: Array<Il2CppReflectionType> = match allocated {
        Ok(array) => array,
        Err(e) => {
            return Err(e);
        },
    };
    let ghost fresh = array;
    match reflect_arguments(api, types, &mut array) {
        Ok(_) => {},
        Err(e) => {
            proof {
                let k = choose|k: int|
                    #[trigger] argument_refused_at(api, types@, fresh, array, k);
                assert(argument_refused_at(api, types@, fresh, array, k));
                assert(argument_refused(api, system_type, types@));
            }
            return Err(e);
        },
    }
    proof {
        assert(all_arguments_reflected(api, types@, fresh, array));
        assert(arguments_prepared(api, system_type, types@, array));
    }
    let class_type: Il2CppReflectionType = match Il2CppType::get_object(
        api,
        generic_class.get_type(),
    ) {
        Ok(object) => object,
        Err(e) => {
            return Err(e);
        },
    };
    let called: Il2CppResult<Il2CppReflectionType> = make_generic_type(
        api,
        make_generic_method,
        &class_type,
        &array,
    );
    proof {
        assert(generic_called(
            api,
            system_type,
            make_generic_method,
            generic_class,
            types@,
            array,
            class_type,
            called,
        ));
    }
    let reflection_type: Il2CppReflectionType = match called {
        Ok(made) => made,
        Err(e) => {
            return Err(e);
        },
    };
    Il2CppClass::from_system_type(api, &reflection_type)
}

/// What the instantiation of a generic class gives, once the class
/// `system_type` of the reflection objects that stand for types is at hand,
/// for each run of answers of the runtime: the failure to find the method
/// that makes a generic type concrete, or what the instantiation with that
/// method gives.
pub open spec fn generic_instantiated_with<A: Il2CppApi>(
    api: &A,
    system_type: Il2CppClass,
    generic_class: &Il2CppClass,
    types: Seq<Il2CppClass>,
    r: Il2CppResult<Il2CppClass>,
) -> bool {
    exists|method: Il2CppResult<MethodInfo>|
        #[trigger] make_generic_type_found(api, method) && match method {
            Ok(make_generic_method) => generic_made(
                api,
                &system_type,
                &make_generic_method,
                generic_class,
                types,
                r,
            ),
            Err(e) => r == Err::<Il2CppClass, Il2CppError>(e),
        }
}

/// What the instantiation of a generic class gives for each run of answers
/// of the runtime: the failure to find the class of the reflection objects
/// that stand for types, the failure to find the method that makes a generic
/// type concrete, or what the instantiation with the two gives.
pub open spec fn generic_instantiated<A: Il2CppApi>(
    api: &A,
    generic_class: &Il2CppClass,
    types: Seq<Il2CppClass>,
    r: Il2CppResult<Il2CppClass>,
) -> bool {
    exists|system_type: Il2CppResult<Il2CppClass>|
        #[trigger] class_resolved(api, SystemType::NAMESPACE, SystemType::CLASS, system_type)
            && match system_type {
            Ok(class) => generic_instantiated_with(api, class, generic_class, types, r),
            Err(e) => r == Err::<Il2CppClass, Il2CppError>(e),
        }
}

/// The class that the generic class `generic_class` gives with the classes
/// `types` as its type arguments. The class of the reflection objects that
/// stand for types and the method of the runtime that makes a generic type
/// concrete are looked up first.
pub fn make_generic<A: Il2CppApi>(api: &A, generic_class: &Il2CppClass, types: &[Il2CppClass]) -> (r:
    Il2CppResult<Il2CppClass>)
    ensures
        generic_instantiated(api, generic_class, types@, r),
{
    let system_type: Il2CppClass = match SystemType::class(api) {
        Ok(class) => class,
        Err(e) => {
            return Err(e);
        },
    };
    let found: Il2CppResult<MethodInfo> = runtime_type_make_generic_type(api);
    let r: Il2CppResult<Il2CppClass> = match found {
        Ok(make_generic_method) => make_generic_with(
            api,
            &system_type,
            &make_generic_method,
            generic_class,
            types,
        ),
        Err(e) => Err(e),
    };
    proof {
        assert(make_generic_type_found(api, found));
        assert(generic_instantiated_with(api, system_type, generic_class, types@, r));
    }
    r
}

/// Whether `copy` is a descriptor of one's own made from `class`: the same
/// in all but its place, which the garbage collector chose.
pub open spec fn class_cloned<A: Il2CppApi>(api: &A, class: &Il2CppClass, copy: Il2CppClass) -> bool {
    &&& call_ensures(
        A::gc_malloc_kind,
        (api, class.spec_clone_size() as usize, GC_KIND_NORMAL),
        copy.address,
    )
    &&& copy@ == (Il2CppClassView { address: copy.address, ..class@ })
}

/// What a type that stands for a class of the runtime says of that class.
pub trait Il2CppClassData {
    /// The namespace of the class.
    const NAMESPACE: &'static str;

    /// The name of the class.
    const CLASS: &'static str;

    /// The class, found by its namespace and name among the loaded modules.
    fn class<A: Il2CppApi>(api: &A) -> (r: Il2CppResult<Il2CppClass>)
        ensures
            class_resolved(api, Self::NAMESPACE, Self::CLASS, r),
    {
        Il2CppClass::from_name(api, Self::NAMESPACE, Self::CLASS)
    }

    /// A descriptor of one's own of the class, to be changed without a
    /// change to the class that the runtime and its objects share.
    fn class_mut<A: Il2CppApi>(api: &A) -> (r: Il2CppResult<Il2CppClass>)
        ensures
            exists|found: Il2CppResult<Il2CppClass>|
                {
                    &&& class_resolved(api, Self::NAMESPACE, Self::CLASS, found)
                    &&& match found {
                        Ok(class) => r is Ok && class_cloned(api, &class, r->Ok_0),
                        Err(e) => r == Err::<Il2CppClass, Il2CppError>(e),
                    }
                },
    {
        match Self::class(api) {
            Ok(class) => Ok(class.clone(api)),
            Err(e) => Err(e),
        }
    }

    /// A new object of the class.
    fn instantiate<A: Il2CppApi>(api: &A) -> (r: Il2CppResult<Il2CppObject<Self>>) where
        Self: Sized + Default,

        ensures
            exists|found: Il2CppResult<Il2CppClass>|
                {
                    &&& class_resolved(api, Self::NAMESPACE, Self::CLASS, found)
                    &&& match found {
                        Ok(class) => object_allocated(api, &class, r),
                        Err(e) => r == Err::<Il2CppObject<Self>, Il2CppError>(e),
                    }
                },
    {
        match Self::class(api) {
            Ok(class) => crate::il2cpp::instantiate_class(api, &class),
            Err(e) => Err(e),
        }
    }

    /// A new object of the class, taken as one with the fields `T`.
    fn instantiate_as<A: Il2CppApi, T: Default>(api: &A) -> (r: Il2CppResult<Il2CppObject<T>>)
        ensures
            exists|found: Il2CppResult<Il2CppClass>|
                {
                    &&& class_resolved(api, Self::NAMESPACE, Self::CLASS, found)
                    &&& match found {
                        Ok(class) => object_allocated(api, &class, r),
                        Err(e) => r == Err::<Il2CppObject<T>, Il2CppError>(e),
                    }
                },
    {
        match Self::class(api) {
            Ok(class) => crate::il2cpp::instantiate_class(api, &class),
            Err(e) => Err(e),
        }
    }
}

impl Il2CppClassData for u8 {
    const NAMESPACE: &'static str = "System";

    const CLASS: &'static str = "Byte";
}

/// Where the modules answer each question in one way only, the search for a
/// class has one result only: two searches with the same namespace and name
/// over the same modules give the same class, or fail alike.
pub proof fn lemma_class_search_is_a_function<A: Il2CppApi>(
    api: &A,
    assemblies: Seq<Il2CppAssembly>,
    namespace: &str,
    name: &str,
    first: Il2CppResult<Il2CppClass>,
    second: Il2CppResult<Il2CppClass>,
)
    requires
        forall|j: int, x: Option<Il2CppClass>, y: Option<Il2CppClass>|
            0 <= j < assemblies.len() && call_ensures(
                A::class_from_name,
                (api, &assemblies[j].image, namespace, name),
                x,
            ) && call_ensures(A::class_from_name, (api, &assemblies[j].image, namespace, name), y)
                ==> x == y,
        class_search(api, assemblies, namespace, name, first),
        class_search(api, assemblies, namespace, name, second),
    ensures
        match (first, second) {
            (Ok(a), Ok(b)) => a == b,
            (Err(Il2CppError::MissingClass(a)), Err(Il2CppError::MissingClass(b))) => a@ == name@
                && b@ == name@,
            _ => false,
        },
{
    match (first, second) {
        (Ok(a), Ok(b)) => {
            let i = choose|i: int| class_found_in(api, assemblies, namespace, name, i, a);
            let j = choose|j: int| class_found_in(api, assemblies, namespace, name, j, b);
            if i < j {
                assert(call_ensures(
                    A::class_from_name,
                    (api, &assemblies[j].image, namespace, name),
                    None::<Il2CppClass>,
                ));
            } else if j < i {
                assert(call_ensures(
                    A::class_from_name,
                    (api, &assemblies[i].image, namespace, name),
                    None::<Il2CppClass>,
                ));
            }
        },
        (Ok(a), Err(_)) => {
            let i = choose|i: int| class_found_in(api, assemblies, namespace, name, i, a);
            assert(call_ensures(
                A::class_from_name,
                (api, &assemblies[i].image, namespace, name),
                None::<Il2CppClass>,
            ));
        },
        (Err(_), Ok(b)) => {
            let j = choose|j: int| class_found_in(api, assemblies, namespace, name, j, b);
            assert(call_ensures(
                A::class_from_name,
                (api, &assemblies[j].image, namespace, name),
                None::<Il2CppClass>,
            ));
        },
        (Err(_), Err(_)) => {},
    }
}

/// Whether the runtime answers the question for the class of that namespace
/// and name, and the one for the loaded modules, in one way only: as it does
/// while no module is loaded or unloaded.
pub open spec fn answers_are_settled<A: Il2CppApi>(api: &A, namespace: &str, name: &str) -> bool {
    &&& forall|first: CppVector<Il2CppAssembly>, second: CppVector<Il2CppAssembly>|
        call_ensures(A::assembly_getallassemblies, (api,), first) && call_ensures(
            A::assembly_getallassemblies,
            (api,),
            second,
        ) ==> first@ == second@
    &&& forall|image: &Il2CppImage, x: Option<Il2CppClass>, y: Option<Il2CppClass>|
        call_ensures(A::class_from_name, (api, image, namespace, name), x) && call_ensures(
            A::class_from_name,
            (api, image, namespace, name),
            y,
        ) ==> x == y
}

/// While no module is loaded or unloaded, looking a class up twice by the
/// same namespace and name gives the same class twice, with the same name,
/// namespace and instance size, or fails alike twice.
pub proof fn lemma_class_lookup_is_idempotent<A: Il2CppApi>(
    api: &A,
    namespace: &str,
    name: &str,
    first: Il2CppResult<Il2CppClass>,
    second: Il2CppResult<Il2CppClass>,
)
    requires
        answers_are_settled(api, namespace, name),
        class_resolved(api, namespace, name, first),
        class_resolved(api, namespace, name, second),
    ensures
        match (first, second) {
            (Ok(a), Ok(b)) => a == b && a._1.name == b._1.name && a._1.namespace == b._1.namespace
                && a._2.instance_size == b._2.instance_size,
            (Err(Il2CppError::MissingClass(a)), Err(Il2CppError::MissingClass(b))) => a@ == name@
                && b@ == name@,
            _ => false,
        },
{
    let one = choose|assemblies: CppVector<Il2CppAssembly>|
        call_ensures(A::assembly_getallassemblies, (api,), assemblies) && class_search(
            api,
            assemblies@,
            namespace,
            name,
            first,
        );
    let other = choose|assemblies: CppVector<Il2CppAssembly>|
        call_ensures(A::assembly_getallassemblies, (api,), assemblies) && class_search(
            api,
            assemblies@,
            namespace,
            name,
            second,
        );
    assert(one@ == other@);
    lemma_class_search_is_a_function(api, one@, namespace, name, first, second);
}

/// Where a name is known to several modules, the search gives the class of
/// the one registered last: if the module at position `last` answers with a
/// class and with nothing else, and no module behind it answers with one,
/// the search succeeds with an answer of that module.
pub proof fn lemma_last_registered_module_wins<A: Il2CppApi>(
    api: &A,
    assemblies: Seq<Il2CppAssembly>,
    namespace: &str,
    name: &str,
    last: int,
    r: Il2CppResult<Il2CppClass>,
)
    requires
        0 <= last < assemblies.len(),
        !call_ensures(
            A::class_from_name,
            (api, &assemblies[last].image, namespace, name),
            None::<Il2CppClass>,
        ),
        forall|j: int, class: Il2CppClass|
            last < j < assemblies.len() ==> !call_ensures(
                A::class_from_name,
                (api, &assemblies[j].image, namespace, name),
                Some(class),
            ),
        class_search(api, assemblies, namespace, name, r),
    ensures
        r is Ok,
        call_ensures(
            A::class_from_name,
            (api, &assemblies[last].image, namespace, name),
            Some(r->Ok_0),
        ),
{
    match r {
        Ok(class) => {
            let i = choose|i: int| class_found_in(api, assemblies, namespace, name, i, class);
            if i < last {
                assert(call_ensures(
                    A::class_from_name,
                    (api, &assemblies[last].image, namespace, name),
                    None::<Il2CppClass>,
                ));
            }
        },
        Err(_) => {
            assert(call_ensures(
                A::class_from_name,
                (api, &assemblies[last].image, namespace, name),
                None::<Il2CppClass>,
            ));
        },
    }
}

/// A lookup in a virtual-method table by name gives nothing exactly where no
/// slot has that name, and else a slot of exactly that name: the one of the
/// lowest position.
pub proof fn lemma_virtual_method_by_name(vtable: Seq<VirtualInvoke>, name: Seq<char>, i: int, j: int)
    requires
        first_slot_named(vtable, name, i),
    ensures
        vtable[i].method_info.name matches Some(text) && text@ == name,
        !no_slot_named(vtable, name, vtable.len() as int),
        first_slot_named(vtable, name, j) ==> i == j,
        0 <= j < vtable.len() && vtable[j].has_name(name) ==> i <= j,
{
    if first_slot_named(vtable, name, j) {
        if i < j {
            assert(vtable[i].has_name(name));
        } else if j < i {
            assert(vtable[j].has_name(name));
        }
    }
    if no_slot_named(vtable, name, vtable.len() as int) {
        assert(vtable[i].has_name(name));
    }
    if 0 <= j < i && vtable[j].has_name(name) {
        assert(!vtable[j].has_name(name));
    }
}

/// Where no slot of a virtual-method table has the name, a slot without a
/// name among them or not, the lookup by that name gives nothing.
pub proof fn lemma_virtual_method_absent(vtable: Seq<VirtualInvoke>, name: Seq<char>)
    requires
        forall|j: int|
            0 <= j < vtable.len() ==> !((#[trigger] vtable[j]).method_info.name matches Some(text)
                && text@ == name),
    ensures
        no_slot_named(vtable, name, vtable.len() as int),
        forall|i: int| !first_slot_named(vtable, name, i),
{
}

} // verus!
