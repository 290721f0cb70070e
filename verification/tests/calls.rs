use std::cell::RefCell;

use unity::app::{mainmenusequence_jumptonextsequence, scriptsystem_log, AppMess};
use unity::cppvector::CppVector;
use unity::engine::ui::{Image, IsImage};
use unity::engine::{
    address_of_word, reference_of, word_of_i32, AssetBundle, FilterMode, ImageConversion, Material,
    Shader, Sprite, SpriteMeshType, Texture2D, Vector2, Vector3,
};
use unity::il2cpp::api::Il2CppApi;
use unity::il2cpp::assembly::{Il2CppAssembly, Il2CppImage};
use unity::il2cpp::class::{
    Il2CppClass, Il2CppClass1, Il2CppClass2, Il2CppClassData, Il2CppRGCTXData,
    Il2CppReflectionType, VirtualInvoke,
};
use unity::il2cpp::method::MethodInfo;
use unity::il2cpp::object::{
    array_from, array_of, Array, ArrayFields, ArrayHeader, ArrayInstantiator, Il2CppObject,
    ObjectHeader, Reference,
};
use unity::il2cpp::Il2CppType;
use unity::scan::ScanInfo;
use unity::system::{
    call_method, call_virtual, decoded_or_empty, runtime_type_make_generic_type,
    system_string_equals, truth_of, word_as_i32, word_is_true, Dictionary, Il2CppString, List,
    ListFields, ListVirtual, SystemString,
};
use unity::Il2CppError;

fn class(address: usize, namespace: &str, name: &str) -> Il2CppClass {
    Il2CppClass {
        address,
        _1: Il2CppClass1 {
            image: 0,
            gc_desc: 0,
            name: name.to_string(),
            namespace: namespace.to_string(),
            byval_arg: Il2CppType { data: address, bits: 0 },
            this_arg: Il2CppType { data: address, bits: 0 },
            element_class: 0,
            parent: 0,
            generic_class: None,
            methods: Vec::new(),
            nested_types: Vec::new(),
            implemented_interfaces: 0,
            interface_offsets: 0,
        },
        static_fields: 0,
        rgctx_data: Il2CppRGCTXData { class_self: 0, class_t: 0, osef_0: 0, osef_1: 0, get_instance: 0 },
        _2: Il2CppClass2 {
            instance_size: 0,
            actual_size: 0,
            token: 0,
            method_count: 0,
            property_count: 0,
            field_count: 0,
            event_count: 0,
            nested_type_count: 0,
            vtable_count: 0,
            interfaces_count: 0,
            interface_offsets_count: 0,
            type_hierarchy_depth: 0,
            generic_recursion_depth: 0,
            rank: 0,
        },
        vtable: Vec::new(),
    }
}

fn named(code: usize, name: &str) -> MethodInfo {
    let mut m = MethodInfo::new();
    m.method_ptr = code;
    m.invoker_method = 1;
    m.name = Some(name.to_string());
    m
}

fn code_of(class: &str, method: &str, args: usize) -> usize {
    let mut sum: usize = 0x10_0000;
    for b in class.bytes().chain(method.bytes()) {
        sum = sum * 31 % 0xFF_FFFF + b as usize;
    }
    sum * 16 + args
}

/// A runtime that knows every class and method but those that it is told
/// not to know, answers every call with one word, and notes what reaches it.
struct Echo {
    unknown_classes: Vec<&'static str>,
    unknown_methods: Vec<&'static str>,
    word: usize,
    array_extra: usize,
    calls: RefCell<Vec<String>>,
}

impl Echo {
    fn answering(word: usize) -> Self {
        Echo {
            unknown_classes: Vec::new(),
            unknown_methods: Vec::new(),
            word,
            array_extra: 0,
            calls: RefCell::new(Vec::new()),
        }
    }

    fn note(&self, what: String) {
        self.calls.borrow_mut().push(what);
    }

    fn calls(&self) -> Vec<String> {
        self.calls.borrow().clone()
    }

    fn last(&self) -> String {
        self.calls.borrow().last().cloned().unwrap_or_default()
    }
}

impl Il2CppApi for Echo {
    fn init(&self, _domain_name: &str) -> i32 {
        0
    }

    fn class_from_name(&self, image: &Il2CppImage, namespace: &str, name: &str) -> Option<Il2CppClass> {
        if image.address != 0x10 || self.unknown_classes.contains(&name) {
            return None;
        }
        Some(class(0x4000 + name.len(), namespace, name))
    }

    fn object_new(&self, klass: &Il2CppClass) -> Option<ObjectHeader> {
        self.note(format!("object_new {}.{}", klass._1.namespace, klass._1.name));
        Some(ObjectHeader {
            address: 0xB0B0,
            klass: class(klass.address, &klass._1.namespace, &klass._1.name),
            monitor: 0,
        })
    }

    fn get_method_from_name_flags(
        &self,
        class: &Il2CppClass,
        method_name: &str,
        args_count: usize,
        _flags: u32,
    ) -> Option<MethodInfo> {
        self.note(format!("method {}.{}::{}/{}", class._1.namespace, class._1.name, method_name, args_count));
        if self.unknown_methods.contains(&method_name) {
            return None;
        }
        let mut m = named(code_of(&class._1.name, method_name, args_count), method_name);
        m.class = Some(class.address);
        m.token = 77;
        m.slot = 3;
        Some(m)
    }

    fn assembly_getallassemblies(&self) -> CppVector<Il2CppAssembly> {
        let mut list = CppVector::new();
        list.push(Il2CppAssembly {
            image: Il2CppImage {
                address: 0x10,
                name: "all.dll".to_string(),
                name_no_ext: "all".to_string(),
                assembly: 0x18,
            },
            token: 0,
            referenced_assembly_start: 0,
            referenced_assembly_count: 0,
        });
        list
    }

    fn array_new_specific(&self, array_typeinfo: &Il2CppClass, length: usize) -> Option<ArrayHeader> {
        self.note(format!("array_new_specific {} {}", array_typeinfo._1.name, length));
        if length > 100 {
            return None;
        }
        Some(ArrayHeader {
            address: 0xA000 + length,
            klass: class(array_typeinfo.address, &array_typeinfo._1.namespace, &array_typeinfo._1.name),
            monitor: 0,
            bounds: None,
            max_length: length + self.array_extra,
        })
    }

    fn array_new(&self, element_typeinfo: &Il2CppClass, length: usize) -> Option<ArrayHeader> {
        self.note(format!("array_new {} {}", element_typeinfo._1.name, length));
        if length > 100 {
            return None;
        }
        Some(ArrayHeader {
            address: 0xA800 + length,
            klass: class(element_typeinfo.address, &element_typeinfo._1.namespace, "Array"),
            monitor: 0,
            bounds: None,
            max_length: length + self.array_extra,
        })
    }

    fn type_get_object(&self, _ty: &Il2CppType) -> Option<Il2CppReflectionType> {
        None
    }

    fn class_from_il2cpptype(&self, _ty: &Il2CppType) -> Option<Il2CppClass> {
        None
    }

    fn class_init(&self, _class: &Il2CppClass) {}

    fn gc_malloc_kind(&self, _size: usize, _kind: u32) -> usize {
        0xC000
    }

    fn method_name(&self, name: &str) -> usize {
        self.note(format!("method_name {}", name));
        if self.unknown_methods.contains(&"icall") {
            0
        } else {
            0x55_0000
        }
    }

    fn runtime_invoke(&self, method: &MethodInfo, obj: usize, params: &[usize]) -> Option<Il2CppReflectionType> {
        self.note(format!("invoke {:#x} {:#x} {:x?}", method.method_ptr, obj, params));
        if self.word == 0 {
            None
        } else {
            Some(Il2CppReflectionType { address: self.word, ty: Il2CppType { data: obj, bits: 0 } })
        }
    }

    fn make_generic_type(
        &self,
        _method: &MethodInfo,
        _generic: &Il2CppReflectionType,
        _args: &Array<Il2CppReflectionType>,
    ) -> Option<Il2CppReflectionType> {
        None
    }

    fn string_new(&self, text: &str) -> Il2CppString {
        self.note(format!("string_new {}", text));
        let units: Vec<u16> = text.encode_utf16().collect();
        Il2CppObject {
            address: 0x5700 + units.len(),
            klass: class(0x5000, "System", "String"),
            monitor: 0,
            fields: SystemString { len: units.len() as i32, string: units },
        }
    }

    fn call(&self, method_ptr: usize, args: &[usize], method_info: Option<&MethodInfo>) -> usize {
        self.note(format!(
            "call {:#x} {:x?} {}",
            method_ptr,
            args,
            method_info.and_then(|m| m.name.clone()).unwrap_or_else(|| "-".to_string())
        ));
        self.word
    }
}

fn string_at(address: usize, text: &str) -> Il2CppString {
    let units: Vec<u16> = text.encode_utf16().collect();
    Il2CppObject {
        address,
        klass: class(0x5000, "System", "String"),
        monitor: 0,
        fields: SystemString { len: units.len() as i32, string: units },
    }
}

#[test]
fn method_invocation_through_the_invoker() {
    let rt = Echo::answering(0x42);
    let m = named(0x1234, "Run");
    let value = m.invoke(&rt, 0x9000, &[0xA, 0xB]).unwrap();
    assert_eq!(value.address, 0x42);
    assert_eq!(value.ty.data, 0x9000);
    assert_eq!(rt.calls(), vec!["invoke 0x1234 0x9000 [a, b]".to_string()]);
}

#[test]
fn method_invocation_that_returns_nothing_fails() {
    let rt = Echo::answering(0);
    let m = named(0x1234, "Run");
    assert!(matches!(m.invoke(&rt, 0, &[]), Err(Il2CppError::FailedMethodInvocation)));
    assert_eq!(rt.calls().len(), 1);
}

#[test]
fn method_without_invoker_is_not_invoked() {
    let rt = Echo::answering(0x42);
    let mut m = named(0x1234, "Run");
    m.invoker_method = 0;
    assert!(matches!(m.invoke(&rt, 0, &[]), Err(Il2CppError::FailedMethodInvocation)));
    let mut n = named(0, "Run");
    n.invoker_method = 8;
    assert!(matches!(n.invoke(&rt, 0, &[]), Err(Il2CppError::FailedMethodInvocation)));
    assert!(rt.calls().is_empty());
}

#[test]
fn string_text_is_decoded_from_utf16() {
    let s = string_at(1, "h\u{e9}llo \u{1F600} w\u{f6}rld");
    assert_eq!(s.fields.string.len(), 14);
    assert_eq!(s.to_string(), "h\u{e9}llo \u{1F600} w\u{f6}rld");
    assert_eq!(s.get_string().unwrap(), "h\u{e9}llo \u{1F600} w\u{f6}rld");
    assert_eq!(s.fields.to_string(), "h\u{e9}llo \u{1F600} w\u{f6}rld");
    assert_eq!(s.fields.units().len(), 14);
}

#[test]
fn string_of_length_zero_is_empty_whatever_lies_behind() {
    let s = Il2CppObject {
        address: 1,
        klass: class(0x5000, "System", "String"),
        monitor: 0,
        fields: SystemString { len: 0, string: vec![0xD800, 0x41] },
    };
    assert_eq!(s.to_string(), "");
    assert_eq!(s.get_string().unwrap(), "");
    assert!(s.fields.units().is_empty());
}

#[test]
fn string_takes_its_length_not_all_units() {
    let s = Il2CppObject {
        address: 1,
        klass: class(0x5000, "System", "String"),
        monitor: 0,
        fields: SystemString { len: 2, string: vec![0x48, 0x69, 0x21, 0x21] },
    };
    assert_eq!(s.to_string(), "Hi");
    assert_eq!(s.fields.units(), &[0x48, 0x69]);
}

#[test]
fn string_that_is_not_utf16_gives_an_error_or_the_empty_text() {
    let s = Il2CppObject {
        address: 1,
        klass: class(0x5000, "System", "String"),
        monitor: 0,
        fields: SystemString { len: 3, string: vec![0x41, 0xD800, 0x42] },
    };
    assert!(s.get_string().is_err());
    assert!(s.fields.get_string().is_err());
    assert_eq!(s.to_string(), "");
    assert_eq!(decoded_or_empty(String::from_utf16(&[0xDC00])), "");
    assert_eq!(decoded_or_empty(String::from_utf16(&[0x4F, 0x4B])), "OK");
}

fn units(list: &[u16]) -> Il2CppString {
    Il2CppObject {
        address: 1,
        klass: class(0x5000, "System", "String"),
        monitor: 0,
        fields: SystemString { len: list.len() as i32, string: list.to_vec() },
    }
}

#[test]
fn string_pairs_encode_the_characters_beyond_the_basic_plane() {
    assert_eq!(units(&[0xD800, 0xDC00]).to_string(), "\u{10000}");
    assert_eq!(units(&[0xDBFF, 0xDFFF]).to_string(), "\u{10FFFF}");
    assert_eq!(units(&[0xD7FF, 0xE000, 0xFFFF]).to_string(), "\u{D7FF}\u{E000}\u{FFFF}");
    assert_eq!(units(&[0x41, 0xD83D, 0xDE00, 0x42]).get_string().unwrap(), "A\u{1F600}B");
}

#[test]
fn string_with_half_a_pair_is_not_decoded() {
    assert!(units(&[0xD800]).get_string().is_err());
    assert!(units(&[0xDC00]).get_string().is_err());
    assert!(units(&[0xDC00, 0xD800]).get_string().is_err());
    assert!(units(&[0xD800, 0xD800, 0xDC00]).get_string().is_err());
    assert!(units(&[0x41, 0xDBFF]).get_string().is_err());
    assert!(units(&[0xD800, 0x41]).get_string().is_err());
    assert_eq!(units(&[0xD800, 0x41]).to_string(), "");
}

#[test]
fn new_strings_come_from_the_runtime() {
    let rt = Echo::answering(0);
    let s = Il2CppString::new(&rt, "abc");
    assert_eq!(s.to_string(), "abc");
    assert_eq!(s.address, 0x5703);
    let t = Il2CppString::new_static(&rt, "");
    assert_eq!(t.fields.len, 0);
    assert_eq!(rt.calls(), vec!["string_new abc".to_string(), "string_new ".to_string()]);
    assert!(matches!(
        {
            let mut none = Echo::answering(0);
            none.unknown_classes.push("String");
            Il2CppString::class(&none)
        },
        Err(Il2CppError::MissingClass(name)) if name == "String"
    ));
    assert_eq!(Il2CppString::class(&rt).unwrap().get_namespace(), "System");
}

#[test]
fn string_equality_is_asked_of_the_runtime() {
    let a = string_at(0x100, "left");
    let b = string_at(0x200, "right");
    let yes = Echo::answering(1);
    assert_eq!(system_string_equals(&yes, &a, &b).unwrap(), true);
    assert_eq!(
        yes.calls(),
        vec![
            "method System.String::Equals/2".to_string(),
            format!("call {:#x} [100, 200] -", code_of("String", "Equals", 2)),
        ]
    );
    let no = Echo::answering(0);
    assert_eq!(system_string_equals(&no, &a, &b).unwrap(), false);
}

#[test]
fn string_methods_call_the_runtime_with_their_arity() {
    let s = string_at(0x100, "haystack");
    let rt = Echo::answering(0x1_0000_0007);
    assert_eq!(s.contains(&rt, "hay").unwrap(), true);
    assert_eq!(
        rt.calls(),
        vec![
            "string_new hay".to_string(),
            "method System.String::Contains/1".to_string(),
            format!("call {:#x} [100, 5703] -", code_of("String", "Contains", 1)),
        ]
    );
    assert_eq!(s.clone(&rt).unwrap(), 0x1_0000_0007);
    assert_eq!(rt.last(), format!("call {:#x} [100] -", code_of("String", "Copy", 1)));
    assert_eq!(s.copy(&rt).unwrap(), 0x1_0000_0007);
    assert_eq!(rt.last(), format!("call {:#x} [100] -", code_of("String", "Clone", 0)));
    assert_eq!(s.get_hash_code(&rt).unwrap(), 7);
    assert_eq!(rt.last(), format!("call {:#x} [100] -", code_of("String", "GetHashCode", 0)));
}

#[test]
fn string_methods_fail_where_class_or_method_is_missing() {
    let s = string_at(0x100, "x");
    let mut rt = Echo::answering(1);
    rt.unknown_methods.push("Contains");
    assert!(matches!(s.contains(&rt, "x"), Err(Il2CppError::MissingMethod)));
    rt.unknown_classes.push("String");
    assert!(matches!(s.get_hash_code(&rt), Err(Il2CppError::MissingClass(n)) if n == "String"));
    assert!(matches!(system_string_equals(&rt, &s, &s), Err(Il2CppError::MissingClass(_))));
    assert!(!rt.calls().iter().any(|c| c.starts_with("call")));
}

#[test]
fn words_as_values() {
    assert!(word_is_true(1));
    assert!(word_is_true(0x100));
    assert!(!word_is_true(0));
    assert_eq!(word_as_i32(5), 5);
    assert_eq!(word_as_i32(0xFFFF_FFFF), -1);
    assert_eq!(word_as_i32(0x8000_0000), i32::MIN);
    assert_eq!(word_as_i32(0x7_0000_0002), 2);
    assert_eq!(word_of_i32(5), 5);
    assert_eq!(word_of_i32(-1), 0xFFFF_FFFF);
    assert_eq!(word_of_i32(i32::MIN), 0x8000_0000);
    assert_eq!(address_of_word(0), None);
    assert_eq!(address_of_word(0x40), Some(0x40));
    assert_eq!(truth_of(Ok(2)).unwrap(), true);
    assert_eq!(truth_of(Ok(0)).unwrap(), false);
    assert!(matches!(truth_of(Err(Il2CppError::MissingMethod)), Err(Il2CppError::MissingMethod)));
    assert_eq!(reference_of(Ok(0)).unwrap(), None);
    assert_eq!(reference_of(Ok(9)).unwrap(), Some(9));
    assert!(matches!(reference_of(Err(Il2CppError::OutOfBounds)), Err(Il2CppError::OutOfBounds)));
}

#[test]
fn make_generic_type_method_is_looked_up_with_two_parameters() {
    let rt = Echo::answering(0);
    let m = runtime_type_make_generic_type(&rt).unwrap();
    assert_eq!(m.method_ptr, code_of("RuntimeType", "MakeGenericType", 2));
    assert_eq!(rt.calls(), vec!["method System.RuntimeType::MakeGenericType/2".to_string()]);
}

#[test]
fn method_reference_resolves_and_gives_a_base() {
    let rt = Echo::answering(0);
    let reference = ScanInfo { namespace: "App", class: "Unit", method: "Heal", forced_arg_count: 0 };
    let found = reference.get_ref(&rt, 1).unwrap();
    assert_eq!(found.method_ptr, code_of("Unit", "Heal", 1));
    assert_eq!(found.token, 77);
    let base = reference.as_base(&rt, 1).unwrap();
    assert_eq!(base.method_ptr, code_of("Unit", "Heal", 1));
    assert_eq!(base.name, Some("Heal".to_string()));
    assert_eq!(base.invoker_method, 0);
    assert_eq!(base.token, 0);
    assert_eq!(base.slot, 0);
    let forced = ScanInfo { namespace: "App", class: "Unit", method: "Heal", forced_arg_count: 4 };
    assert_eq!(forced.get_ref(&rt, 1).unwrap().method_ptr, code_of("Unit", "Heal", 4));
    let mut none = Echo::answering(0);
    none.unknown_methods.push("Heal");
    assert!(matches!(reference.get_ref(&none, 1), Err(Il2CppError::MissingMethod)));
    assert!(matches!(reference.as_base(&none, 1), Err(Il2CppError::MissingMethod)));
    none.unknown_classes.push("Unit");
    assert!(matches!(reference.get_ref(&none, 1), Err(Il2CppError::MissingClass(n)) if n == "Unit"));
}

#[test]
fn direct_call_by_reference() {
    let rt = Echo::answering(0xAB);
    let reference = ScanInfo { namespace: "App", class: "Unit", method: "Heal", forced_arg_count: 0 };
    assert_eq!(call_method(&rt, reference, 2, &[1, 2, 3]).unwrap(), 0xAB);
    assert_eq!(rt.last(), format!("call {:#x} [1, 2, 3] -", code_of("Unit", "Heal", 2)));
}

fn list_class() -> Il2CppClass {
    let mut c = class(0x6000, "System.Collections.Generic", "List`1");
    c._1.methods.push(named(0x6100, "get_Count"));
    c._1.methods.push(named(0x6200, "Add"));
    c._1.methods.push(named(0x6300, "Add"));
    c.vtable.push(VirtualInvoke { method_ptr: 0x61F0, method_info: named(0x6400, "Add") });
    c.vtable.push(VirtualInvoke { method_ptr: 0x62F0, method_info: named(0x6500, "Clear") });
    c._2.method_count = 3;
    c._2.vtable_count = 2;
    c
}

fn list_of(items: Vec<u32>, size: u32) -> List<u32> {
    List {
        address: 0x7000,
        klass: list_class(),
        monitor: 0,
        fields: ListFields {
            items: Array {
                address: 0x7100,
                klass: class(0x7200, "System", "UInt32[]"),
                monitor: 0,
                fields: ArrayFields { bounds: None, max_length: items.len(), m_items: items },
            },
            size,
            version: 4,
            sync_root: 0,
        },
    }
}

#[test]
fn list_len_and_capacity() {
    let l = list_of(vec![1, 2, 3, 0, 0], 3);
    assert_eq!(l.len(), 3);
    assert_eq!(l.capacity(), 5);
    assert_eq!(l.as_slice(), &[1, 2, 3]);
    assert_eq!(l.get_class().get_name(), "List`1");
    assert_eq!(<List<u32> as Il2CppClassData>::NAMESPACE, "System.Collections.Generic");
    assert_eq!(<List<u32> as Il2CppClassData>::CLASS, "List`1");
}

#[test]
fn list_resize_moves_the_elements_to_a_longer_array() {
    let rt = Echo::answering(0);
    let mut l = list_of(vec![1, 2, 3], 2);
    l.resize(&rt, 5).unwrap();
    assert_eq!(l.capacity(), 5);
    assert_eq!(l.fields.items.as_slice(), &[1, 2, 3, 0, 0]);
    assert_eq!(l.fields.items.address, 0xA005);
    assert_eq!(l.fields.items.get_class().get_name(), "UInt32[]");
    assert_eq!(l.len(), 2);
    assert_eq!(l.fields.version, 4);
    assert_eq!(rt.calls(), vec!["array_new_specific UInt32[] 5".to_string()]);
}

#[test]
fn list_resize_to_the_same_length_asks_for_nothing() {
    let rt = Echo::answering(0);
    let mut l = list_of(vec![1, 2, 3], 2);
    l.resize(&rt, 3).unwrap();
    assert_eq!(l.fields.items.address, 0x7100);
    assert_eq!(l.fields.items.as_slice(), &[1, 2, 3]);
    assert!(rt.calls().is_empty());
}

#[test]
fn list_resize_that_the_runtime_refuses_leaves_the_list() {
    let rt = Echo::answering(0);
    let mut l = list_of(vec![1, 2, 3], 3);
    assert!(matches!(l.resize(&rt, 101), Err(Il2CppError::FailedArrayInstantiation)));
    assert_eq!(l.fields.items.as_slice(), &[1, 2, 3]);
    assert_eq!(l.fields.items.address, 0x7100);
    let mut off = Echo::answering(0);
    off.array_extra = 2;
    assert!(matches!(l.resize(&off, 4), Err(Il2CppError::FailedArrayInstantiation)));
    assert_eq!(l.fields.items.as_slice(), &[1, 2, 3]);
}

#[test]
fn list_add_calls_the_first_declared_add() {
    let rt = Echo::answering(0);
    let l = list_of(vec![0; 4], 0);
    l.add(&rt, 0x8888).unwrap();
    assert_eq!(rt.calls(), vec!["call 0x6200 [7000, 8888] Add".to_string()]);
    let mut bare = list_of(vec![0; 4], 0);
    bare.klass._1.methods.clear();
    assert!(matches!(bare.add(&rt, 1), Err(Il2CppError::MissingMethod)));
    assert_eq!(rt.calls().len(), 1);
}

#[test]
fn list_clear_calls_the_code_of_the_virtual_method() {
    let rt = Echo::answering(0);
    let l = list_of(vec![0; 4], 2);
    l.clear(&rt).unwrap();
    assert_eq!(rt.calls(), vec!["call 0x6500 [7000] Clear".to_string()]);
    let mut bare = list_of(vec![0; 4], 0);
    bare.klass.vtable.clear();
    assert!(matches!(bare.clear(&rt), Err(Il2CppError::MissingMethod)));
}

#[test]
fn virtual_call_by_name() {
    let rt = Echo::answering(0x31);
    let c = list_class();
    assert_eq!(call_virtual(&rt, &c, "Add", &[1, 2]).unwrap(), 0x31);
    assert_eq!(rt.last(), "call 0x6400 [1, 2] Add");
    assert!(matches!(call_virtual(&rt, &c, "Remove", &[1]), Err(Il2CppError::MissingMethod)));
    assert_eq!(rt.calls().len(), 1);
}

struct Shelf {
    at: usize,
}

impl Il2CppClassData for Shelf {
    const NAMESPACE: &'static str = "Game";
    const CLASS: &'static str = "Shelf";
}

impl ListVirtual for Shelf {
    fn address(&self) -> usize {
        self.at
    }
}

#[test]
fn list_by_its_class_takes_the_virtual_add() {
    let rt = Echo::answering(0);
    let shelf = Shelf { at: 0x123 };
    assert!(matches!(shelf.add(&rt, 5), Err(Il2CppError::MissingMethod)));
    let mut none = Echo::answering(0);
    none.unknown_classes.push("Shelf");
    assert!(matches!(shelf.add(&none, 5), Err(Il2CppError::MissingClass(n)) if n == "Shelf"));
}

#[test]
fn dictionary_calls_go_through_the_table() {
    let rt = Echo::answering(1);
    let mut c = class(0x9000, "System.Collections.Generic", "Dictionary`1");
    c.vtable.push(VirtualInvoke { method_ptr: 1, method_info: named(0x9100, "TryGetValue") });
    c.vtable.push(VirtualInvoke { method_ptr: 2, method_info: named(0x9200, "Add") });
    let d = Dictionary { address: 0x9900, klass: c, monitor: 0 };
    assert_eq!(d.add(&rt, 0xA, 0xB).unwrap(), 1);
    assert_eq!(rt.last(), "call 0x9200 [9900, a, b] Add");
    assert_eq!(d.try_get_value(&rt, 0xA, 0xF000).unwrap(), true);
    assert_eq!(rt.last(), "call 0x9100 [9900, a, f000] TryGetValue");
    let no = Echo::answering(0);
    assert_eq!(d.try_get_value(&no, 0xA, 0xF000).unwrap(), false);
    assert_eq!(d.get_class().get_name(), "Dictionary`1");
    let bare = Dictionary { address: 1, klass: class(0x9000, "", "Dictionary`1"), monitor: 0 };
    assert!(matches!(bare.add(&rt, 1, 2), Err(Il2CppError::MissingMethod)));
    assert!(matches!(bare.try_get_value(&rt, 1, 2), Err(Il2CppError::MissingMethod)));
}

#[test]
fn byte_arrays_by_the_class_of_bytes() {
    let rt = Echo::answering(0);
    let a = <Array<u8> as ArrayInstantiator<u8>>::new(&rt, 3).unwrap();
    assert_eq!(a.as_slice(), &[0, 0, 0]);
    assert_eq!(rt.calls(), vec!["array_new Byte 3".to_string()]);
    let mut items = vec![9u8, 8, 7];
    let b = <Array<u8> as ArrayInstantiator<u8>>::new_from(&rt, &mut items).unwrap();
    assert_eq!(b.as_slice(), &[9, 8, 7]);
    assert_eq!(items, vec![0, 0, 0]);
    let c = <Array<u8> as ArrayInstantiator<u8>>::from_vec(&rt, vec![1, 2]).unwrap();
    assert_eq!(c.to_vec(), vec![1, 2]);
    assert!(matches!(
        <Array<u8> as ArrayInstantiator<u8>>::new(&rt, 101),
        Err(Il2CppError::FailedArrayInstantiation)
    ));
    let mut none = Echo::answering(0);
    none.unknown_classes.push("Byte");
    assert!(matches!(
        <Array<u8> as ArrayInstantiator<u8>>::from_vec(&none, vec![1]),
        Err(Il2CppError::MissingClass(n)) if n == "Byte"
    ));
    let mut off = Echo::answering(0);
    off.array_extra = 1;
    let mut kept = vec![4u8, 5];
    assert!(matches!(
        <Array<u8> as ArrayInstantiator<u8>>::new_from(&off, &mut kept),
        Err(Il2CppError::FailedArrayInstantiation)
    ));
    assert_eq!(kept, vec![4, 5]);
}

#[test]
fn reference_arrays_by_the_class_of_what_they_refer_to() {
    let rt = Echo::answering(0);
    let a = <Array<Reference<Material>> as ArrayInstantiator<Reference<Material>>>::new(&rt, 2)
        .unwrap();
    assert_eq!(a.len(), 2);
    assert_eq!(a.as_slice()[0].address, 0);
    assert_eq!(a.as_slice()[1].address, 0);
    assert_eq!(rt.calls(), vec!["array_new Material 2".to_string()]);
    let b = <Array<Reference<Shader>> as ArrayInstantiator<Reference<Shader>>>::from_vec(
        &rt,
        vec![Reference::new(0x10), Reference::new(0x20)],
    )
    .unwrap();
    assert_eq!(b.as_slice()[0].address, 0x10);
    assert_eq!(b.as_slice()[1].address, 0x20);
    assert_eq!(rt.last(), "array_new Shader 2");
    let mut items: Vec<Reference<Sprite>> = vec![Reference::new(7)];
    let c = <Array<Reference<Sprite>> as ArrayInstantiator<Reference<Sprite>>>::new_from(&rt, &mut items)
        .unwrap();
    assert_eq!(c.as_slice()[0].address, 7);
    assert_eq!(items[0].address, 0);
    let mut none = Echo::answering(0);
    none.unknown_classes.push("Sprite");
    assert!(matches!(
        <Array<Reference<Sprite>> as ArrayInstantiator<Reference<Sprite>>>::new(&none, 1),
        Err(Il2CppError::MissingClass(n)) if n == "Sprite"
    ));
}

#[test]
fn arrays_of_any_elements_by_a_class() {
    let rt = Echo::answering(0);
    let a: Array<u32> = array_of::<Echo, AppMess, u32>(&rt, 3).unwrap();
    assert_eq!(a.as_slice(), &[0, 0, 0]);
    assert_eq!(rt.last(), "array_new Mess 3");
    let mut items: Vec<u32> = vec![5, 6];
    let b: Array<u32> = array_from::<Echo, AppMess, u32>(&rt, &mut items).unwrap();
    assert_eq!(b.as_slice(), &[5, 6]);
    assert_eq!(items, vec![0, 0]);
}

#[test]
fn array_elements_can_be_changed_in_place() {
    let rt = Echo::answering(0);
    let mut a = <Array<u8> as ArrayInstantiator<u8>>::new(&rt, 3).unwrap();
    a.as_mut_slice()[1] = 7;
    assert_eq!(a.as_slice(), &[0, 7, 0]);
    assert_eq!(a.fields.max_length, 3);
}

#[test]
fn object_fields_by_reference() {
    let mut o = string_at(5, "ab");
    assert_eq!(o.as_ref().len, 2);
    o.as_mut().len = 1;
    assert_eq!(o.to_string(), "a");
    assert_eq!(o.address, 5);
}

#[test]
fn vectors_hold_their_coordinates() {
    let v = Vector2::new(3u32, 4u32);
    assert_eq!((v.x, v.y), (3, 4));
    let w = Vector3::new(-1i64, 0, 9);
    assert_eq!((w.x, w.y, w.z), (-1, 0, 9));
    let copy = w;
    assert_eq!(copy.clone().z, w.z);
    assert_eq!(v.clone().x, 3);
}

#[test]
fn engine_numbers() {
    assert_eq!(FilterMode::Point.value(), 0);
    assert_eq!(FilterMode::Bilinear.value(), 1);
    assert_eq!(FilterMode::Trilinear.value(), 2);
    assert_eq!(SpriteMeshType::FullRect.value(), 0);
    assert_eq!(SpriteMeshType::Tight.value(), 1);
}

#[test]
fn engine_classes_by_name() {
    let rt = Echo::answering(0);
    assert_eq!(Material::class(&rt).unwrap().get_name(), "Material");
    assert_eq!(Shader::class(&rt).unwrap().get_namespace(), "UnityEngine");
    assert_eq!(Sprite::class(&rt).unwrap().get_name(), "Sprite");
    assert_eq!(ImageConversion::CLASS, "ImageConversion");
    assert_eq!(AssetBundle::NAMESPACE, "UnityEngine");
    assert_eq!(Image::NAMESPACE, "UnityEngine.UI");
    assert_eq!(AppMess::class(&rt).unwrap().get_namespace(), "App");
    assert_eq!(AppMess::CLASS, "Mess");
}

#[test]
fn texture_is_allocated_then_constructed() {
    let rt = Echo::answering(0);
    let texture = Texture2D::new(&rt, 640, -1).unwrap();
    assert_eq!(texture.address, 0xB0B0);
    assert_eq!(
        rt.calls(),
        vec![
            "object_new UnityEngine.Texture2D".to_string(),
            "method UnityEngine.Texture2D::.ctor/2".to_string(),
            format!("call {:#x} [b0b0, 280, ffffffff] -", code_of("Texture2D", ".ctor", 2)),
        ]
    );
    Texture2D::set_filter_mode(&rt, &texture, FilterMode::Trilinear).unwrap();
    assert_eq!(rt.last(), format!("call {:#x} [b0b0, 2] -", code_of("Texture", "set_filterMode", 1)));
    let mut none = Echo::answering(0);
    none.unknown_methods.push(".ctor");
    assert!(matches!(Texture2D::new(&none, 1, 1), Err(Il2CppError::MissingMethod)));
    none.unknown_classes.push("Texture2D");
    assert!(matches!(Texture2D::new(&none, 1, 1), Err(Il2CppError::MissingClass(n)) if n == "Texture2D"));
}

#[test]
fn material_shader_may_be_null() {
    let material: Il2CppObject<Material> =
        Il2CppObject { address: 0x70, klass: class(1, "UnityEngine", "Material"), monitor: 0, fields: Material {} };
    let none = Echo::answering(0);
    assert_eq!(Material::get_shader(&none, &material).unwrap(), None);
    let some = Echo::answering(0x5AAD);
    assert_eq!(Material::get_shader(&some, &material).unwrap(), Some(0x5AAD));
    assert_eq!(some.last(), format!("call {:#x} [70] -", code_of("Material", "get_shader", 0)));
}

#[test]
fn picture_is_loaded_into_a_texture() {
    let rt = Echo::answering(1);
    let texture = Texture2D::new(&rt, 2, 2).unwrap();
    let data = <Array<u8> as ArrayInstantiator<u8>>::from_vec(&rt, vec![0x89, 0x50]).unwrap();
    assert_eq!(ImageConversion::load_image(&rt, &texture, &data).unwrap(), true);
    assert_eq!(rt.last(), format!("call {:#x} [b0b0, a802] -", code_of("ImageConversion", "LoadImage", 2)));
}

#[test]
fn asset_bundle_goes_through_the_internal_call() {
    let rt = Echo::answering(0x99);
    let data = <Array<u8> as ArrayInstantiator<u8>>::from_vec(&rt, vec![1]).unwrap();
    assert_eq!(AssetBundle::load_from_memory_async_internal(&rt, &data, 0).unwrap(), 0x99);
    assert_eq!(rt.last(), "call 0x550000 [a801, 0] -");
    assert!(rt.calls().contains(
        &"method_name UnityEngine.AssetBundle::LoadFromMemoryAsync_Internal(System.Byte[],System.UInt32)"
            .to_string()
    ));
    let mut none = Echo::answering(0x99);
    none.unknown_methods.push("icall");
    assert!(matches!(
        AssetBundle::load_from_memory_async_internal(&none, &data, 7),
        Err(Il2CppError::MissingMethod)
    ));
    assert!(!none.calls().iter().any(|c| c.starts_with("call")));
}

#[test]
fn image_calls() {
    let rt = Echo::answering(0x3A7);
    assert_eq!(Image::get_default_graphic_material(&rt).unwrap(), Some(0x3A7));
    assert_eq!(rt.last(), format!("call {:#x} [] -", code_of("Image", "get_defaultGraphicMaterial", 0)));
    let mut c = class(0x3000, "UnityEngine.UI", "RawImage");
    c.vtable.push(VirtualInvoke { method_ptr: 0x11, method_info: named(0x12, "get_color") });
    c.vtable.push(VirtualInvoke { method_ptr: 0x21, method_info: named(0x22, "set_color") });
    let image: Il2CppObject<Image> =
        Il2CppObject { address: 0x3300, klass: c, monitor: 0, fields: Image { sprite: 1, override_sprite: 0 } };
    let setter = Image::color_setter(&image).unwrap();
    assert_eq!(setter.method_info.method_ptr, 0x22);
    assert_eq!(setter.get_name(), Some("set_color".to_string()));
    image.set_sprite(&rt, 0x4400).unwrap();
    assert_eq!(rt.last(), format!("call {:#x} [3300, 4400] -", code_of("Image", "set_sprite", 1)));
    let plain: Il2CppObject<Image> =
        Il2CppObject { address: 1, klass: class(1, "", "Image"), monitor: 0, fields: Image::default() };
    assert!(Image::color_setter(&plain).is_none());
}

#[test]
fn game_calls() {
    let rt = Echo::answering(0);
    scriptsystem_log(&rt, 0xABC).unwrap();
    assert_eq!(rt.last(), format!("call {:#x} [abc] -", code_of("ScriptSystem", "Log", 1)));
    mainmenusequence_jumptonextsequence(&rt, 0xDEF).unwrap();
    assert_eq!(
        rt.last(),
        format!("call {:#x} [def] -", code_of("MainMenuSequence", "JumpToNextSequence", 0))
    );
    let mut none = Echo::answering(0);
    none.unknown_classes.push("ScriptSystem");
    assert!(matches!(scriptsystem_log(&none, 1), Err(Il2CppError::MissingClass(n)) if n == "ScriptSystem"));
}
