//! The classes of the runtime's base library: types, strings, lists, dictionaries.

use vstd::prelude::*;
use crate::Il2CppError;
use crate::Il2CppResult;
use crate::il2cpp::api::Il2CppApi;
use crate::il2cpp::class::Il2CppClass;
use crate::il2cpp::class::Il2CppClassData;
use crate::il2cpp::class::class_resolved;
use crate::il2cpp::class::first_method_named;
use crate::il2cpp::class::first_slot_named;
use crate::il2cpp::class::no_method_named;
use crate::il2cpp::class::no_slot_named;
use crate::il2cpp::method::MethodInfo;
use crate::il2cpp::object::Array;
use crate::il2cpp::object::Il2CppObject;
use crate::il2cpp::object::array_allocated;
use crate::scan::ScanInfo;

verus! {

/// The class of the reflection objects that stand for types.
#[derive(Clone, Copy, Debug, Default)]
pub struct SystemType {}

impl Il2CppClassData for SystemType {
    const NAMESPACE: &'static str = "System";

    const CLASS: &'static str = "Type";
}

/// The class of bytes.
#[derive(Clone, Copy, Debug, Default)]
pub struct SystemByte {}

impl Il2CppClassData for SystemByte {
    const NAMESPACE: &'static str = "System";

    const CLASS: &'static str = "Byte";
}

/// How the method of the runtime that makes a generic type concrete is
/// known: by its class and name; the definition and the array of type
/// arguments are its two parameters.
pub open spec fn make_generic_type_reference() -> ScanInfo {
    ScanInfo {
        namespace: "System",
        class: "RuntimeType",
        method: "MakeGenericType",
        forced_arg_count: 0,
    }
}

/// What the lookup of the method that makes a generic type concrete gives
/// for each run of answers of the runtime.
pub open spec fn make_generic_type_found<A: Il2CppApi>(api: &A, r: Il2CppResult<MethodInfo>) -> bool {
    make_generic_type_reference().found(api, 2, r)
}

/// The method of the runtime that makes a generic type concrete: the
/// definition and the array of type arguments are its two parameters.
pub fn runtime_type_make_generic_type<A: Il2CppApi>(api: &A) -> (r: Il2CppResult<MethodInfo>)
    ensures
        make_generic_type_found(api, r),
{
    let reference = ScanInfo {
        namespace: "System",
        class: "RuntimeType",
        method: "MakeGenericType",
        forced_arg_count: 0,
    };
    reference.get_ref(api, 2)
}

/// What a direct call of the method that `reference` names gives for each
/// run of answers of the runtime: the word that its code returned for the
/// argument words `args`, with no method descriptor behind them.
pub open spec fn called<A: Il2CppApi>(
    api: &A,
    reference: ScanInfo,
    arg_count: usize,
    args: Seq<usize>,
    r: Il2CppResult<usize>,
) -> bool {
    exists|found: Il2CppResult<MethodInfo>, words: &[usize]|
        {
            &&& words@ == args
            &&& reference.found(api, arg_count, found)
            &&& match found {
                Ok(method) => r is Ok && call_ensures(
                    A::call,
                    (api, method.method_ptr, words, None::<&MethodInfo>),
                    r->Ok_0,
                ),
                Err(e) => r == Err::<usize, Il2CppError>(e),
            }
        }
}

/// Calls the method that `reference` names, declared with `arg_count`
/// parameters of its own, with the argument words `args`.
pub fn call_method<A: Il2CppApi>(
    api: &A,
    reference: ScanInfo,
    arg_count: usize,
    args: &[usize],
) -> (r: Il2CppResult<usize>)
    ensures
        called(api, reference, arg_count, args@, r),
{
    match reference.get_ref(api, arg_count) {
        Ok(method) => Ok(api.call(method.method_ptr, args, None)),
        Err(e) => Err(e),
    }
}

/// Whether slot `i` is the first slot of `class` of the name `name`, and
/// `word` what the code of its method returned for the argument words
/// `words`, which are `args`, and the method's descriptor.
pub open spec fn slot_called<A: Il2CppApi>(
    api: &A,
    class: &Il2CppClass,
    name: &str,
    args: Seq<usize>,
    i: int,
    words: &[usize],
    word: usize,
) -> bool {
    &&& words@ == args
    &&& first_slot_named(class.vtable@, name@, i)
    &&& call_ensures(
        A::call,
        (api, class.vtable@[i].method_info.method_ptr, words, Some(&class.vtable@[i].method_info)),
        word,
    )
}

/// What a call of the virtual method `name` of `class` gives for each answer
/// of the runtime: the word that the code of the method of the first slot of
/// that name returned for the argument words `args` and the method's
/// descriptor, or the failure to find such a slot.
pub open spec fn called_virtual<A: Il2CppApi>(
    api: &A,
    class: &Il2CppClass,
    name: &str,
    args: Seq<usize>,
    r: Il2CppResult<usize>,
) -> bool {
    if r is Ok {
        exists|i: int, words: &[usize]|
            #[trigger] slot_called(api, class, name, args, i, words, r->Ok_0)
    } else {
        r->Err_0 is MissingMethod && no_slot_named(class.vtable@, name@, class.vtable@.len() as int)
    }
}

/// Calls the virtual method `name` of `class`, whatever class overrides it,
/// with the argument words `args`.
pub fn call_virtual<A: Il2CppApi>(api: &A, class: &Il2CppClass, name: &str, args: &[usize]) -> (r:
    Il2CppResult<usize>)
    ensures
        called_virtual(api, class, name, args@, r),
{
    match class.find_virtual_method(name) {
        Some(i) => {
            let method: &MethodInfo = &class.vtable[i].method_info;
            let word: usize = api.call(method.method_ptr, args, Some(method));
            proof {
                assert(slot_called(api, class, name, args@, i as int, args, word));
                assert(Ok::<usize, Il2CppError>(word)->Ok_0 == word);
            }
            Ok(word)
        },
        None => Err(Il2CppError::MissingMethod),
    }
}

/// A string of the runtime: its length in UTF-16 code units, then the units.
#[derive(Debug, Default)]
pub struct SystemString {
    pub len: i32,
    pub string: Vec<u16>,
}

/// A string object of the runtime.
pub type Il2CppString = Il2CppObject<SystemString>;

impl Il2CppClassData for Il2CppObject<SystemString> {
    const NAMESPACE: &'static str = "System";

    const CLASS: &'static str = "String";
}

/// The error of `String::from_utf16` of the standard library.
#[verifier::external_type_specification]
#[verifier::external_body]
pub struct ExFromUtf16Error(std::string::FromUtf16Error);

/// Whether the code unit is the first of the two of a character beyond the
/// basic plane.
pub open spec fn is_high_surrogate(unit: u16) -> bool {
    0xD800 <= unit <= 0xDBFF
}

/// Whether the code unit is the second of the two of a character beyond the
/// basic plane.
pub open spec fn is_low_surrogate(unit: u16) -> bool {
    0xDC00 <= unit <= 0xDFFF
}

/// The character that the two code units of a pair encode.
pub open spec fn surrogate_pair(high: u16, low: u16) -> char {
    (0x10000 + (high - 0xD800) * 0x400 + (low - 0xDC00)) as char
}

/// The text with the character `first` in front of the text `rest`, where
/// there is one.
pub open spec fn with_first(first: char, rest: Option<Seq<char>>) -> Option<Seq<char>> {
    match rest {
        Some(text) => Some(seq![first] + text),
        None => None,
    }
}

/// The text that a run of UTF-16 code units encodes; `None` where the run is
/// not well-formed UTF-16: where a code unit of a pair stands without the
/// other one.
pub open spec fn utf16_decoded(units: Seq<u16>) -> Option<Seq<char>>
    decreases units.len(),
{
    if units.len() == 0 {
        Some(Seq::<char>::empty())
    } else if !is_high_surrogate(units[0]) && !is_low_surrogate(units[0]) {
        with_first(units[0] as char, utf16_decoded(units.drop_first()))
    } else if is_high_surrogate(units[0]) && units.len() >= 2 && is_low_surrogate(units[1]) {
        with_first(
            surrogate_pair(units[0], units[1]),
            utf16_decoded(units.subrange(2, units.len() as int)),
        )
    } else {
        None
    }
}

/// `String::from_utf16` of the standard library: the string that the code
/// units encode as UTF-16, or its error where they hold a code unit of a
/// pair without the other one.
#[verifier::external_body]
fn string_from_utf16(units: &[u16]) -> (r: Result<String, std::string::FromUtf16Error>)
    ensures
        match r {
            Ok(text) => utf16_decoded(units@) == Some(text@),
            Err(_) => utf16_decoded(units@).is_none(),
        },
{
    String::from_utf16(units)
}

/// The text that was decoded, or the empty text where the decoding failed.
pub fn decoded_or_empty(decoded: Result<String, std::string::FromUtf16Error>) -> (r: String)
    ensures
        match decoded {
            Ok(text) => r == text,
            Err(_) => r@ == Seq::<char>::empty(),
        },
{
    match decoded {
        Ok(text) => text,
        Err(_) => String::new(),
    }
}

impl SystemString {
    /// Whether the length is one that a string can have: not negative, and
    /// not more than the code units that are there.
    pub open spec fn wf(&self) -> bool {
        0 <= self.len <= self.string@.len()
    }

    /// The code units of the string: the first `len` of those that are there.
    pub open spec fn spec_units(&self) -> Seq<u16> {
        self.string@.subrange(0, self.len as int)
    }

    /// The code units of the string.
    pub fn units(&self) -> (r: &[u16])
        requires
            self.wf(),
        ensures
            r@ == self.spec_units(),
    {
        vstd::slice::slice_subrange(self.string.as_slice(), 0, self.len as usize)
    }

    /// The text of the string, or the error of the decoding where its code
    /// units are not well-formed UTF-16. An empty string is not decoded.
    pub fn get_string(&self) -> (r: Result<String, std::string::FromUtf16Error>)
        requires
            self.wf(),
        ensures
            self.len == 0 ==> r is Ok && r->Ok_0@ == Seq::<char>::empty(),
            self.len != 0 ==> match r {
                Ok(text) => utf16_decoded(self.spec_units()) == Some(text@),
                Err(_) => utf16_decoded(self.spec_units()).is_none(),
            },
    {
        if self.len == 0 {
            Ok(String::new())
        } else {
            string_from_utf16(self.units())
        }
    }

    /// The text of the string; the empty text where its code units are not
    /// well-formed UTF-16.
    pub fn to_string(&self) -> (r: String)
        requires
            self.wf(),
        ensures
            r@ == if self.len == 0 {
                Seq::<char>::empty()
            } else {
                match utf16_decoded(self.spec_units()) {
                    Some(text) => text,
                    None => Seq::<char>::empty(),
                }
            },
    {
        decoded_or_empty(self.get_string())
    }
}

/// Whether a word that a method of the runtime returned stands for `true`.
pub fn word_is_true(word: usize) -> (r: bool)
    ensures
        r == (word != 0),
{
    word != 0
}

/// The number that the lower 32 bits of a word hold.
pub fn word_as_i32(word: usize) -> (r: i32)
    ensures
        r == (word as u32) as i32,
{
    #[verifier::truncate]
    let low: u32 = word as u32;
    #[verifier::truncate]
    let number: i32 = low as i32;
    number
}

/// A call that gives a truth value: the word that the call returned as one,
/// or the failure of the call.
pub fn truth_of(called: Il2CppResult<usize>) -> (r: Il2CppResult<bool>)
    ensures
        match called {
            Ok(word) => r == Ok::<bool, Il2CppError>(word != 0),
            Err(e) => r == Err::<bool, Il2CppError>(e),
        },
{
    match called {
        Ok(word) => Ok(word_is_true(word)),
        Err(e) => Err(e),
    }
}

/// Whether the two strings hold the same text, as the runtime compares them.
pub fn system_string_equals<A: Il2CppApi>(api: &A, a: &Il2CppString, b: &Il2CppString) -> (r:
    Il2CppResult<bool>)
    ensures
        exists|word: Il2CppResult<usize>|
            {
                &&& called(
                    api,
                    (ScanInfo {
                        namespace: "System",
                        class: "String",
                        method: "Equals",
                        forced_arg_count: 0,
                    }),
                    2,
                    seq![a.address, b.address],
                    word,
                )
                &&& match word {
                    Ok(w) => r == Ok::<bool, Il2CppError>(w != 0),
                    Err(e) => r == Err::<bool, Il2CppError>(e),
                }
            },
{
    let reference = ScanInfo {
        namespace: "System",
        class: "String",
        method: "Equals",
        forced_arg_count: 0,
    };
    let mut args: Vec<usize> = Vec::new();
    args.push(a.address);
    args.push(b.address);
    assert(args@ =~= seq![a.address, b.address]);
    truth_of(call_method(api, reference, 2, args.as_slice()))
}

impl Il2CppObject<SystemString> {
    /// A new string of the runtime that holds `string`.
    pub fn new<A: Il2CppApi>(api: &A, string: &str) -> (r: Il2CppString)
        ensures
            call_ensures(A::string_new, (api, string), r),
    {
        api.string_new(string)
    }

    /// A new string of the runtime that holds `string`, to be kept for as
    /// long as the process runs.
    pub fn new_static<A: Il2CppApi>(api: &A, string: &str) -> (r: Il2CppString)
        ensures
            call_ensures(A::string_new, (api, string), r),
    {
        api.string_new(string)
    }

    /// The text of the string, or the error of the decoding.
    pub fn get_string(&self) -> (r: Result<String, std::string::FromUtf16Error>)
        requires
            self.fields.wf(),
        ensures
            self.fields.len == 0 ==> r is Ok && r->Ok_0@ == Seq::<char>::empty(),
            self.fields.len != 0 ==> match r {
                Ok(text) => utf16_decoded(self.fields.spec_units()) == Some(text@),
                Err(_) => utf16_decoded(self.fields.spec_units()).is_none(),
            },
    {
        self.fields.get_string()
    }

    /// The text of the string; the empty text where it cannot be decoded.
    pub fn to_string(&self) -> (r: String)
        requires
            self.fields.wf(),
        ensures
            r@ == if self.fields.len == 0 {
                Seq::<char>::empty()
            } else {
                match utf16_decoded(self.fields.spec_units()) {
                    Some(text) => text,
                    None => Seq::<char>::empty(),
                }
            },
    {
        self.fields.to_string()
    }

    /// Whether the string holds `value` somewhere in it, as the runtime
    /// searches it.
    pub fn contains<A: Il2CppApi>(&self, api: &A, value: &str) -> (r: Il2CppResult<bool>)
        ensures
            exists|needle: Il2CppString, word: Il2CppResult<usize>|
                {
                    &&& call_ensures(A::string_new, (api, value), needle)
                    &&& called(
                        api,
                        (ScanInfo {
                            namespace: "System",
                            class: "String",
                            method: "Contains",
                            forced_arg_count: 0,
                        }),
                        1,
                        seq![self.address, needle.address],
                        word,
                    )
                    &&& match word {
                        Ok(w) => r == Ok::<bool, Il2CppError>(w != 0),
                        Err(e) => r == Err::<bool, Il2CppError>(e),
                    }
                },
    {
        let reference = ScanInfo {
            namespace: "System",
            class: "String",
            method: "Contains",
            forced_arg_count: 0,
        };
        let needle: Il2CppString = api.string_new(value);
        let mut args: Vec<usize> = Vec::new();
        args.push(self.address);
        args.push(needle.address);
        assert(args@ =~= seq![self.address, needle.address]);
        truth_of(call_method(api, reference, 1, args.as_slice()))
    }

    /// The address of a new string of the runtime with the same text,
    /// apart from this one.
    pub fn clone<A: Il2CppApi>(&self, api: &A) -> (r: Il2CppResult<usize>)
        ensures
            called(
                api,
                (ScanInfo {
                    namespace: "System",
                    class: "String",
                    method: "Copy",
                    forced_arg_count: 0,
                }),
                1,
                seq![self.address],
                r,
            ),
    {
        let reference = ScanInfo {
            namespace: "System",
            class: "String",
            method: "Copy",
            forced_arg_count: 0,
        };
        let mut args: Vec<usize> = Vec::new();
        args.push(self.address);
        assert(args@ =~= seq![self.address]);
        call_method(api, reference, 1, args.as_slice())
    }

    /// The address of what the runtime's own clone of the string gives.
    pub fn copy<A: Il2CppApi>(&self, api: &A) -> (r: Il2CppResult<usize>)
        ensures
            called(
                api,
                (ScanInfo {
                    namespace: "System",
                    class: "String",
                    method: "Clone",
                    forced_arg_count: 0,
                }),
                0,
                seq![self.address],
                r,
            ),
    {
        let reference = ScanInfo {
            namespace: "System",
            class: "String",
            method: "Clone",
            forced_arg_count: 0,
        };
        let mut args: Vec<usize> = Vec::new();
        args.push(self.address);
        assert(args@ =~= seq![self.address]);
        call_method(api, reference, 0, args.as_slice())
    }

    /// The hash code that the runtime computes for the string.
    pub fn get_hash_code<A: Il2CppApi>(&self, api: &A) -> (r: Il2CppResult<i32>)
        ensures
            exists|word: Il2CppResult<usize>|
                {
                    &&& called(
                        api,
                        (ScanInfo {
                            namespace: "System",
                            class: "String",
                            method: "GetHashCode",
                            forced_arg_count: 0,
                        }),
                        0,
                        seq![self.address],
                        word,
                    )
                    &&& match word {
                        Ok(w) => r == Ok::<i32, Il2CppError>((w as u32) as i32),
                        Err(e) => r == Err::<i32, Il2CppError>(e),
                    }
                },
    {
        let reference = ScanInfo {
            namespace: "System",
            class: "String",
            method: "GetHashCode",
            forced_arg_count: 0,
        };
        let mut args: Vec<usize> = Vec::new();
        args.push(self.address);
        assert(args@ =~= seq![self.address]);
        match call_method(api, reference, 0, args.as_slice()) {
            Ok(word) => Ok(word_as_i32(word)),
            Err(e) => Err(e),
        }
    }
}

/// The fields of a list: the array that holds its elements, and how many
/// elements of that array are elements of the list.
#[derive(Debug)]
pub struct ListFields<T> {
    pub items: Array<T>,
    pub size: u32,
    pub version: u32,
    pub sync_root: usize,
}

/// A list of the runtime. The array behind it may be longer than the list:
/// who writes to the array directly has to set the size as well.
#[derive(Debug)]
pub struct List<T> {
    /// Where the list lies in the runtime's memory.
    pub address: usize,
    pub klass: Il2CppClass,
    pub monitor: usize,
    pub fields: ListFields<T>,
}

impl<T> Il2CppClassData for List<T> {
    const NAMESPACE: &'static str = "System.Collections.Generic";

    const CLASS: &'static str = "List`1";
}

/// Whether `after` is the list `before` on an array of `length` elements
/// that the runtime made: the elements that were there come first, in their
/// places, and behind them what the runtime put into the new array.
pub open spec fn list_resized<A: Il2CppApi, T: Default>(
    api: &A,
    before: List<T>,
    after: List<T>,
    length: usize,
) -> bool {
    exists|made: Array<T>|
        {
            &&& array_allocated(api, &before.fields.items.klass, length, true, Ok(made))
            &&& made.fields.m_items@.len() == length
            &&& after.fields.items.fields.m_items@ == before.fields.items.fields.m_items@
                + made.fields.m_items@.subrange(
                before.fields.items.fields.m_items@.len() as int,
                length as int,
            )
            &&& after.fields.items.address == made.address
            &&& after.fields.items.klass == made.klass
            &&& after.fields.items.monitor == made.monitor
            &&& after.fields.items.fields.bounds == made.fields.bounds
            &&& after.fields.items.fields.max_length == made.fields.max_length
            &&& after.fields.size == before.fields.size
            &&& after.fields.version == before.fields.version
            &&& after.fields.sync_root == before.fields.sync_root
            &&& after.address == before.address
            &&& after.klass == before.klass
            &&& after.monitor == before.monitor
        }
}

/// Whether the runtime made no array of `length` elements of the class of
/// the array of `list`: none at all, or one of another length.
pub open spec fn list_array_refused<A: Il2CppApi, T: Default>(
    api: &A,
    list: List<T>,
    length: usize,
) -> bool {
    ||| array_allocated(
        api,
        &list.fields.items.klass,
        length,
        true,
        Err::<Array<T>, Il2CppError>(Il2CppError::FailedArrayInstantiation),
    )
    ||| exists|made: Array<T>|
        array_allocated(api, &list.fields.items.klass, length, true, Ok(made))
            && made.fields.m_items@.len() != length
}

impl<T> List<T> {
    /// The class of the list.
    pub fn get_class(&self) -> (r: &Il2CppClass)
        ensures
            *r == self.klass,
    {
        &self.klass
    }

    /// The number of elements of the list.
    pub fn len(&self) -> (r: usize)
        ensures
            r == self.fields.size,
    {
        self.fields.size as usize
    }

    /// The elements of the list, in order: the first elements of the array
    /// behind it, as many as the size says.
    pub fn as_slice(&self) -> (r: &[T])
        requires
            self.fields.size <= self.fields.items.fields.m_items@.len(),
        ensures
            r@ == self.fields.items.fields.m_items@.subrange(0, self.fields.size as int),
    {
        vstd::slice::slice_subrange(self.fields.items.as_slice(), 0, self.fields.size as usize)
    }

    /// The number of elements that the array behind the list can hold.
    pub fn capacity(&self) -> (r: usize)
        ensures
            r == self.fields.items.fields.m_items@.len(),
    {
        self.fields.items.len()
    }

    /// Puts the list on a new array of `length` elements, of the class of
    /// the array that it has, unless that one has `length` elements. The
    /// elements keep their places. An array of another length than asked
    /// for counts as none, and the list stays as it is.
    pub fn resize<A: Il2CppApi>(&mut self, api: &A, length: usize) -> (r: Il2CppResult<()>) where
        T: Default,

        requires
            old(self).fields.items.fields.m_items@.len() <= length,
        ensures
            old(self).fields.items.fields.m_items@.len() == length ==> r is Ok && *final(self)
                == *old(self),
            old(self).fields.items.fields.m_items@.len() != length ==> match r {
                Ok(_) => list_resized(api, *old(self), *final(self), length),
                Err(e) => e is FailedArrayInstantiation && *final(self) == *old(self)
                    && list_array_refused(api, *old(self), length),
            },
    {
        let held: usize = self.fields.items.len();
        if held == length {
            return Ok(());
        }
        let mut new_array: Array<T> = match Array::new_specific(
            api,
            self.fields.items.get_class(),
            length,
        ) {
            Ok(array) => array,
            Err(e) => {
                return Err(e);
            },
        };
        if new_array.len() != length {
            return Err(Il2CppError::FailedArrayInstantiation);
        }
        let ghost made = new_array;
        let mut k: usize = 0;
        while k < held
            invariant
                k <= held <= length,
                held == old(self).fields.items.fields.m_items@.len(),
                self.fields.items.fields.m_items@.len() == held,
                new_array.fields.m_items@.len() == length,
                forall|j: int|
                    0 <= j < k ==> new_array.fields.m_items@[j] == old(
                        self,
                    ).fields.items.fields.m_items@[j],
                forall|j: int|
                    k <= j < length ==> new_array.fields.m_items@[j] == made.fields.m_items@[j],
                forall|j: int|
                    k <= j < held ==> self.fields.items.fields.m_items@[j] == old(
                        self,
                    ).fields.items.fields.m_items@[j],
                new_array.address == made.address,
                new_array.klass == made.klass,
                new_array.monitor == made.monitor,
                new_array.fields.bounds == made.fields.bounds,
                new_array.fields.max_length == made.fields.max_length,
                self.fields.size == old(self).fields.size,
                self.fields.version == old(self).fields.version,
                self.fields.sync_root == old(self).fields.sync_root,
                self.address == old(self).address,
                self.klass == old(self).klass,
                self.monitor == old(self).monitor,
                self.fields.items.klass == old(self).fields.items.klass,
            decreases held - k,
        {
            core::mem::swap(&mut new_array.fields.m_items[k], &mut self.fields.items.fields.m_items[k]);
            k += 1;
        }
        self.fields.items = new_array;
        proof {
            assert(self.fields.items.fields.m_items@ =~= old(self).fields.items.fields.m_items@
                + made.fields.m_items@.subrange(held as int, length as int));
            assert(array_allocated(api, &old(self).fields.items.klass, length, true, Ok(made)));
        }
        Ok(())
    }

    /// Appends the object at `element` to the list, by a call of the first
    /// method that the class of the list declares under the name `Add`.
    pub fn add<A: Il2CppApi>(&self, api: &A, element: usize) -> (r: Il2CppResult<usize>)
        ensures
            if r is Ok {
                exists|i: int, words: &[usize]|
                    {
                        &&& words@ == seq![self.address, element]
                        &&& first_method_named(self.klass._1.methods@, "Add"@, i)
                        &&& #[trigger] call_ensures(
                            A::call,
                            (
                                api,
                                self.klass._1.methods@[i].method_ptr,
                                words,
                                Some(&self.klass._1.methods@[i]),
                            ),
                            r->Ok_0,
                        )
                    }
            } else {
                r->Err_0 is MissingMethod && no_method_named(
                    self.klass._1.methods@,
                    "Add"@,
                    self.klass._1.methods@.len() as int,
                )
            },
    {
        match self.klass.find_method("Add") {
            Some(i) => {
                let method: &MethodInfo = &self.klass._1.methods[i];
                let mut args: Vec<usize> = Vec::new();
                args.push(self.address);
                args.push(element);
                assert(args@ =~= seq![self.address, element]);
                let word: usize = api.call(method.method_ptr, args.as_slice(), Some(method));
                proof {
                    assert(Ok::<usize, Il2CppError>(word)->Ok_0 == word);
                }
                Ok(word)
            },
            None => Err(Il2CppError::MissingMethod),
        }
    }

    /// Empties the list, by a call of the virtual method `Clear` of its class.
    pub fn clear<A: Il2CppApi>(&self, api: &A) -> (r: Il2CppResult<usize>)
        ensures
            called_virtual(api, &self.klass, "Clear", seq![self.address], r),
    {
        let mut args: Vec<usize> = Vec::new();
        args.push(self.address);
        assert(args@ =~= seq![self.address]);
        call_virtual(api, &self.klass, "Clear", args.as_slice())
    }
}

/// What a list of the runtime offers through the virtual methods of its class.
pub trait ListVirtual: Il2CppClassData {
    /// Where the list lies in the runtime's memory.
    fn address(&self) -> usize;

    /// Appends the object at `element` to the list, by a call of the virtual
    /// method `Add` of the class.
    fn add<A: Il2CppApi>(&self, api: &A, element: usize) -> (r: Il2CppResult<usize>)
        ensures
            exists|found: Il2CppResult<Il2CppClass>, address: usize|
                {
                    &&& class_resolved(api, Self::NAMESPACE, Self::CLASS, found)
                    &&& call_ensures(Self::address, (self,), address)
                    &&& match found {
                        Ok(class) => called_virtual(api, &class, "Add", seq![address, element], r),
                        Err(e) => r == Err::<usize, Il2CppError>(e),
                    }
                },
    {
        let address: usize = self.address();
        match Self::class(api) {
            Ok(class) => {
                let mut args: Vec<usize> = Vec::new();
                args.push(address);
                args.push(element);
                assert(args@ =~= seq![address, element]);
                call_virtual(api, &class, "Add", args.as_slice())
            },
            Err(e) => Err(e),
        }
    }
}

impl<T> ListVirtual for List<T> {
    fn address(&self) -> (r: usize)
        ensures
            r == self.address,
    {
        self.address
    }
}

/// A dictionary of the runtime.
#[derive(Debug)]
pub struct Dictionary {
    /// Where the dictionary lies in the runtime's memory.
    pub address: usize,
    pub klass: Il2CppClass,
    pub monitor: usize,
}

impl Il2CppClassData for Dictionary {
    const NAMESPACE: &'static str = "System.Collections.Generic";

    const CLASS: &'static str = "Dictionary`1";
}

impl Dictionary {
    /// The class of the dictionary.
    pub fn get_class(&self) -> (r: &Il2CppClass)
        ensures
            *r == self.klass,
    {
        &self.klass
    }

    /// Enters `value` under `key`, by a call of the virtual method `Add` of
    /// the class. Key and value are the words that the method takes: what
    /// they have to be is a matter of the dictionary's type arguments.
    pub fn add<A: Il2CppApi>(&self, api: &A, key: usize, value: usize) -> (r: Il2CppResult<usize>)
        ensures
            called_virtual(api, &self.klass, "Add", seq![self.address, key, value], r),
    {
        let mut args: Vec<usize> = Vec::new();
        args.push(self.address);
        args.push(key);
        args.push(value);
        assert(args@ =~= seq![self.address, key, value]);
        call_virtual(api, &self.klass, "Add", args.as_slice())
    }

    /// Whether the dictionary has an entry under `key`, by a call of the
    /// virtual method `TryGetValue` of the class, which writes the value of
    /// the entry to the place at `value`.
    pub fn try_get_value<A: Il2CppApi>(&self, api: &A, key: usize, value: usize) -> (r:
        Il2CppResult<bool>)
        ensures
            exists|word: Il2CppResult<usize>|
                {
                    &&& called_virtual(
                        api,
                        &self.klass,
                        "TryGetValue",
                        seq![self.address, key, value],
                        word,
                    )
                    &&& match word {
                        Ok(w) => r == Ok::<bool, Il2CppError>(w != 0),
                        Err(e) => r == Err::<bool, Il2CppError>(e),
                    }
                },
    {
        let mut args: Vec<usize> = Vec::new();
        args.push(self.address);
        args.push(key);
        args.push(value);
        assert(args@ =~= seq![self.address, key, value]);
        truth_of(call_virtual(api, &self.klass, "TryGetValue", args.as_slice()))
    }
}

} // verus!
