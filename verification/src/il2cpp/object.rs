//! Objects and arrays.

use vstd::prelude::*;
use crate::Il2CppError;
use crate::Il2CppResult;
use crate::il2cpp::api::Il2CppApi;
use crate::il2cpp::class::Il2CppClass;
use crate::il2cpp::class::Il2CppClassData;
use crate::il2cpp::class::class_resolved;

verus! {

/// An instance of a class: the header that every object of the runtime has,
/// then the fields of the class.
#[derive(Debug)]
pub struct Il2CppObject<T> {
    /// Where the object lies in the runtime's memory.
    pub address: usize,
    /// The class of the object, as it was when the object was read. In the
    /// runtime all objects of a class share one descriptor: a change that is
    /// written to it is a change for each of them.
    pub klass: Il2CppClass,
    pub monitor: usize,
    pub fields: T,
}

/// The bounds of one dimension of an array.
#[derive(Clone, Copy, Debug, PartialEq, Eq, Structural)]
pub struct Il2CppArrayBounds {
    pub length: usize,
    pub lower_bounds: u32,
}

/// The fields of an array: its bounds, its length and, directly behind the
/// length, its elements.
#[derive(Debug)]
pub struct ArrayFields<T> {
    /// The bounds of the dimensions; `None` for an array of one dimension
    /// that starts at zero.
    pub bounds: Option<Il2CppArrayBounds>,
    pub max_length: usize,
    pub m_items: Vec<T>,
}

/// An array of the runtime. Elements that are references are held as
/// addresses.
#[derive(Debug)]
pub struct Array<T> {
    /// Where the array lies in the runtime's memory.
    pub address: usize,
    pub klass: Il2CppClass,
    pub monitor: usize,
    pub fields: ArrayFields<T>,
}

/// An array of the runtime.
pub type Il2CppArray<T> = Array<T>;

/// The header of a new object, as the runtime hands it out: the fields
/// behind it are those of a new object, which the runtime has cleared.
#[derive(Debug)]
pub struct ObjectHeader {
    /// Where the object lies in the runtime's memory.
    pub address: usize,
    pub klass: Il2CppClass,
    pub monitor: usize,
}

/// The header of a new array, as the runtime hands it out: the elements
/// behind it are those of a new array, which the runtime has cleared.
#[derive(Debug)]
pub struct ArrayHeader {
    /// Where the array lies in the runtime's memory.
    pub address: usize,
    pub klass: Il2CppClass,
    pub monitor: usize,
    pub bounds: Option<Il2CppArrayBounds>,
    pub max_length: usize,
}

/// Whether `object` is the new object behind `header`: it has the header's
/// place, class and monitor, and fields as a new value of their type has them.
pub open spec fn object_on_header<T: Default>(object: Il2CppObject<T>, header: ObjectHeader) -> bool {
    &&& object.address == header.address
    &&& object.klass == header.klass
    &&& object.monitor == header.monitor
    &&& call_ensures(T::default, (), object.fields)
}

/// Whether `array` is the new array behind `header`: it has the header's
/// place, class, monitor, bounds and length, and as many elements as the
/// length says, each as a new value of the element type is.
pub open spec fn array_on_header<T: Default>(array: Array<T>, header: ArrayHeader) -> bool {
    &&& array.address == header.address
    &&& array.klass == header.klass
    &&& array.monitor == header.monitor
    &&& array.fields.bounds == header.bounds
    &&& array.fields.max_length == header.max_length
    &&& array.fields.m_items@.len() == header.max_length
    &&& forall|k: int|
        0 <= k < array.fields.m_items@.len() ==> call_ensures(
            T::default,
            (),
            #[trigger] array.fields.m_items@[k],
        )
}

/// What an allocation of an object of `class` gives for each answer of the runtime.
pub open spec fn object_allocated<A: Il2CppApi, T: Default>(
    api: &A,
    class: &Il2CppClass,
    r: Il2CppResult<Il2CppObject<T>>,
) -> bool {
    match r {
        Ok(object) => exists|header: ObjectHeader|
            call_ensures(A::object_new, (api, class), Some(header)) && #[trigger] object_on_header(
                object,
                header,
            ),
        Err(e) => {
            &&& e matches Il2CppError::FailedInstantiation(text)
            &&& text == class._1.name
            &&& call_ensures(A::object_new, (api, class), None::<ObjectHeader>)
        },
    }
}

/// What the runtime answered to the request for an array of `length`
/// elements: through the entry point that takes the array's own class where
/// `specific`, through the one that takes the class of the elements where not.
pub open spec fn array_answered<A: Il2CppApi>(
    api: &A,
    class: &Il2CppClass,
    length: usize,
    specific: bool,
    answer: Option<ArrayHeader>,
) -> bool {
    if specific {
        call_ensures(A::array_new_specific, (api, class, length), answer)
    } else {
        call_ensures(A::array_new, (api, class, length), answer)
    }
}

/// What an allocation of an array gives for each answer of the runtime.
pub open spec fn array_allocated<A: Il2CppApi, T: Default>(
    api: &A,
    class: &Il2CppClass,
    length: usize,
    specific: bool,
    r: Il2CppResult<Array<T>>,
) -> bool {
    match r {
        Ok(array) => exists|header: ArrayHeader|
            array_answered(api, class, length, specific, Some(header))
                && #[trigger] array_on_header(array, header),
        Err(e) => {
            &&& e is FailedArrayInstantiation
            &&& array_answered(api, class, length, specific, None::<ArrayHeader>)
        },
    }
}

/// The new object behind the header that the runtime handed out, or the
/// failure to instantiate the class of the name `class_name` where it handed
/// out none.
pub fn instantiated<T: Default>(made: Option<ObjectHeader>, class_name: String) -> (r: Il2CppResult<
    Il2CppObject<T>,
>)
    ensures
        match made {
            Some(header) => r is Ok && object_on_header(r->Ok_0, header),
            None => r == Err::<Il2CppObject<T>, Il2CppError>(
                Il2CppError::FailedInstantiation(class_name),
            ),
        },
{
    match made {
        Some(header) => Ok(
            Il2CppObject {
                address: header.address,
                klass: header.klass,
                monitor: header.monitor,
                fields: T::default(),
            },
        ),
        None => Err(Il2CppError::FailedInstantiation(class_name)),
    }
}

/// The new array behind the header that the runtime handed out, or the
/// failure to make one where it handed out none.
pub fn array_instantiated<T: Default>(made: Option<ArrayHeader>) -> (r: Il2CppResult<Array<T>>)
    ensures
        match made {
            Some(header) => r is Ok && array_on_header(r->Ok_0, header),
            None => r == Err::<Array<T>, Il2CppError>(Il2CppError::FailedArrayInstantiation),
        },
{
    match made {
        Some(header) => {
            let length: usize = header.max_length;
            let mut m_items: Vec<T> = Vec::with_capacity(length);
            let mut k: usize = 0;
            while k < length
                invariant
                    k <= length,
                    m_items@.len() == k,
                    forall|j: int| 0 <= j < k ==> call_ensures(T::default, (), #[trigger] m_items@[j]),
                decreases length - k,
            {
                m_items.push(T::default());
                k += 1;
            }
            Ok(
                Array {
                    address: header.address,
                    klass: header.klass,
                    monitor: header.monitor,
                    fields: ArrayFields { bounds: header.bounds, max_length: length, m_items },
                },
            )
        },
        None => Err(Il2CppError::FailedArrayInstantiation),
    }
}

/// A new array of `length` elements whose own class is `array_typeinfo`.
pub fn array_new_specific<A: Il2CppApi, T: Default>(
    api: &A,
    array_typeinfo: &Il2CppClass,
    length: usize,
) -> (r: Il2CppResult<Array<T>>)
    ensures
        array_allocated(api, array_typeinfo, length, true, r),
        r is Ok ==> r->Ok_0.wf(),
{
    let answer: Option<ArrayHeader> = api.array_new_specific(array_typeinfo, length);
    let r: Il2CppResult<Array<T>> = array_instantiated(answer);
    proof {
        if answer is Some {
            assert(array_on_header(r->Ok_0, answer->Some_0));
        }
    }
    r
}

/// A new array of `length` elements of the class `element_typeinfo`.
pub fn array_new<A: Il2CppApi, T: Default>(
    api: &A,
    element_typeinfo: &Il2CppClass,
    length: usize,
) -> (r: Il2CppResult<Array<T>>)
    ensures
        array_allocated(api, element_typeinfo, length, false, r),
        r is Ok ==> r->Ok_0.wf(),
{
    let answer: Option<ArrayHeader> = api.array_new(element_typeinfo, length);
    let r: Il2CppResult<Array<T>> = array_instantiated(answer);
    proof {
        if answer is Some {
            assert(array_on_header(r->Ok_0, answer->Some_0));
        }
    }
    r
}

impl<T> Il2CppObject<T> {
    /// The class of the object.
    pub fn get_class(&self) -> (r: &Il2CppClass)
        ensures
            *r == self.klass,
    {
        &self.klass
    }

    /// The class of the object, to be changed in place.
    pub fn get_class_mut(&mut self) -> (r: &mut Il2CppClass)
        ensures
            *r == old(self).klass,
            final(self).klass == *final(r),
            final(self).address == old(self).address,
            final(self).monitor == old(self).monitor,
            final(self).fields == old(self).fields,
    {
        &mut self.klass
    }

    /// The fields of the object.
    pub fn as_ref(&self) -> (r: &T)
        ensures
            *r == self.fields,
    {
        &self.fields
    }

    /// The fields of the object, to be changed in place.
    pub fn as_mut(&mut self) -> (r: &mut T)
        ensures
            *r == old(self).fields,
            final(self).fields == *final(r),
            final(self).address == old(self).address,
            final(self).klass == old(self).klass,
            final(self).monitor == old(self).monitor,
    {
        &mut self.fields
    }

    /// A new object of the class.
    pub fn from_class<A: Il2CppApi>(api: &A, class: &Il2CppClass) -> (r: Il2CppResult<
        Il2CppObject<T>,
    >) where T: Default
        ensures
            object_allocated(api, class, r),
    {
        let answer: Option<ObjectHeader> = api.object_new(class);
        let r: Il2CppResult<Il2CppObject<T>> = instantiated(answer, class.get_name());
        proof {
            if answer is Some {
                assert(object_on_header(r->Ok_0, answer->Some_0));
            }
        }
        r
    }
}

impl<T> ArrayFields<T> {
    /// The number of elements.
    pub fn len(&self) -> (r: usize)
        ensures
            r == self.m_items@.len(),
    {
        self.m_items.len()
    }

    /// The elements, in order.
    pub fn as_slice(&self) -> (r: &[T])
        ensures
            r@ == self.m_items@,
    {
        self.m_items.as_slice()
    }
}

impl<T> Array<T> {
    /// Whether the array has as many elements as its length says.
    pub open spec fn wf(&self) -> bool {
        self.fields.m_items@.len() == self.fields.max_length
    }

    /// The elements, to be changed in place.
    pub fn as_mut_slice(&mut self) -> (r: &mut [T])
        ensures
            r@ == old(self).fields.m_items@,
            final(self).fields.m_items@ == final(r)@,
            final(self).address == old(self).address,
            final(self).klass == old(self).klass,
            final(self).monitor == old(self).monitor,
            final(self).fields.bounds == old(self).fields.bounds,
            final(self).fields.max_length == old(self).fields.max_length,
    {
        self.fields.m_items.as_mut_slice()
    }

    /// The class of the array.
    pub fn get_class(&self) -> (r: &Il2CppClass)
        ensures
            *r == self.klass,
    {
        &self.klass
    }

    /// The number of elements.
    pub fn len(&self) -> (r: usize)
        ensures
            r == self.fields.m_items@.len(),
    {
        self.fields.m_items.len()
    }

    /// The elements, in order.
    pub fn as_slice(&self) -> (r: &[T])
        ensures
            r@ == self.fields.m_items@,
    {
        self.fields.m_items.as_slice()
    }

    /// A new array of the class `class` with `capacity` elements.
    pub fn new_specific<A: Il2CppApi>(api: &A, class: &Il2CppClass, capacity: usize) -> (r:
        Il2CppResult<Self>) where T: Default
        ensures
            array_allocated(api, class, capacity, true, r),
    {
        array_new_specific(api, class, capacity)
    }

    /// Exchanges the elements of the array with those of `items`, one for one.
    pub fn swap_with(&mut self, items: &mut Vec<T>)
        requires
            old(self).fields.m_items@.len() == old(items)@.len(),
        ensures
            final(self).fields.m_items@ == old(items)@,
            final(items)@ == old(self).fields.m_items@,
            final(self).address == old(self).address,
            final(self).klass == old(self).klass,
            final(self).monitor == old(self).monitor,
            final(self).fields.bounds == old(self).fields.bounds,
            final(self).fields.max_length == old(self).fields.max_length,
    {
        let count: usize = items.len();
        let mut k: usize = 0;
        while k < count
            invariant
                k <= count,
                count == old(items)@.len(),
                self.fields.m_items@.len() == count,
                items@.len() == count,
                forall|j: int| 0 <= j < k ==> self.fields.m_items@[j] == old(items)@[j],
                forall|j: int| 0 <= j < k ==> items@[j] == old(self).fields.m_items@[j],
                forall|j: int| k <= j < count ==> self.fields.m_items@[j] == old(self).fields.m_items@[j],
                forall|j: int| k <= j < count ==> items@[j] == old(items)@[j],
                self.address == old(self).address,
                self.klass == old(self).klass,
                self.monitor == old(self).monitor,
                self.fields.bounds == old(self).fields.bounds,
                self.fields.max_length == old(self).fields.max_length,
            decreases count - k,
        {
            core::mem::swap(&mut self.fields.m_items[k], &mut items[k]);
            k += 1;
        }
        assert(self.fields.m_items@ =~= old(items)@);
        assert(items@ =~= old(self).fields.m_items@);
    }

    /// A new array of the class `class` that holds the elements of `items`;
    /// `items` gets the elements that the runtime put into the new array. An
    /// array of another length than asked for counts as none.
    pub fn new_specific_from<A: Il2CppApi>(
        api: &A,
        class: &Il2CppClass,
        items: &mut Vec<T>,
    ) -> (r: Il2CppResult<Self>) where T: Default
        ensures
            match r {
                Ok(array) => exists|made: Array<T>|
                    {
                        &&& array_allocated(api, class, old(items)@.len() as usize, true, Ok(made))
                        &&& made.fields.m_items@.len() == old(items)@.len()
                        &&& array.fields.m_items@ == old(items)@
                        &&& final(items)@ == made.fields.m_items@
                        &&& array.address == made.address
                        &&& array.klass == made.klass
                        &&& array.monitor == made.monitor
                        &&& array.fields.bounds == made.fields.bounds
                        &&& array.fields.max_length == made.fields.max_length
                    },
                Err(e) => {
                    &&& e is FailedArrayInstantiation
                    &&& final(items)@ == old(items)@
                    &&& (array_allocated(
                        api,
                        class,
                        old(items)@.len() as usize,
                        true,
                        Err::<Array<T>, Il2CppError>(e),
                    ) || exists|made: Array<T>|
                        array_allocated(api, class, old(items)@.len() as usize, true, Ok(made))
                            && made.fields.m_items@.len() != old(items)@.len())
                },
            },
    {
        let made: Il2CppResult<Array<T>> = array_new_specific(api, class, items.len());
        match made {
            Ok(mut new_array) => {
                if new_array.len() == items.len() {
                    let ghost fresh = new_array;
                    new_array.swap_with(items);
                    proof {
                        assert(array_allocated(api, class, old(items)@.len() as usize, true, Ok(fresh)));
                    }
                    Ok(new_array)
                } else {
                    Err(Il2CppError::FailedArrayInstantiation)
                }
            },
            Err(e) => Err(e),
        }
    }

    /// A vector that holds a clone of each element, in order.
    pub fn to_vec(&self) -> (r: Vec<T>) where T: Clone
        ensures
            r@.len() == self.fields.m_items@.len(),
            forall|k: int|
                0 <= k < r@.len() ==> cloned::<T>(self.fields.m_items@[k], #[trigger] r@[k]),
    {
        let count: usize = self.fields.m_items.len();
        let mut copy: Vec<T> = Vec::with_capacity(count);
        let mut k: usize = 0;
        while k < count
            invariant
                k <= count,
                count == self.fields.m_items@.len(),
                copy@.len() == k,
                forall|j: int| 0 <= j < k ==> cloned::<T>(self.fields.m_items@[j], #[trigger] copy@[j]),
            decreases count - k,
        {
            copy.push(self.fields.m_items[k].clone());
            k += 1;
        }
        copy
    }
}


/// What the making of an array of `capacity` elements of the class of that
/// namespace and name gives for each run of answers of the runtime.
pub open spec fn array_of_class_made<A: Il2CppApi, T: Default>(
    api: &A,
    namespace: &str,
    name: &str,
    capacity: usize,
    r: Il2CppResult<Array<T>>,
) -> bool {
    exists|found: Il2CppResult<Il2CppClass>|
        {
            &&& #[trigger] class_resolved(api, namespace, name, found)
            &&& match found {
                Ok(class) => array_allocated(api, &class, capacity, false, r),
                Err(e) => r == Err::<Array<T>, Il2CppError>(e),
            }
        }
}

/// Whether `array` is the array `made` with the elements `items` in the
/// place of its own.
pub open spec fn array_holds<T>(array: Array<T>, made: Array<T>, items: Seq<T>) -> bool {
    &&& array.fields.m_items@ == items
    &&& made.fields.m_items@.len() == items.len()
    &&& array.address == made.address
    &&& array.klass == made.klass
    &&& array.monitor == made.monitor
    &&& array.fields.bounds == made.fields.bounds
    &&& array.fields.max_length == made.fields.max_length
}

/// What becomes of the array `made` that was to hold `items`: it holds them,
/// or it counts as none where it has another length than `items`, or there
/// was none.
pub open spec fn array_filled<T>(
    made: Il2CppResult<Array<T>>,
    items: Seq<T>,
    r: Il2CppResult<Array<T>>,
) -> bool {
    if made is Ok {
        if made->Ok_0.fields.m_items@.len() == items.len() {
            r is Ok && array_holds(r->Ok_0, made->Ok_0, items)
        } else {
            r == Err::<Array<T>, Il2CppError>(Il2CppError::FailedArrayInstantiation)
        }
    } else {
        r == Err::<Array<T>, Il2CppError>(made->Err_0)
    }
}

/// What the making of an array that holds `items` gives for each run of
/// answers of the runtime. An array of another length than asked for counts
/// as none.
pub open spec fn array_of_class_filled<A: Il2CppApi, T: Default>(
    api: &A,
    namespace: &str,
    name: &str,
    items: Seq<T>,
    r: Il2CppResult<Array<T>>,
) -> bool {
    exists|made: Il2CppResult<Array<T>>|
        {
            &&& #[trigger] array_of_class_made(api, namespace, name, items.len() as usize, made)
            &&& array_filled(made, items, r)
        }
}

/// How arrays of elements of one type are made: the class of the elements
/// is the one that stands for that type.
pub trait ArrayInstantiator<T: Default>: Sized {
    /// The namespace of the class of the elements.
    spec fn element_namespace() -> &'static str;

    /// The name of the class of the elements.
    spec fn element_class() -> &'static str;

    /// A new array of `capacity` elements.
    fn new<A: Il2CppApi>(api: &A, capacity: usize) -> (r: Il2CppResult<Array<T>>)
        ensures
            array_of_class_made(api, Self::element_namespace(), Self::element_class(), capacity, r),
    ;

    /// A new array that holds the elements of `items`; `items` gets the
    /// elements that the runtime put into the new array.
    fn new_from<A: Il2CppApi>(api: &A, items: &mut Vec<T>) -> (r: Il2CppResult<Array<T>>)
        ensures
            array_of_class_filled(
                api,
                Self::element_namespace(),
                Self::element_class(),
                old(items)@,
                r,
            ),
            r is Err ==> final(items)@ == old(items)@,
    ;

    /// A new array that holds the elements of `value`.
    fn from_vec<A: Il2CppApi>(api: &A, value: Vec<T>) -> (r: Il2CppResult<Array<T>>)
        ensures
            array_of_class_filled(api, Self::element_namespace(), Self::element_class(), value@, r),
    ;
}

/// A new array of `capacity` elements of the class that `C` stands for.
pub fn array_of<A: Il2CppApi, C: Il2CppClassData, T: Default>(api: &A, capacity: usize) -> (r:
    Il2CppResult<Array<T>>)
    ensures
        array_of_class_made(api, C::NAMESPACE, C::CLASS, capacity, r),
{
    match C::class(api) {
        Ok(class) => array_new(api, &class, capacity),
        Err(e) => Err(e),
    }
}

/// A new array of elements of the class that `C` stands for that holds the
/// elements of `items`; `items` gets the elements that the runtime put into
/// the new array.
pub fn array_from<A: Il2CppApi, C: Il2CppClassData, T: Default>(api: &A, items: &mut Vec<T>) -> (r:
    Il2CppResult<Array<T>>)
    ensures
        array_of_class_filled(api, C::NAMESPACE, C::CLASS, old(items)@, r),
        r is Err ==> final(items)@ == old(items)@,
{
    let made: Il2CppResult<Array<T>> = array_of::<A, C, T>(api, items.len());
    let ghost answer = made;
    proof {
        assert(array_of_class_made(
            api,
            C::NAMESPACE,
            C::CLASS,
            old(items)@.len() as usize,
            answer,
        ));
    }
    match made {
        Ok(mut new_array) => {
            if new_array.len() == items.len() {
                new_array.swap_with(items);
                let r: Il2CppResult<Array<T>> = Ok(new_array);
                proof {
                    assert(array_holds(r->Ok_0, answer->Ok_0, old(items)@));
                    assert(array_filled(answer, old(items)@, r));
                }
                r
            } else {
                let r: Il2CppResult<Array<T>> = Err(Il2CppError::FailedArrayInstantiation);
                proof {
                    assert(array_filled(answer, old(items)@, r));
                }
                r
            }
        },
        Err(e) => {
            let r: Il2CppResult<Array<T>> = Err(e);
            proof {
                assert(array_filled(answer, old(items)@, r));
            }
            r
        },
    }
}

impl ArrayInstantiator<u8> for Array<u8> {
    open spec fn element_namespace() -> &'static str {
        <u8 as Il2CppClassData>::NAMESPACE
    }

    open spec fn element_class() -> &'static str {
        <u8 as Il2CppClassData>::CLASS
    }

    fn new<A: Il2CppApi>(api: &A, capacity: usize) -> (r: Il2CppResult<Array<u8>>) {
        array_of::<A, u8, u8>(api, capacity)
    }

    fn new_from<A: Il2CppApi>(api: &A, items: &mut Vec<u8>) -> (r: Il2CppResult<Array<u8>>) {
        array_from::<A, u8, u8>(api, items)
    }

    fn from_vec<A: Il2CppApi>(api: &A, value: Vec<u8>) -> (r: Il2CppResult<Array<u8>>) {
        let mut items: Vec<u8> = value;
        array_from::<A, u8, u8>(api, &mut items)
    }
}

/// A reference to an object of the class that `T` stands for: the address
/// of the object, null for none.
#[derive(Debug)]
pub struct Reference<T> {
    pub address: usize,
    pub class: core::marker::PhantomData<T>,
}

impl<T> Reference<T> {
    /// The reference to the object at `address`.
    pub fn new(address: usize) -> (r: Self)
        ensures
            r.address == address,
    {
        Reference { address, class: core::marker::PhantomData }
    }
}

impl<T> Default for Reference<T> {
    /// The null reference: what an element of a fresh array holds.
    fn default() -> (r: Self)
        ensures
            r.address == 0,
    {
        Reference { address: 0, class: core::marker::PhantomData }
    }
}

impl<T: Il2CppClassData> ArrayInstantiator<Reference<T>> for Array<Reference<T>> {
    open spec fn element_namespace() -> &'static str {
        T::NAMESPACE
    }

    open spec fn element_class() -> &'static str {
        T::CLASS
    }

    fn new<A: Il2CppApi>(api: &A, capacity: usize) -> (r: Il2CppResult<Array<Reference<T>>>) {
        array_of::<A, T, Reference<T>>(api, capacity)
    }

    fn new_from<A: Il2CppApi>(api: &A, items: &mut Vec<Reference<T>>) -> (r: Il2CppResult<
        Array<Reference<T>>,
    >) {
        array_from::<A, T, Reference<T>>(api, items)
    }

    fn from_vec<A: Il2CppApi>(api: &A, value: Vec<Reference<T>>) -> (r: Il2CppResult<
        Array<Reference<T>>,
    >) {
        let mut items: Vec<Reference<T>> = value;
        array_from::<A, T, Reference<T>>(api, &mut items)
    }
}

/// Where the runtime gives every new object the class that it was asked
/// for, the class of an object that was allocated is that class: it has the
/// same name and the same namespace.
pub proof fn lemma_allocated_object_has_class<A: Il2CppApi, T: Default>(
    api: &A,
    class: &Il2CppClass,
    r: Il2CppResult<Il2CppObject<T>>,
)
    requires
        forall|header: ObjectHeader|
            call_ensures(A::object_new, (api, class), Some(header)) ==> header.klass@ == class@,
        object_allocated(api, class, r),
        r is Ok,
    ensures
        r->Ok_0.klass@ == class@,
        r->Ok_0.klass._1.name == class._1.name,
        r->Ok_0.klass._1.namespace == class._1.namespace,
{
}


} // verus!
