//! Classes that were looked up once, kept for every later request.

use vstd::prelude::*;
use crate::Il2CppError;
use crate::Il2CppResult;
use crate::il2cpp::api::Il2CppApi;
use crate::il2cpp::class::Il2CppClass;
use crate::il2cpp::class::Il2CppClassView;
use crate::il2cpp::class::class_resolved;

verus! {

/// A class as it was found under a namespace and a name.
#[derive(Debug)]
pub struct CachedClass {
    pub namespace: String,
    pub name: String,
    pub class: Il2CppClass,
}

/// What a cached class holds.
pub struct CachedClassView {
    pub namespace: Seq<char>,
    pub name: Seq<char>,
    pub class: Il2CppClassView,
}

impl View for CachedClass {
    type V = CachedClassView;

    open spec fn view(&self) -> CachedClassView {
        CachedClassView { namespace: self.namespace@, name: self.name@, class: self.class@ }
    }
}

/// Whether none of `entries` before position `end` is one for that namespace
/// and name.
pub open spec fn not_cached(
    entries: Seq<CachedClassView>,
    namespace: Seq<char>,
    name: Seq<char>,
    end: int,
) -> bool {
    forall|j: int|
        0 <= j < end ==> !((#[trigger] entries[j]).namespace == namespace && entries[j].name == name)
}

/// Whether position `i` is the first of `entries` for that namespace and name.
pub open spec fn cached_at(
    entries: Seq<CachedClassView>,
    namespace: Seq<char>,
    name: Seq<char>,
    i: int,
) -> bool {
    &&& 0 <= i < entries.len()
    &&& entries[i].namespace == namespace
    &&& entries[i].name == name
    &&& not_cached(entries, namespace, name, i)
}

/// The classes that were looked up so far. A class that was found once is
/// never looked up again: an entry, once made, stays as it is.
#[derive(Debug)]
pub struct ClassCache {
    entries: Vec<CachedClass>,
}

impl View for ClassCache {
    type V = Seq<CachedClassView>;

    closed spec fn view(&self) -> Seq<CachedClassView> {
        self.entries@.map_values(|entry: CachedClass| entry@)
    }
}

impl ClassCache {
    /// A cache without entries.
    pub fn new() -> (r: Self)
        ensures
            r@ == Seq::<CachedClassView>::empty(),
    {
        let r = ClassCache { entries: Vec::new() };
        assert(r@ =~= Seq::<CachedClassView>::empty());
        r
    }

    /// The number of entries.
    pub fn len(&self) -> (r: usize)
        ensures
            r == self@.len(),
    {
        self.entries.len()
    }

    /// The position of the first entry for that namespace and name, if there
    /// is one.
    pub fn find(&self, namespace: &str, name: &str) -> (r: Option<usize>)
        ensures
            match r {
                Some(i) => cached_at(self@, namespace@, name@, i as int),
                None => not_cached(self@, namespace@, name@, self@.len() as int),
            },
    {
        let wanted_namespace: String = namespace.to_owned();
        let wanted_name: String = name.to_owned();
        let mut i: usize = 0;
        while i < self.entries.len()
            invariant
                i <= self.entries@.len(),
                self@.len() == self.entries@.len(),
                wanted_namespace@ == namespace@,
                wanted_name@ == name@,
                not_cached(self@, namespace@, name@, i as int),
            decreases self.entries@.len() - i,
        {
            let entry: &CachedClass = &self.entries[i];
            let same_namespace: bool = entry.namespace == wanted_namespace;
            let same_name: bool = entry.name == wanted_name;
            assert(self@[i as int] == entry@);
            if same_namespace && same_name {
                return Some(i);
            }
            i += 1;
        }
        None
    }

    /// The class of that namespace and name: the one that the cache holds,
    /// or else the one that the runtime has, which the cache holds from then
    /// on. A failure of the lookup is not kept: the next request asks again.
    pub fn get_or_resolve<A: Il2CppApi>(&mut self, api: &A, namespace: &str, name: &str) -> (r:
        Il2CppResult<Il2CppClass>)
        ensures
            forall|i: int|
                cached_at(old(self)@, namespace@, name@, i) ==> r is Ok && r->Ok_0@ == old(
                    self,
                )@[i].class && final(self)@ == old(self)@,
            not_cached(old(self)@, namespace@, name@, old(self)@.len() as int) ==> exists|
                found: Il2CppResult<Il2CppClass>,
            |
                #[trigger] class_resolved(api, namespace, name, found) && match found {
                    Ok(class) => r is Ok && r->Ok_0@ == class@ && final(self)@ == old(self)@.push(
                        CachedClassView { namespace: namespace@, name: name@, class: class@ },
                    ),
                    Err(e) => r == Err::<Il2CppClass, Il2CppError>(e) && final(self)@ == old(
                        self,
                    )@,
                },
    {
        match self.find(namespace, name) {
            Some(i) => {
                proof {
                    lemma_cached_at_is_one(self@, namespace@, name@, i as int);
                    assert(self@[i as int] == self.entries@[i as int]@);
                }
                Ok(self.entries[i].class.copy())
            },
            None => {
                let found: Il2CppResult<Il2CppClass> = Il2CppClass::from_name(
                    api,
                    namespace,
                    name,
                );
                proof {
                    assert forall|i: int| !cached_at(self@, namespace@, name@, i) by {
                        if cached_at(self@, namespace@, name@, i) {
                            assert(self@[i].namespace == namespace@);
                        }
                    }
                }
                match found {
                    Ok(class) => {
                        let kept: Il2CppClass = class.copy();
                        self.entries.push(
                            CachedClass {
                                namespace: namespace.to_owned(),
                                name: name.to_owned(),
                                class: kept,
                            },
                        );
                        proof {
                            assert(self@ =~= old(self)@.push(
                                CachedClassView {
                                    namespace: namespace@,
                                    name: name@,
                                    class: class@,
                                },
                            ));
                        }
                        Ok(class)
                    },
                    Err(e) => Err(e),
                }
            },
        }
    }
}

/// For one namespace and name a cache has one first entry at most.
pub proof fn lemma_cached_at_is_one(
    entries: Seq<CachedClassView>,
    namespace: Seq<char>,
    name: Seq<char>,
    i: int,
)
    requires
        cached_at(entries, namespace, name, i),
    ensures
        forall|j: int| cached_at(entries, namespace, name, j) ==> j == i,
        !not_cached(entries, namespace, name, entries.len() as int),
{
    assert forall|j: int| cached_at(entries, namespace, name, j) implies j == i by {
        if j < i {
            assert(entries[j].namespace == namespace);
        } else if i < j {
            assert(entries[i].namespace == namespace);
        }
    }
    if not_cached(entries, namespace, name, entries.len() as int) {
        assert(entries[i].namespace == namespace);
    }
}

/// What was looked up once stays looked up: an entry that a cache holds is
/// the answer to every later request for its namespace and name, whatever
/// was entered behind it.
pub proof fn lemma_entries_stay(
    entries: Seq<CachedClassView>,
    namespace: Seq<char>,
    name: Seq<char>,
    i: int,
    later: CachedClassView,
)
    requires
        cached_at(entries, namespace, name, i),
    ensures
        cached_at(entries.push(later), namespace, name, i),
        entries.push(later)[i] == entries[i],
{
    assert forall|j: int| 0 <= j < i implies !((#[trigger] entries.push(later)[j]).namespace
        == namespace && entries.push(later)[j].name == name) by {
        assert(entries.push(later)[j] == entries[j]);
    }
}

} // verus!
