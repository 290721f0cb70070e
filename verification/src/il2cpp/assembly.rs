//! Loaded modules.

use vstd::prelude::*;
use crate::cppvector::CppVector;
use crate::il2cpp::api::Il2CppApi;

verus! {

/// The image of a loaded module: the table in which the runtime looks up the
/// module's classes.
#[derive(Debug)]
pub struct Il2CppImage {
    /// Where the image lies in the runtime's memory.
    pub address: usize,
    pub name: String,
    pub name_no_ext: String,
    /// The address of the assembly that the image belongs to.
    pub assembly: usize,
}

impl Il2CppImage {
    /// The file name of the module.
    pub fn get_name(&self) -> (r: String)
        ensures
            r == self.name,
    {
        self.name.clone()
    }
}

/// A module that the runtime has loaded.
#[derive(Debug)]
pub struct Il2CppAssembly {
    pub image: Il2CppImage,
    pub token: u32,
    pub referenced_assembly_start: i32,
    pub referenced_assembly_count: i32,
}

/// The loaded modules, in the order in which the runtime registered them.
pub fn get_assemblies<A: Il2CppApi>(api: &A) -> (r: CppVector<Il2CppAssembly>)
    ensures
        call_ensures(A::assembly_getallassemblies, (api,), r),
{
    api.assembly_getallassemblies()
}

} // verus!
