//! The types and traits that most users of the library need.

pub use crate::il2cpp;
pub use crate::il2cpp::class::Il2CppClass;
pub use crate::il2cpp::class::Il2CppClassData;
pub use crate::il2cpp::method::MethodInfo;
pub use crate::il2cpp::method::OptionalMethod;
pub use crate::il2cpp::object::Il2CppArray;
pub use crate::il2cpp::object::Il2CppObject;
pub use crate::system::Il2CppString;
pub use crate::Il2CppError;
pub use crate::Il2CppResult;
