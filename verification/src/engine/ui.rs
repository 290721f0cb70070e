//! Classes of the engine's user interface.

use vstd::prelude::*;
use crate::Il2CppError;
use crate::Il2CppResult;
use crate::engine::reference_of;
use crate::il2cpp::api::Il2CppApi;
use crate::il2cpp::class::Il2CppClass;
use crate::il2cpp::class::Il2CppClassData;
use crate::il2cpp::class::VirtualInvoke;
use crate::il2cpp::class::first_slot_named;
use crate::il2cpp::class::no_slot_named;
use crate::il2cpp::object::Il2CppObject;
use crate::scan::ScanInfo;
use crate::system::call_method;
use crate::system::called;

verus! {

/// The fields of an image of the user interface: the addresses of its sprite
/// and of the sprite that overrides it.
#[derive(Clone, Copy, Debug, Default)]
pub struct Image {
    pub sprite: usize,
    pub override_sprite: usize,
}

impl Il2CppClassData for Image {
    const NAMESPACE: &'static str = "UnityEngine.UI";

    const CLASS: &'static str = "Image";
}

impl Image {
    /// The address of the material that graphics have where none is set.
    pub fn get_default_graphic_material<A: Il2CppApi>(api: &A) -> (r: Il2CppResult<Option<usize>>)
        ensures
            exists|word: Il2CppResult<usize>|
                {
                    &&& called(
                        api,
                        (ScanInfo {
                            namespace: "UnityEngine.UI",
                            class: "Image",
                            method: "get_defaultGraphicMaterial",
                            forced_arg_count: 0,
                        }),
                        0,
                        Seq::<usize>::empty(),
                        word,
                    )
                    &&& match word {
                        Ok(w) => r == Ok::<Option<usize>, Il2CppError>(
                            if w == 0 {
                                None
                            } else {
                                Some(w)
                            },
                        ),
                        Err(e) => r == Err::<Option<usize>, Il2CppError>(e),
                    }
                },
    {
        let reference = ScanInfo {
            namespace: "UnityEngine.UI",
            class: "Image",
            method: "get_defaultGraphicMaterial",
            forced_arg_count: 0,
        };
        let args: Vec<usize> = Vec::new();
        reference_of(call_method(api, reference, 0, args.as_slice()))
    }

    /// The slot through which the colour of the image `this` is set: the
    /// setter may be overridden by the class of the image, so it is looked
    /// up by its name in the virtual-method table of that class.
    pub fn color_setter(this: &Il2CppObject<Image>) -> (r: Option<&VirtualInvoke>)
        ensures
            match r {
                Some(slot) => exists|i: int|
                    first_slot_named(this.klass.vtable@, "set_color"@, i) && *slot
                        == this.klass.vtable@[i],
                None => no_slot_named(
                    this.klass.vtable@,
                    "set_color"@,
                    this.klass.vtable@.len() as int,
                ),
            },
    {
        this.klass.get_virtual_method("set_color")
    }
}

/// What is an image of the user interface, or inherits from one.
pub trait IsImage {
    /// Where the image lies in the runtime's memory.
    fn address(&self) -> usize;

    /// Sets the sprite of the image to the one at `sprite`.
    fn set_sprite<A: Il2CppApi>(&self, api: &A, sprite: usize) -> (r: Il2CppResult<usize>)
        ensures
            exists|address: usize|
                {
                    &&& call_ensures(Self::address, (self,), address)
                    &&& called(
                        api,
                        (ScanInfo {
                            namespace: "UnityEngine.UI",
                            class: "Image",
                            method: "set_sprite",
                            forced_arg_count: 0,
                        }),
                        1,
                        seq![address, sprite],
                        r,
                    )
                },
    {
        let reference = ScanInfo {
            namespace: "UnityEngine.UI",
            class: "Image",
            method: "set_sprite",
            forced_arg_count: 0,
        };
        let address: usize = self.address();
        let mut args: Vec<usize> = Vec::new();
        args.push(address);
        args.push(sprite);
        assert(args@ =~= seq![address, sprite]);
        call_method(api, reference, 1, args.as_slice())
    }
}

impl IsImage for Il2CppObject<Image> {
    fn address(&self) -> (r: usize)
        ensures
            r == self.address,
    {
        self.address
    }
}

} // verus!
