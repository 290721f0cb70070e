//! Classes of the game engine that runs on the runtime.

use vstd::prelude::*;
use crate::Il2CppError;
use crate::Il2CppResult;
use crate::il2cpp::api::Il2CppApi;
use crate::il2cpp::class::Il2CppClass;
use crate::il2cpp::class::Il2CppClassData;
use crate::il2cpp::class::class_resolved;
use crate::il2cpp::method::MethodInfo;
use crate::il2cpp::object::Array;
use crate::il2cpp::object::Il2CppObject;
use crate::il2cpp::object::object_allocated;
use crate::scan::ScanInfo;
use crate::system::call_method;
use crate::system::called;
use crate::system::truth_of;

pub mod ui;

verus! {

/// A pair of coordinates.
#[derive(Debug)]
pub struct Vector2<T> {
    pub x: T,
    pub y: T,
}

impl<T: Copy> Clone for Vector2<T> {
    fn clone(&self) -> (r: Self)
        ensures
            r == *self,
    {
        Vector2 { x: self.x, y: self.y }
    }
}

impl<T: Copy> Copy for Vector2<T> {}

impl<T> Vector2<T> {
    /// The pair of `x` and `y`.
    pub fn new(x: T, y: T) -> (r: Self)
        ensures
            r.x == x,
            r.y == y,
    {
        Self { x, y }
    }
}

/// Three coordinates.
#[derive(Debug)]
pub struct Vector3<T> {
    pub x: T,
    pub y: T,
    pub z: T,
}

impl<T: Copy> Clone for Vector3<T> {
    fn clone(&self) -> (r: Self)
        ensures
            r == *self,
    {
        Vector3 { x: self.x, y: self.y, z: self.z }
    }
}

impl<T: Copy> Copy for Vector3<T> {}

impl<T> Vector3<T> {
    /// The three of `x`, `y` and `z`.
    pub fn new(x: T, y: T, z: T) -> (r: Self)
        ensures
            r.x == x,
            r.y == y,
            r.z == z,
    {
        Self { x, y, z }
    }
}

/// How a texture is sampled between its pixels.
#[derive(Clone, Copy, Debug, PartialEq, Eq, Structural)]
pub enum FilterMode {
    Point,
    Bilinear,
    Trilinear,
}

impl FilterMode {
    /// The number by which the runtime knows the mode.
    pub open spec fn spec_value(&self) -> usize {
        match *self {
            FilterMode::Point => 0usize,
            FilterMode::Bilinear => 1usize,
            FilterMode::Trilinear => 2usize,
        }
    }

    /// The number by which the runtime knows the mode.
    pub fn value(&self) -> (r: usize)
        ensures
            r == self.spec_value(),
    {
        match self {
            FilterMode::Point => 0,
            FilterMode::Bilinear => 1,
            FilterMode::Trilinear => 2,
        }
    }
}

/// How the mesh of a sprite is cut out of its texture.
#[derive(Clone, Copy, Debug, PartialEq, Eq, Structural)]
pub enum SpriteMeshType {
    FullRect,
    Tight,
}

impl SpriteMeshType {
    /// The number by which the runtime knows the type.
    pub open spec fn spec_value(&self) -> usize {
        match *self {
            SpriteMeshType::FullRect => 0usize,
            SpriteMeshType::Tight => 1usize,
        }
    }

    /// The number by which the runtime knows the type.
    pub fn value(&self) -> (r: usize)
        ensures
            r == self.spec_value(),
    {
        match self {
            SpriteMeshType::FullRect => 0,
            SpriteMeshType::Tight => 1,
        }
    }
}

/// The argument word that stands for a 32-bit number: its bits, with zeros
/// above them.
pub fn word_of_i32(value: i32) -> (r: usize)
    ensures
        r == (value as u32) as usize,
{
    #[verifier::truncate]
    let bits: u32 = value as u32;
    bits as usize
}

/// The address that a word holds: `None` for the null address.
pub fn address_of_word(word: usize) -> (r: Option<usize>)
    ensures
        r == if word == 0 {
            None
        } else {
            Some(word)
        },
{
    if word == 0 {
        None
    } else {
        Some(word)
    }
}

/// A call that gives a reference: the address that the call returned, `None`
/// for null, or the failure of the call.
pub fn reference_of(called: Il2CppResult<usize>) -> (r: Il2CppResult<Option<usize>>)
    ensures
        match called {
            Ok(word) => r == Ok::<Option<usize>, Il2CppError>(
                if word == 0 {
                    None
                } else {
                    Some(word)
                },
            ),
            Err(e) => r == Err::<Option<usize>, Il2CppError>(e),
        },
{
    match called {
        Ok(word) => Ok(address_of_word(word)),
        Err(e) => Err(e),
    }
}

/// A material.
#[derive(Clone, Copy, Debug, Default)]
pub struct Material {}

impl Il2CppClassData for Material {
    const NAMESPACE: &'static str = "UnityEngine";

    const CLASS: &'static str = "Material";
}

impl Material {
    /// The address of the shader of the material `this`, if it has one.
    pub fn get_shader<A: Il2CppApi>(api: &A, this: &Il2CppObject<Material>) -> (r: Il2CppResult<
        Option<usize>,
    >)
        ensures
            exists|word: Il2CppResult<usize>|
                {
                    &&& called(
                        api,
                        (ScanInfo {
                            namespace: "UnityEngine",
                            class: "Material",
                            method: "get_shader",
                            forced_arg_count: 0,
                        }),
                        0,
                        seq![this.address],
                        word,
                    )
                    &&& match word {
                        Ok(w) => r == Ok::<Option<usize>, Il2CppError>(
                            if w == 0 {
                                None
                            } else {
                                Some(w)
                            },
                        ),
                        Err(e) => r == Err::<Option<usize>, Il2CppError>(e),
                    }
                },
    {
        let reference = ScanInfo {
            namespace: "UnityEngine",
            class: "Material",
            method: "get_shader",
            forced_arg_count: 0,
        };
        let mut args: Vec<usize> = Vec::new();
        args.push(this.address);
        assert(args@ =~= seq![this.address]);
        reference_of(call_method(api, reference, 0, args.as_slice()))
    }
}

/// A shader.
#[derive(Clone, Copy, Debug, Default)]
pub struct Shader {}

impl Il2CppClassData for Shader {
    const NAMESPACE: &'static str = "UnityEngine";

    const CLASS: &'static str = "Shader";
}

/// A texture of two dimensions.
#[derive(Clone, Copy, Debug, Default)]
pub struct Texture2D {}

impl Il2CppClassData for Texture2D {
    const NAMESPACE: &'static str = "UnityEngine";

    const CLASS: &'static str = "Texture2D";
}

/// What the call of the constructor of two parameters on the new texture
/// `texture` gives for each run of answers of the runtime: the texture, or
/// the failure of the call.
pub open spec fn texture_constructed<A: Il2CppApi>(
    api: &A,
    texture: Il2CppObject<Texture2D>,
    width: i32,
    height: i32,
    r: Il2CppResult<Il2CppObject<Texture2D>>,
) -> bool {
    let args = seq![texture.address, (width as u32) as usize, (height as u32) as usize];
    exists|word: Il2CppResult<usize>|
        {
            &&& #[trigger] called(
                api,
                (ScanInfo {
                    namespace: "UnityEngine",
                    class: "Texture2D",
                    method: ".ctor",
                    forced_arg_count: 0,
                }),
                2,
                args,
                word,
            )
            &&& match word {
                Ok(_) => r == Ok::<Il2CppObject<Texture2D>, Il2CppError>(texture),
                Err(e) => r == Err::<Il2CppObject<Texture2D>, Il2CppError>(e),
            }
        }
}

/// What the making of a texture of the class `class` gives for each run of
/// answers of the runtime: a new object on which the constructor was called,
/// or the failure of the allocation or of the call.
pub open spec fn texture_made<A: Il2CppApi>(
    api: &A,
    class: Il2CppClass,
    width: i32,
    height: i32,
    r: Il2CppResult<Il2CppObject<Texture2D>>,
) -> bool {
    exists|made: Il2CppResult<Il2CppObject<Texture2D>>|
        {
            &&& #[trigger] object_allocated(api, &class, made)
            &&& match made {
                Ok(texture) => texture_constructed(api, texture, width, height, r),
                Err(e) => r == Err::<Il2CppObject<Texture2D>, Il2CppError>(e),
            }
        }
}

impl Texture2D {
    /// A new texture of that width and height: a new object of the class,
    /// on which the constructor of two parameters was called.
    pub fn new<A: Il2CppApi>(api: &A, width: i32, height: i32) -> (r: Il2CppResult<
        Il2CppObject<Texture2D>,
    >)
        ensures
            exists|found: Il2CppResult<Il2CppClass>|
                {
                    &&& #[trigger] class_resolved(api, "UnityEngine", "Texture2D", found)
                    &&& match found {
                        Ok(class) => texture_made(api, class, width, height, r),
                        Err(e) => r == Err::<Il2CppObject<Texture2D>, Il2CppError>(e),
                    }
                },
    {
        let new_texture: Il2CppObject<Texture2D> = match Texture2D::instantiate(api) {
            Ok(texture) => texture,
            Err(e) => {
                return Err(e);
            },
        };
        let reference = ScanInfo {
            namespace: "UnityEngine",
            class: "Texture2D",
            method: ".ctor",
            forced_arg_count: 0,
        };
        let mut args: Vec<usize> = Vec::new();
        args.push(new_texture.address);
        args.push(word_of_i32(width));
        args.push(word_of_i32(height));
        assert(args@ =~= seq![
            new_texture.address,
            (width as u32) as usize,
            (height as u32) as usize,
        ]);
        match call_method(api, reference, 2, args.as_slice()) {
            Ok(_) => Ok(new_texture),
            Err(e) => Err(e),
        }
    }

    /// Sets how the texture `this` is sampled between its pixels.
    pub fn set_filter_mode<A: Il2CppApi>(
        api: &A,
        this: &Il2CppObject<Texture2D>,
        mode: FilterMode,
    ) -> (r: Il2CppResult<usize>)
        ensures
            called(
                api,
                (ScanInfo {
                    namespace: "UnityEngine",
                    class: "Texture",
                    method: "set_filterMode",
                    forced_arg_count: 0,
                }),
                1,
                seq![this.address, mode.spec_value()],
                r,
            ),
    {
        let reference = ScanInfo {
            namespace: "UnityEngine",
            class: "Texture",
            method: "set_filterMode",
            forced_arg_count: 0,
        };
        let mut args: Vec<usize> = Vec::new();
        args.push(this.address);
        args.push(mode.value());
        assert(args@ =~= seq![this.address, mode.spec_value()]);
        call_method(api, reference, 1, args.as_slice())
    }
}

/// A sprite.
#[derive(Clone, Copy, Debug, Default)]
pub struct Sprite {}

impl Il2CppClassData for Sprite {
    const NAMESPACE: &'static str = "UnityEngine";

    const CLASS: &'static str = "Sprite";
}

/// The class that reads pictures into textures.
#[derive(Clone, Copy, Debug, Default)]
pub struct ImageConversion {}

impl Il2CppClassData for ImageConversion {
    const NAMESPACE: &'static str = "UnityEngine";

    const CLASS: &'static str = "ImageConversion";
}

impl ImageConversion {
    /// Reads the picture file that the bytes of `data` are into `texture`.
    /// Whether the runtime could read it.
    pub fn load_image<A: Il2CppApi>(
        api: &A,
        texture: &Il2CppObject<Texture2D>,
        data: &Array<u8>,
    ) -> (r: Il2CppResult<bool>)
        ensures
            exists|word: Il2CppResult<usize>|
                {
                    &&& called(
                        api,
                        (ScanInfo {
                            namespace: "UnityEngine",
                            class: "ImageConversion",
                            method: "LoadImage",
                            forced_arg_count: 0,
                        }),
                        2,
                        seq![texture.address, data.address],
                        word,
                    )
                    &&& match word {
                        Ok(w) => r == Ok::<bool, Il2CppError>(w != 0),
                        Err(e) => r == Err::<bool, Il2CppError>(e),
                    }
                },
    {
        let reference = ScanInfo {
            namespace: "UnityEngine",
            class: "ImageConversion",
            method: "LoadImage",
            forced_arg_count: 0,
        };
        let mut args: Vec<usize> = Vec::new();
        args.push(texture.address);
        args.push(data.address);
        assert(args@ =~= seq![texture.address, data.address]);
        truth_of(call_method(api, reference, 2, args.as_slice()))
    }
}

/// A bundle of assets.
#[derive(Clone, Copy, Debug, Default)]
pub struct AssetBundle {}

impl Il2CppClassData for AssetBundle {
    const NAMESPACE: &'static str = "UnityEngine";

    const CLASS: &'static str = "AssetBundle";
}

impl AssetBundle {
    /// Starts to load a bundle from the bytes of `array`, by a call of the
    /// runtime's internal call of that purpose, and returns the address of
    /// the request. A `crc` of zero skips the check of the checksum. Where
    /// the runtime knows no such internal call, none is made.
    pub fn load_from_memory_async_internal<A: Il2CppApi>(
        api: &A,
        array: &Array<u8>,
        crc: u32,
    ) -> (r: Il2CppResult<usize>)
        ensures
            exists|code: usize|
                {
                    &&& call_ensures(
                        A::method_name,
                        (
                            api,
                            "UnityEngine.AssetBundle::LoadFromMemoryAsync_Internal(System.Byte[],System.UInt32)",
                        ),
                        code,
                    )
                    &&& if code == 0 {
                        r == Err::<usize, Il2CppError>(Il2CppError::MissingMethod)
                    } else {
                        r is Ok && exists|words: &[usize]|
                            words@ == seq![array.address, crc as usize] && #[trigger] call_ensures(
                                A::call,
                                (api, code, words, None::<&MethodInfo>),
                                r->Ok_0,
                            )
                    }
                },
    {
        let code: usize = crate::il2cpp::method_from_name(
            api,
            "UnityEngine.AssetBundle::LoadFromMemoryAsync_Internal(System.Byte[],System.UInt32)",
        );
        if code == 0 {
            return Err(Il2CppError::MissingMethod);
        }
        let mut args: Vec<usize> = Vec::new();
        args.push(array.address);
        args.push(crc as usize);
        assert(args@ =~= seq![array.address, crc as usize]);
        let word: usize = api.call(code, args.as_slice(), None);
        proof {
            assert(Ok::<usize, Il2CppError>(word)->Ok_0 == word);
        }
        Ok(word)
    }
}

} // verus!
