//! CPU-side textures and materials, before upload.

use vstd::prelude::*;

verus! {

/// Decoded RGBA8 pixel data: four bytes per pixel, row-major.
#[derive(Debug, Clone)]
pub struct Texture {
    pub data: Vec<u8>,
    pub width: u32,
    pub height: u32,
}

impl Texture {
    /// The pixel buffer holds exactly width x height RGBA pixels.
    pub open spec fn wf(self) -> bool {
        self.data@.len() == 4 * (self.width as int) * (self.height as int)
    }
}

/// Copy a byte buffer; the copy holds the same bytes.
pub fn clone_bytes(v: &Vec<u8>) -> (r: Vec<u8>)
    ensures
        r@ == v@,
{
    let r: Vec<u8> = v.clone();
    proof {
        assert forall|i: int| 0 <= i < v@.len() implies r@[i] == v@[i] by {
            assert(vstd::pervasive::cloned::<u8>(v[i], r[i]));
        }
        assert(r@ =~= v@);
    }
    r
}

/// Copy a texture; the copy holds the same pixels and extent.
pub fn clone_texture(t: &Texture) -> (r: Texture)
    ensures
        r.data@ == t.data@,
        r.width == t.width,
        r.height == t.height,
{
    Texture { data: clone_bytes(&t.data), width: t.width, height: t.height }
}

/// A material: up to five optional texture slots.
#[derive(Debug, Clone)]
pub struct Material {
    pub base_color_texture: Option<Texture>,
    pub normal_texture: Option<Texture>,
    pub metallic_roughness_texture: Option<Texture>,
    pub ambient_occlusion_texture: Option<Texture>,
    pub emissive_texture: Option<Texture>,
}

/// Two textures hold the same pixels and extent.
pub open spec fn texture_eq(a: Texture, b: Texture) -> bool {
    a.data@ == b.data@ && a.width == b.width && a.height == b.height
}

/// Two optional texture slots are both empty or hold equal textures.
pub open spec fn slot_eq(a: Option<Texture>, b: Option<Texture>) -> bool {
    match (a, b) {
        (Option::None, Option::None) => true,
        (Option::Some(x), Option::Some(y)) => texture_eq(x, y),
        _ => false,
    }
}

/// Two materials agree slot by slot.
pub open spec fn material_eq(a: Material, b: Material) -> bool {
    &&& slot_eq(a.base_color_texture, b.base_color_texture)
    &&& slot_eq(a.normal_texture, b.normal_texture)
    &&& slot_eq(a.metallic_roughness_texture, b.metallic_roughness_texture)
    &&& slot_eq(a.ambient_occlusion_texture, b.ambient_occlusion_texture)
    &&& slot_eq(a.emissive_texture, b.emissive_texture)
}

impl Material {
    /// Every present slot holds a well-formed texture.
    pub open spec fn wf(self) -> bool {
        &&& (self.base_color_texture matches Option::Some(t) ==> t.wf())
        &&& (self.normal_texture matches Option::Some(t) ==> t.wf())
        &&& (self.metallic_roughness_texture matches Option::Some(t) ==> t.wf())
        &&& (self.ambient_occlusion_texture matches Option::Some(t) ==> t.wf())
        &&& (self.emissive_texture matches Option::Some(t) ==> t.wf())
    }

    /// The material with every slot empty.
    pub fn empty() -> (r: Material)
        ensures
            r.base_color_texture is None,
            r.normal_texture is None,
            r.metallic_roughness_texture is None,
            r.ambient_occlusion_texture is None,
            r.emissive_texture is None,
            r.wf(),
    {
        Material {
            base_color_texture: None,
            normal_texture: None,
            metallic_roughness_texture: None,
            ambient_occlusion_texture: None,
            emissive_texture: None,
        }
    }

    /// Copy a material slot by slot.
    pub fn duplicate(&self) -> (r: Material)
        ensures
            material_eq(*self, r),
            self.wf() ==> r.wf(),
    {
        Material {
            base_color_texture: clone_slot(&self.base_color_texture),
            normal_texture: clone_slot(&self.normal_texture),
            metallic_roughness_texture: clone_slot(&self.metallic_roughness_texture),
            ambient_occlusion_texture: clone_slot(&self.ambient_occlusion_texture),
            emissive_texture: clone_slot(&self.emissive_texture),
        }
    }
}

fn clone_slot(s: &Option<Texture>) -> (r: Option<Texture>)
    ensures
        slot_eq(*s, r),
{
    match s {
        None => None,
        Some(t) => Some(clone_texture(t)),
    }
}

} // verus!
