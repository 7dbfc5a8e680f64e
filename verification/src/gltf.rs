//! Importer for glTF scene-graph assets.
//!
//! The platform layer parses the asset file and its binary buffers into the
//! plain document model below, and reads the texture files the document
//! references; everything after that — validation, vertex assembly,
//! tangent-space reconstruction, texture path resolution and decoding — is
//! verified here. Import never yields a partial result: the first error
//! aborts the whole call.

use vstd::prelude::*;
use vstd::pervasive::VecAdditionalExecFns;
use vstd::string::{StringExecFns, StringSliceAdditionalSpecFns};
use crate::error::Error;
use crate::fixed::{fx_div, fx_mul, fx_sub, sat64, spec_fx_div, spec_fx_mul, spec_fx_sub, FX_ONE};
use crate::material::{Material, Texture};
use crate::mesh::{copy_u32s, MeshData, SubMeshData};
use crate::vec3::{
    spec_v3_add, spec_v3_cross, spec_v3_normalize, spec_v3_scale, spec_v3_sub, v3_add, v3_cross,
    v3_normalize, v3_scale, v3_sub, Vec3Fx,
};
use crate::vertex::{spec_zero_vertex, TexCoord, VertexPosNorTexTanBi};

verus! {

/// A source tangent: the vector and the handedness sign `w`.
#[derive(Debug, Clone, Copy, PartialEq, Eq, Structural)]
pub struct TangentW {
    pub xyz: Vec3Fx,
    pub w: i64,
}

/// One primitive of a mesh, as plain attribute arrays.
#[derive(Debug)]
pub struct GltfPrimitive {
    pub positions: Option<Vec<Vec3Fx>>,
    pub normals: Option<Vec<Vec3Fx>>,
    pub tex_coords: Option<Vec<TexCoord>>,
    pub tangents: Option<Vec<TangentW>>,
    pub indices: Option<Vec<u32>>,
}

/// Where a material slot's image comes from: an external file named by a
/// URI, or an embedded source this importer does not support.
#[derive(Debug)]
pub enum TextureSource {
    Uri(String),
    Embedded,
}

/// The five texture slots a source material may reference.
#[derive(Debug)]
pub struct GltfMaterial {
    pub base_color: Option<TextureSource>,
    pub normal: Option<TextureSource>,
    pub metallic_roughness: Option<TextureSource>,
    pub occlusion: Option<TextureSource>,
    pub emissive: Option<TextureSource>,
}

/// A mesh: its material (if the document has one for it) and primitives.
#[derive(Debug)]
pub struct GltfMesh {
    pub material: Option<GltfMaterial>,
    pub primitives: Vec<GltfPrimitive>,
}

/// A scene-graph node; only nodes carrying a mesh contribute to the import.
#[derive(Debug)]
pub struct GltfNode {
    pub mesh: Option<GltfMesh>,
}

/// A parsed asset document: its nodes, in document order.
#[derive(Debug)]
pub struct GltfDocument {
    pub nodes: Vec<GltfNode>,
}

/// One texture file the caller read from disk, keyed by its resolved path.
#[derive(Debug)]
pub struct TextureFile {
    pub path: String,
    pub bytes: Vec<u8>,
}

/// The texture files available to an import call.
#[derive(Debug)]
pub struct TextureStore {
    pub files: Vec<TextureFile>,
}

/// The error type of the image decoder.
#[verifier::external_type_specification]
#[verifier::external_body]
pub struct ExImageError(image::ImageError);

/// What the image decoder yields for a byte stream: `None` when the stream
/// cannot be decoded, otherwise the RGBA8 pixels with their width and
/// height. Decoding is a function of the bytes alone.
pub uninterp spec fn decoded_rgba(bytes: Seq<u8>) -> Option<(Seq<u8>, int, int)>;

/// Relies on image::load_from_memory and DynamicImage::to_rgba8: the decode
/// depends on the bytes alone, and the raw RGBA8 buffer of a decoded image
/// holds exactly width x height four-byte pixels.
#[verifier::external_body]
fn decode_rgba(bytes: &Vec<u8>) -> (r: Result<Texture, image::ImageError>)
    ensures
        match r {
            Ok(t) => decoded_rgba(bytes@) == Some((t.data@, t.width as int, t.height as int))
                && t.data@.len() == 4 * (t.width as int) * (t.height as int),
            Err(_) => decoded_rgba(bytes@) is None,
        },
{
    let decoded = image::load_from_memory(bytes)?;
    let rgba = decoded.to_rgba8();
    let width = rgba.width();
    let height = rgba.height();
    Ok(Texture { data: rgba.into_raw(), width, height })
}

/// Decode one texture byte stream; an undecodable stream is a
/// `DecodeError`.
pub fn load_texture(bytes: &Vec<u8>) -> (r: Result<Texture, Error>)
    ensures
        match r {
            Ok(t) => decoded_rgba(bytes@) == Some((t.data@, t.width as int, t.height as int))
                && t.wf(),
            Err(e) => e == Error::DecodeError && decoded_rgba(bytes@) is None,
        },
{
    match decode_rgba(bytes) {
        Ok(t) => Ok(t),
        Err(_) => Err(Error::DecodeError),
    }
}

/// A texture URI resolved against the asset's parent directory.
pub open spec fn spec_resolved_path(dir: Seq<char>, uri: Seq<char>) -> Seq<char> {
    dir + seq!['/'] + uri
}

pub fn resolve_texture_path(dir: &str, uri: &str) -> (r: String)
    ensures
        r@ == spec_resolved_path(dir@, uri@),
{
    let mut s: String = dir.to_owned();
    s.append("/");
    s.append(uri);
    proof {
        reveal_strlit("/");
        assert(s@ =~= spec_resolved_path(dir@, uri@));
    }
    s
}

/// The bytes of the first file recorded under `path`, if any.
pub open spec fn spec_store_lookup(files: Seq<TextureFile>, path: Seq<char>) -> Option<Seq<u8>>
    decreases files.len(),
{
    if files.len() == 0 {
        None
    } else if files[0].path@ == path {
        Some(files[0].bytes@)
    } else {
        spec_store_lookup(files.skip(1), path)
    }
}

impl TextureStore {
    /// Find the bytes recorded under a resolved path.
    pub fn lookup(&self, path: &String) -> (r: Option<&Vec<u8>>)
        ensures
            match r {
                Some(b) => spec_store_lookup(self.files@, path@) == Some(b@),
                None => spec_store_lookup(self.files@, path@) is None,
            },
    {
        let n: usize = self.files.len();
        proof {
            assert(self.files@.skip(0) =~= self.files@);
        }
        for i in 0..n
            invariant
                n == self.files@.len(),
                spec_store_lookup(self.files@, path@) == spec_store_lookup(
                    self.files@.skip(i as int),
                    path@,
                ),
        {
            proof {
                assert(self.files@.skip(i as int)[0] == self.files@[i as int]);
            }
            if self.files[i].path.eq(path) {
                return Some(&self.files[i].bytes);
            }
            proof {
                assert(self.files@.skip(i as int).skip(1) =~= self.files@.skip(i as int + 1));
            }
        }
        None
    }
}

/// What loading one material slot yields: no texture, decoded pixels, or
/// the error for that slot.
pub open spec fn spec_slot_outcome(
    src: Option<TextureSource>,
    dir: Seq<char>,
    files: Seq<TextureFile>,
) -> Result<Option<(Seq<u8>, int, int)>, Error> {
    match src {
        Option::None => Ok(None),
        Option::Some(TextureSource::Embedded) => Err(Error::TextureSourceUnsupported),
        Option::Some(TextureSource::Uri(u)) => {
            match spec_store_lookup(files, spec_resolved_path(dir, u@)) {
                Option::None => Err(Error::TextureLoadError),
                Option::Some(bytes) => match decoded_rgba(bytes) {
                    Option::None => Err(Error::DecodeError),
                    Option::Some(t) => Ok(Some(t)),
                },
            }
        },
    }
}

/// A loaded slot agrees with its specified outcome.
pub open spec fn spec_slot_ok(
    slot: Option<Texture>,
    out: Result<Option<(Seq<u8>, int, int)>, Error>,
) -> bool {
    match out {
        Result::Err(_) => false,
        Result::Ok(o) => match (slot, o) {
            (Option::None, Option::None) => true,
            (Option::Some(t), Option::Some(p)) => t.data@ == p.0 && t.width as int == p.1
                && t.height as int == p.2 && t.wf(),
            _ => false,
        },
    }
}

/// Resolve and decode one material slot.
fn load_slot(src: &Option<TextureSource>, dir: &str, files: &TextureStore) -> (r: Result<
    Option<Texture>,
    Error,
>)
    ensures
        match r {
            Ok(slot) => spec_slot_ok(slot, spec_slot_outcome(*src, dir@, files.files@)),
            Err(e) => spec_slot_outcome(*src, dir@, files.files@) == Err::<
                Option<(Seq<u8>, int, int)>,
                Error,
            >(e),
        },
{
    match src {
        None => Ok(None),
        Some(TextureSource::Embedded) => Err(Error::TextureSourceUnsupported),
        Some(TextureSource::Uri(u)) => {
            let path: String = resolve_texture_path(dir, u.as_str());
            match files.lookup(&path) {
                None => Err(Error::TextureLoadError),
                Some(bytes) => match load_texture(bytes) {
                    Ok(t) => Ok(Some(t)),
                    Err(e) => Err(e),
                },
            }
        },
    }
}

/// The first error among a material's five slots, in slot order.
pub open spec fn spec_material_error(
    gm: GltfMaterial,
    dir: Seq<char>,
    files: Seq<TextureFile>,
) -> Option<Error> {
    match spec_slot_outcome(gm.base_color, dir, files) {
        Result::Err(e) => Some(e),
        Result::Ok(_) => match spec_slot_outcome(gm.normal, dir, files) {
            Result::Err(e) => Some(e),
            Result::Ok(_) => match spec_slot_outcome(gm.metallic_roughness, dir, files) {
                Result::Err(e) => Some(e),
                Result::Ok(_) => match spec_slot_outcome(gm.occlusion, dir, files) {
                    Result::Err(e) => Some(e),
                    Result::Ok(_) => match spec_slot_outcome(gm.emissive, dir, files) {
                        Result::Err(e) => Some(e),
                        Result::Ok(_) => None,
                    },
                },
            },
        },
    }
}

/// A built material agrees, slot by slot, with the source material's
/// specified outcomes.
pub open spec fn spec_material_ok(
    m: Material,
    gm: Option<GltfMaterial>,
    dir: Seq<char>,
    files: Seq<TextureFile>,
) -> bool {
    match gm {
        Option::None => {
            &&& m.base_color_texture is None
            &&& m.normal_texture is None
            &&& m.metallic_roughness_texture is None
            &&& m.ambient_occlusion_texture is None
            &&& m.emissive_texture is None
        },
        Option::Some(g) => {
            &&& spec_slot_ok(m.base_color_texture, spec_slot_outcome(g.base_color, dir, files))
            &&& spec_slot_ok(m.normal_texture, spec_slot_outcome(g.normal, dir, files))
            &&& spec_slot_ok(
                m.metallic_roughness_texture,
                spec_slot_outcome(g.metallic_roughness, dir, files),
            )
            &&& spec_slot_ok(
                m.ambient_occlusion_texture,
                spec_slot_outcome(g.occlusion, dir, files),
            )
            &&& spec_slot_ok(m.emissive_texture, spec_slot_outcome(g.emissive, dir, files))
        },
    }
}

/// Resolve and decode all five slots of a source material, in slot order;
/// the first failing slot aborts.
fn load_material(gm: &GltfMaterial, dir: &str, files: &TextureStore) -> (r: Result<
    Material,
    Error,
>)
    ensures
        match r {
            Ok(m) => spec_material_error(*gm, dir@, files.files@) is None && spec_material_ok(
                m,
                Some(*gm),
                dir@,
                files.files@,
            ) && m.wf(),
            Err(e) => spec_material_error(*gm, dir@, files.files@) == Some(e),
        },
{
    let base_color_texture: Option<Texture> = match load_slot(&gm.base_color, dir, files) {
        Ok(s) => s,
        Err(e) => {
            return Err(e);
        },
    };
    let normal_texture: Option<Texture> = match load_slot(&gm.normal, dir, files) {
        Ok(s) => s,
        Err(e) => {
            return Err(e);
        },
    };
    let metallic_roughness_texture: Option<Texture> = match load_slot(
        &gm.metallic_roughness,
        dir,
        files,
    ) {
        Ok(s) => s,
        Err(e) => {
            return Err(e);
        },
    };
    let ambient_occlusion_texture: Option<Texture> = match load_slot(&gm.occlusion, dir, files) {
        Ok(s) => s,
        Err(e) => {
            return Err(e);
        },
    };
    let emissive_texture: Option<Texture> = match load_slot(&gm.emissive, dir, files) {
        Ok(s) => s,
        Err(e) => {
            return Err(e);
        },
    };
    Ok(Material {
        base_color_texture,
        normal_texture,
        metallic_roughness_texture,
        ambient_occlusion_texture,
        emissive_texture,
    })
}

/// The vertex assembled from a primitive's attribute arrays at index `i`:
/// the position always comes from the source; normal, UV and tangent are
/// filled where the matching array reaches `i` and stay zero otherwise. A
/// source tangent's bitangent is `cross(normal, tangent) * w`.
pub open spec fn spec_assembled_vertex(prim: GltfPrimitive, i: int) -> VertexPosNorTexTanBi {
    match prim.positions {
        Option::None => spec_zero_vertex(),
        Option::Some(ps) => {
            let normal = match prim.normals {
                Option::Some(ns) => if i < ns@.len() {
                    ns@[i]
                } else {
                    Vec3Fx { x: 0, y: 0, z: 0 }
                },
                Option::None => Vec3Fx { x: 0, y: 0, z: 0 },
            };
            let uv = match prim.tex_coords {
                Option::Some(ts) => if i < ts@.len() {
                    ts@[i]
                } else {
                    TexCoord { u: 0, v: 0 }
                },
                Option::None => TexCoord { u: 0, v: 0 },
            };
            let tb = match prim.tangents {
                Option::Some(tw) => if i < tw@.len() {
                    (
                        tw@[i].xyz,
                        spec_v3_scale(spec_v3_cross(normal, tw@[i].xyz), tw@[i].w as int),
                    )
                } else {
                    (Vec3Fx { x: 0, y: 0, z: 0 }, Vec3Fx { x: 0, y: 0, z: 0 })
                },
                Option::None => (Vec3Fx { x: 0, y: 0, z: 0 }, Vec3Fx { x: 0, y: 0, z: 0 }),
            };
            VertexPosNorTexTanBi {
                position: ps@[i],
                normal,
                tex_coord: uv,
                tangent: tb.0,
                bitangent: tb.1,
            }
        },
    }
}

/// All vertices assembled from a primitive, in source order.
pub open spec fn spec_assembled(prim: GltfPrimitive) -> Seq<VertexPosNorTexTanBi> {
    match prim.positions {
        Option::None => Seq::empty(),
        Option::Some(ps) => Seq::new(ps@.len(), |i: int| spec_assembled_vertex(prim, i)),
    }
}

fn assemble_vertices(prim: &GltfPrimitive) -> (r: Vec<VertexPosNorTexTanBi>)
    requires
        prim.positions is Some,
    ensures
        r@ == spec_assembled(*prim),
{
    let positions: &Vec<Vec3Fx> = match &prim.positions {
        Some(ps) => ps,
        None => unreached(),
    };
    let n: usize = positions.len();
    let mut out: Vec<VertexPosNorTexTanBi> = Vec::new();
    for i in 0..n
        invariant
            n == positions@.len(),
            prim.positions == Some(*positions),
            out@.len() == i,
            forall|j: int| 0 <= j < i ==> out@[j] == spec_assembled_vertex(*prim, j),
    {
        let normal: Vec3Fx = match &prim.normals {
            Some(ns) => if i < ns.len() {
                ns[i]
            } else {
                Vec3Fx { x: 0, y: 0, z: 0 }
            },
            None => Vec3Fx { x: 0, y: 0, z: 0 },
        };
        let uv: TexCoord = match &prim.tex_coords {
            Some(ts) => if i < ts.len() {
                ts[i]
            } else {
                TexCoord { u: 0, v: 0 }
            },
            None => TexCoord { u: 0, v: 0 },
        };
        let mut tangent: Vec3Fx = Vec3Fx { x: 0, y: 0, z: 0 };
        let mut bitangent: Vec3Fx = Vec3Fx { x: 0, y: 0, z: 0 };
        match &prim.tangents {
            Some(tw) => if i < tw.len() {
                let t: TangentW = tw[i];
                tangent = t.xyz;
                bitangent = v3_scale(v3_cross(normal, t.xyz), t.w);
            },
            None => {},
        }
        out.push(VertexPosNorTexTanBi {
            position: positions[i],
            normal,
            tex_coord: uv,
            tangent,
            bitangent,
        });
    }
    proof {
        assert(out@ =~= spec_assembled(*prim));
    }
    out
}

/// A vertex with one triangle's tangent and bitangent added in.
pub open spec fn spec_acc_vertex(
    v: VertexPosNorTexTanBi,
    t: Vec3Fx,
    b: Vec3Fx,
) -> VertexPosNorTexTanBi {
    VertexPosNorTexTanBi {
        tangent: spec_v3_add(v.tangent, t),
        bitangent: spec_v3_add(v.bitangent, b),
        ..v
    }
}

/// One triangle's contribution to the tangent accumulation. The 2x2 UV
/// system is solved by `r = 1 / (du1.x * du2.y - du1.y * du2.x)`; a
/// triangle whose UV determinant is zero contributes nothing. Updates are
/// applied vertex by vertex, so a triangle that repeats an index
/// accumulates into it repeatedly.
pub open spec fn spec_accum_tri(
    vs: Seq<VertexPosNorTexTanBi>,
    counts: Seq<u64>,
    i0: int,
    i1: int,
    i2: int,
) -> (Seq<VertexPosNorTexTanBi>, Seq<u64>)
    recommends
        0 <= i0 < vs.len(),
        0 <= i1 < vs.len(),
        0 <= i2 < vs.len(),
        counts.len() == vs.len(),
{
    let v0 = vs[i0];
    let v1 = vs[i1];
    let v2 = vs[i2];
    let dp1 = spec_v3_sub(v1.position, v0.position);
    let dp2 = spec_v3_sub(v2.position, v0.position);
    let du1x = spec_fx_sub(v1.tex_coord.u as int, v0.tex_coord.u as int);
    let du1y = spec_fx_sub(v1.tex_coord.v as int, v0.tex_coord.v as int);
    let du2x = spec_fx_sub(v2.tex_coord.u as int, v0.tex_coord.u as int);
    let du2y = spec_fx_sub(v2.tex_coord.v as int, v0.tex_coord.v as int);
    let denom = spec_fx_sub(spec_fx_mul(du1x, du2y), spec_fx_mul(du1y, du2x));
    if denom == 0 {
        (vs, counts)
    } else {
        let r = spec_fx_div(FX_ONE as int, denom);
        let tangent = spec_v3_scale(
            spec_v3_sub(spec_v3_scale(dp1, du2y), spec_v3_scale(dp2, du1y)),
            r,
        );
        let bitangent = spec_v3_scale(
            spec_v3_sub(spec_v3_scale(dp2, du1x), spec_v3_scale(dp1, du2x)),
            r,
        );
        let vs1 = vs.update(i0, spec_acc_vertex(vs[i0], tangent, bitangent));
        let vs2 = vs1.update(i1, spec_acc_vertex(vs1[i1], tangent, bitangent));
        let vs3 = vs2.update(i2, spec_acc_vertex(vs2[i2], tangent, bitangent));
        let c1 = counts.update(i0, (counts[i0] + 1) as u64);
        let c2 = c1.update(i1, (c1[i1] + 1) as u64);
        let c3 = c2.update(i2, (c2[i2] + 1) as u64);
        (vs3, c3)
    }
}

/// The accumulation state after the first `t` triangles of the index list.
pub open spec fn spec_accum(
    vs: Seq<VertexPosNorTexTanBi>,
    counts: Seq<u64>,
    indices: Seq<u32>,
    t: int,
) -> (Seq<VertexPosNorTexTanBi>, Seq<u64>)
    decreases t,
{
    if t <= 0 {
        (vs, counts)
    } else {
        let prev = spec_accum(vs, counts, indices, t - 1);
        spec_accum_tri(
            prev.0,
            prev.1,
            indices[3 * (t - 1)] as int,
            indices[3 * (t - 1) + 1] as int,
            indices[3 * (t - 1) + 2] as int,
        )
    }
}

/// A triangle count as a Q47.16 divisor.
pub open spec fn spec_count_fx(n: u64) -> int {
    sat64((n as int) * 65536)
}

/// A vertex after averaging: accumulated tangent and bitangent divided by
/// the triangle count and normalized. A vertex no triangle touched is left
/// as accumulated.
pub open spec fn spec_finalized_vertex(v: VertexPosNorTexTanBi, n: u64) -> VertexPosNorTexTanBi {
    if n == 0 {
        v
    } else {
        let d = spec_count_fx(n);
        VertexPosNorTexTanBi {
            tangent: spec_v3_normalize(
                Vec3Fx {
                    x: spec_fx_div(v.tangent.x as int, d) as i64,
                    y: spec_fx_div(v.tangent.y as int, d) as i64,
                    z: spec_fx_div(v.tangent.z as int, d) as i64,
                },
            ),
            bitangent: spec_v3_normalize(
                Vec3Fx {
                    x: spec_fx_div(v.bitangent.x as int, d) as i64,
                    y: spec_fx_div(v.bitangent.y as int, d) as i64,
                    z: spec_fx_div(v.bitangent.z as int, d) as i64,
                },
            ),
            ..v
        }
    }
}

/// The averaged-tangent reconstruction: accumulate every triangle's tangent
/// and bitangent into its three vertices, then average and normalize per
/// vertex.
pub open spec fn spec_reconstructed(
    vs0: Seq<VertexPosNorTexTanBi>,
    indices: Seq<u32>,
) -> Seq<VertexPosNorTexTanBi> {
    let zeros = Seq::new(vs0.len(), |i: int| 0u64);
    let acc = spec_accum(vs0, zeros, indices, indices.len() as int / 3);
    Seq::new(vs0.len(), |i: int| spec_finalized_vertex(acc.0[i], acc.1[i]))
}

fn count_to_fx(n: u64) -> (r: i64)
    ensures
        r as int == spec_count_fx(n),
{
    let v: u128 = (n as u128) * 65536u128;
    if v > 0x7FFFFFFFFFFFFFFFu128 {
        i64::MAX
    } else {
        v as i64
    }
}

/// Reconstruct tangent space for vertices that came without source
/// tangents.
#[verifier::rlimit(100)]
fn reconstruct_tangents(vertices: &mut Vec<VertexPosNorTexTanBi>, indices: &Vec<u32>)
    requires
        indices@.len() % 3 == 0,
        forall|i: int|
            0 <= i < indices@.len() ==> (indices@[i] as int) < old(vertices)@.len(),
    ensures
        final(vertices)@ == spec_reconstructed(old(vertices)@, indices@),
{
    let ghost vs0 = vertices@;
    let n: usize = vertices.len();
    let mut counts: Vec<u64> = Vec::new();
    for k in 0..n
        invariant
            counts@.len() == k,
            forall|j: int| 0 <= j < k ==> counts@[j] == 0u64,
    {
        counts.push(0u64);
    }
    let ghost zeros = Seq::new(vs0.len(), |i: int| 0u64);
    proof {
        assert(counts@ =~= zeros);
    }
    let ilen: usize = indices.len();
    let tri_total: usize = ilen / 3;
    proof {
        vstd::arithmetic::div_mod::lemma_fundamental_div_mod(ilen as int, 3);
    }
    for t in 0..tri_total
        invariant
            vs0.len() == n,
            indices@.len() == ilen,
            ilen as int == 3 * tri_total,
            forall|i: int| 0 <= i < indices@.len() ==> (indices@[i] as int) < n as int,
            vertices@ == spec_accum(vs0, zeros, indices@, t as int).0,
            counts@ == spec_accum(vs0, zeros, indices@, t as int).1,
            vertices@.len() == n,
            counts@.len() == n,
            forall|j: int| 0 <= j < n ==> counts@[j] as int <= 3 * (t as int),
    {
        proof {
            assert(3 * (t as int) + 2 < indices@.len());
        }
        let c0: usize = indices[3 * t] as usize;
        let c1: usize = indices[3 * t + 1] as usize;
        let c2: usize = indices[3 * t + 2] as usize;
        let v0: VertexPosNorTexTanBi = vertices[c0];
        let v1: VertexPosNorTexTanBi = vertices[c1];
        let v2: VertexPosNorTexTanBi = vertices[c2];
        let dp1: Vec3Fx = v3_sub(v1.position, v0.position);
        let dp2: Vec3Fx = v3_sub(v2.position, v0.position);
        let du1x: i64 = fx_sub(v1.tex_coord.u, v0.tex_coord.u);
        let du1y: i64 = fx_sub(v1.tex_coord.v, v0.tex_coord.v);
        let du2x: i64 = fx_sub(v2.tex_coord.u, v0.tex_coord.u);
        let du2y: i64 = fx_sub(v2.tex_coord.v, v0.tex_coord.v);
        let denom: i64 = fx_sub(fx_mul(du1x, du2y), fx_mul(du1y, du2x));
        if denom != 0 {
            let r: i64 = fx_div(FX_ONE, denom);
            let tangent: Vec3Fx = v3_scale(v3_sub(v3_scale(dp1, du2y), v3_scale(dp2, du1y)), r);
            let bitangent: Vec3Fx = v3_scale(v3_sub(v3_scale(dp2, du1x), v3_scale(dp1, du2x)), r);
            let va: VertexPosNorTexTanBi = vertices[c0];
            vertices.set(c0, VertexPosNorTexTanBi {
                tangent: v3_add(va.tangent, tangent),
                bitangent: v3_add(va.bitangent, bitangent),
                ..va
            });
            let vb: VertexPosNorTexTanBi = vertices[c1];
            vertices.set(c1, VertexPosNorTexTanBi {
                tangent: v3_add(vb.tangent, tangent),
                bitangent: v3_add(vb.bitangent, bitangent),
                ..vb
            });
            let vc: VertexPosNorTexTanBi = vertices[c2];
            vertices.set(c2, VertexPosNorTexTanBi {
                tangent: v3_add(vc.tangent, tangent),
                bitangent: v3_add(vc.bitangent, bitangent),
                ..vc
            });
            let ka: u64 = counts[c0];
            counts.set(c0, ka + 1);
            let kb: u64 = counts[c1];
            counts.set(c1, kb + 1);
            let kc: u64 = counts[c2];
            counts.set(c2, kc + 1);
        }
    }
    let ghost accv = vertices@;
    let ghost accc = counts@;
    for i in 0..n
        invariant
            vertices@.len() == n,
            counts@ == accc,
            accv.len() == n,
            accc.len() == n,
            forall|j: int| i <= j < n ==> vertices@[j] == accv[j],
            forall|j: int| 0 <= j < i ==> vertices@[j] == spec_finalized_vertex(accv[j], accc[j]),
    {
        let cnt: u64 = counts[i];
        if cnt != 0 {
            let d: i64 = count_to_fx(cnt);
            let v: VertexPosNorTexTanBi = vertices[i];
            let tangent: Vec3Fx = v3_normalize(
                Vec3Fx {
                    x: fx_div(v.tangent.x, d),
                    y: fx_div(v.tangent.y, d),
                    z: fx_div(v.tangent.z, d),
                },
            );
            let bitangent: Vec3Fx = v3_normalize(
                Vec3Fx {
                    x: fx_div(v.bitangent.x, d),
                    y: fx_div(v.bitangent.y, d),
                    z: fx_div(v.bitangent.z, d),
                },
            );
            vertices.set(i, VertexPosNorTexTanBi { tangent, bitangent, ..v });
        }
    }
    proof {
        assert(vertices@ =~= spec_reconstructed(vs0, indices@));
    }
}

/// The consistency conditions of a primitive whose positions and indices
/// are present: no attribute array is longer than the positions, every
/// index is in range, and — when tangents must be reconstructed — the
/// index list splits into whole triangles.
pub open spec fn spec_prim_valid(prim: GltfPrimitive) -> bool {
    match (prim.positions, prim.indices) {
        (Option::Some(ps), Option::Some(ix)) => {
            &&& match prim.normals {
                Option::Some(ns) => ns@.len() <= ps@.len(),
                Option::None => true,
            }
            &&& match prim.tex_coords {
                Option::Some(ts) => ts@.len() <= ps@.len(),
                Option::None => true,
            }
            &&& match prim.tangents {
                Option::Some(tw) => tw@.len() <= ps@.len(),
                Option::None => ix@.len() % 3 == 0,
            }
            &&& forall|i: int| 0 <= i < ix@.len() ==> (ix@[i] as int) < ps@.len()
        },
        _ => false,
    }
}

/// The vertices a primitive imports to, or the error it fails with:
/// `MissingAttribute` without positions, `MalformedAsset` without indices
/// or with inconsistent arrays; with source tangents the assembled
/// vertices, otherwise the assembled vertices with tangent space
/// reconstructed.
pub open spec fn spec_primitive_vertices(prim: GltfPrimitive) -> Result<
    Seq<VertexPosNorTexTanBi>,
    Error,
> {
    if prim.positions is None {
        Err(Error::MissingAttribute)
    } else if prim.indices is None {
        Err(Error::MalformedAsset)
    } else if !spec_prim_valid(prim) {
        Err(Error::MalformedAsset)
    } else if prim.tangents is Some {
        Ok(spec_assembled(prim))
    } else {
        match prim.indices {
            Option::Some(ix) => Ok(spec_reconstructed(spec_assembled(prim), ix@)),
            Option::None => Err(Error::MalformedAsset),
        }
    }
}

fn validate_primitive(prim: &GltfPrimitive) -> (ok: bool)
    requires
        prim.positions is Some,
        prim.indices is Some,
    ensures
        ok == spec_prim_valid(*prim),
{
    let positions: &Vec<Vec3Fx> = match &prim.positions {
        Some(ps) => ps,
        None => unreached(),
    };
    let indices: &Vec<u32> = match &prim.indices {
        Some(ix) => ix,
        None => unreached(),
    };
    let vlen: usize = positions.len();
    match &prim.normals {
        Some(ns) => if ns.len() > vlen {
            return false;
        },
        None => {},
    }
    match &prim.tex_coords {
        Some(ts) => if ts.len() > vlen {
            return false;
        },
        None => {},
    }
    match &prim.tangents {
        Some(tw) => if tw.len() > vlen {
            return false;
        },
        None => if indices.len() % 3 != 0 {
            return false;
        },
    }
    let n: usize = indices.len();
    for i in 0..n
        invariant
            n == indices@.len(),
            vlen == positions@.len(),
            prim.positions == Some(*positions),
            prim.indices == Some(*indices),
            forall|j: int| 0 <= j < i ==> (indices@[j] as int) < vlen as int,
    {
        if indices[i] as usize >= vlen {
            return false;
        }
    }
    true
}

/// Import one primitive against an already-loaded material.
fn import_primitive(prim: &GltfPrimitive, material: &Material) -> (r: Result<SubMeshData, Error>)
    requires
        material.wf(),
    ensures
        match r {
            Ok(sm) => {
                &&& spec_primitive_vertices(*prim) == Ok::<Seq<VertexPosNorTexTanBi>, Error>(
                    sm.vertices@,
                )
                &&& match prim.indices {
                    Option::Some(ix) => sm.indices@ == ix@,
                    Option::None => false,
                }
                &&& crate::material::material_eq(*material, sm.material)
                &&& sm.wf()
                &&& match prim.positions {
                    Option::Some(ps) => sm.vertices@.len() == ps@.len(),
                    Option::None => false,
                }
            },
            Err(e) => spec_primitive_vertices(*prim) == Err::<Seq<VertexPosNorTexTanBi>, Error>(e),
        },
{
    if prim.positions.is_none() {
        return Err(Error::MissingAttribute);
    }
    let indices: &Vec<u32> = match &prim.indices {
        Some(ix) => ix,
        None => {
            return Err(Error::MalformedAsset);
        },
    };
    if !validate_primitive(prim) {
        return Err(Error::MalformedAsset);
    }
    let mut vertices: Vec<VertexPosNorTexTanBi> = assemble_vertices(prim);
    if prim.tangents.is_none() {
        reconstruct_tangents(&mut vertices, indices);
    }
    let idx: Vec<u32> = copy_u32s(indices);
    let mat: Material = material.duplicate();
    Ok(SubMeshData { vertices, indices: idx, material: mat })
}

/// The first error among the first `k` primitives, in order.
pub open spec fn spec_prims_error(prims: Seq<GltfPrimitive>, k: int) -> Option<Error>
    decreases k,
{
    if k <= 0 {
        None
    } else {
        match spec_prims_error(prims, k - 1) {
            Option::Some(e) => Some(e),
            Option::None => match spec_primitive_vertices(prims[k - 1]) {
                Result::Err(e) => Some(e),
                Result::Ok(_) => None,
            },
        }
    }
}

proof fn lemma_prims_error_persists(prims: Seq<GltfPrimitive>, i: int, j: int)
    requires
        0 <= i <= j,
        spec_prims_error(prims, i) is Some,
    ensures
        spec_prims_error(prims, j) == spec_prims_error(prims, i),
    decreases j - i,
{
    if j > i {
        lemma_prims_error_persists(prims, i, j - 1);
    }
}

/// The error an entire mesh import fails with, if any: the material's
/// first failing slot, else the first failing primitive.
pub open spec fn spec_mesh_error(
    mesh: GltfMesh,
    dir: Seq<char>,
    files: Seq<TextureFile>,
) -> Option<Error> {
    let mat_err = match mesh.material {
        Option::Some(gm) => spec_material_error(gm, dir, files),
        Option::None => None,
    };
    match mat_err {
        Option::Some(e) => Some(e),
        Option::None => spec_prims_error(mesh.primitives@, mesh.primitives@.len() as int),
    }
}

/// One imported submesh agrees with its source primitive.
pub open spec fn spec_submesh_ok(sm: SubMeshData, prim: GltfPrimitive) -> bool {
    &&& spec_primitive_vertices(prim) == Ok::<Seq<VertexPosNorTexTanBi>, Error>(sm.vertices@)
    &&& match prim.indices {
        Option::Some(ix) => sm.indices@ == ix@,
        Option::None => false,
    }
    &&& sm.wf()
}

/// An imported mesh agrees with its source mesh: one submesh per
/// primitive, in order, each carrying the mesh's material.
pub open spec fn spec_mesh_ok(
    md: MeshData,
    mesh: GltfMesh,
    dir: Seq<char>,
    files: Seq<TextureFile>,
) -> bool {
    &&& md.submesh_data@.len() == mesh.primitives@.len()
    &&& forall|j: int|
        0 <= j < md.submesh_data@.len() ==> spec_submesh_ok(
            #[trigger] md.submesh_data@[j],
            mesh.primitives@[j],
        )
    &&& forall|j: int|
        0 <= j < md.submesh_data@.len() ==> spec_material_ok(
            (#[trigger] md.submesh_data@[j]).material,
            mesh.material,
            dir,
            files,
        )
}

/// Import one mesh: load its material once, then import every primitive
/// with it. The first error aborts.
fn import_mesh(mesh: &GltfMesh, dir: &str, files: &TextureStore) -> (r: Result<MeshData, Error>)
    ensures
        match r {
            Ok(md) => spec_mesh_error(*mesh, dir@, files.files@) is None && spec_mesh_ok(
                md,
                *mesh,
                dir@,
                files.files@,
            ) && md.wf(),
            Err(e) => spec_mesh_error(*mesh, dir@, files.files@) == Some(e),
        },
{
    let material: Material = match &mesh.material {
        None => Material::empty(),
        Some(gm) => match load_material(gm, dir, files) {
            Ok(m) => m,
            Err(e) => {
                return Err(e);
            },
        },
    };
    let mut subs: Vec<SubMeshData> = Vec::new();
    let np: usize = mesh.primitives.len();
    for j in 0..np
        invariant
            np == mesh.primitives@.len(),
            material.wf(),
            spec_material_ok(material, mesh.material, dir@, files.files@),
            (match mesh.material {
                Option::Some(gm) => spec_material_error(gm, dir@, files.files@) is None,
                Option::None => true,
            }),
            spec_prims_error(mesh.primitives@, j as int) is None,
            subs@.len() == j,
            forall|k: int|
                0 <= k < j ==> spec_submesh_ok(#[trigger] subs@[k], mesh.primitives@[k]),
            forall|k: int|
                0 <= k < j ==> spec_material_ok(
                    (#[trigger] subs@[k]).material,
                    mesh.material,
                    dir@,
                    files.files@,
                ),
    {
        match import_primitive(&mesh.primitives[j], &material) {
            Ok(sm) => {
                subs.push(sm);
            },
            Err(e) => {
                proof {
                    lemma_prims_error_persists(
                        mesh.primitives@,
                        j as int + 1,
                        mesh.primitives@.len() as int,
                    );
                }
                return Err(e);
            },
        }
    }
    Ok(MeshData { submesh_data: subs })
}

/// The meshes of the nodes among the first `k` that carry one, in node
/// order.
pub open spec fn spec_meshy_prefix(nodes: Seq<GltfNode>, k: int) -> Seq<GltfMesh>
    decreases k,
{
    if k <= 0 {
        Seq::empty()
    } else {
        let rest = spec_meshy_prefix(nodes, k - 1);
        match nodes[k - 1].mesh {
            Option::Some(m) => rest.push(m),
            Option::None => rest,
        }
    }
}

/// The first error among the first `k` nodes, in node order.
pub open spec fn spec_import_error(
    nodes: Seq<GltfNode>,
    dir: Seq<char>,
    files: Seq<TextureFile>,
    k: int,
) -> Option<Error>
    decreases k,
{
    if k <= 0 {
        None
    } else {
        match spec_import_error(nodes, dir, files, k - 1) {
            Option::Some(e) => Some(e),
            Option::None => match nodes[k - 1].mesh {
                Option::None => None,
                Option::Some(m) => spec_mesh_error(m, dir, files),
            },
        }
    }
}

proof fn lemma_import_error_persists(
    nodes: Seq<GltfNode>,
    dir: Seq<char>,
    files: Seq<TextureFile>,
    i: int,
    j: int,
)
    requires
        0 <= i <= j,
        spec_import_error(nodes, dir, files, i) is Some,
    ensures
        spec_import_error(nodes, dir, files, j) == spec_import_error(nodes, dir, files, i),
    decreases j - i,
{
    if j > i {
        lemma_import_error_persists(nodes, dir, files, i, j - 1);
    }
}

/// The glTF importer: one `MeshData` per scene-graph node that carries
/// mesh geometry.
pub struct GltfImporter;

impl GltfImporter {
    /// Import a parsed document. `asset_dir` is the asset file's parent
    /// directory, against which texture URIs resolve; `files` holds the
    /// texture files the caller read from those resolved paths. The first
    /// error aborts the whole import — there is no partial result.
    pub fn import(doc: &GltfDocument, asset_dir: &str, files: &TextureStore) -> (r: Result<
        Vec<MeshData>,
        Error,
    >)
        ensures
            match r {
                Ok(v) => {
                    &&& spec_import_error(
                        doc.nodes@,
                        asset_dir@,
                        files.files@,
                        doc.nodes@.len() as int,
                    ) is None
                    &&& v@.len() == spec_meshy_prefix(doc.nodes@, doc.nodes@.len() as int).len()
                    &&& forall|k: int|
                        0 <= k < v@.len() ==> spec_mesh_ok(
                            #[trigger] v@[k],
                            spec_meshy_prefix(doc.nodes@, doc.nodes@.len() as int)[k],
                            asset_dir@,
                            files.files@,
                        )
                },
                Err(e) => spec_import_error(
                    doc.nodes@,
                    asset_dir@,
                    files.files@,
                    doc.nodes@.len() as int,
                ) == Some(e),
            },
    {
        let mut out: Vec<MeshData> = Vec::new();
        let nn: usize = doc.nodes.len();
        for i in 0..nn
            invariant
                nn == doc.nodes@.len(),
                spec_import_error(doc.nodes@, asset_dir@, files.files@, i as int) is None,
                out@.len() == spec_meshy_prefix(doc.nodes@, i as int).len(),
                forall|k: int|
                    0 <= k < out@.len() ==> spec_mesh_ok(
                        #[trigger] out@[k],
                        spec_meshy_prefix(doc.nodes@, i as int)[k],
                        asset_dir@,
                        files.files@,
                    ),
        {
            match &doc.nodes[i].mesh {
                None => {},
                Some(m) => {
                    match import_mesh(m, asset_dir, files) {
                        Ok(md) => {
                            out.push(md);
                        },
                        Err(e) => {
                            proof {
                                lemma_import_error_persists(
                                    doc.nodes@,
                                    asset_dir@,
                                    files.files@,
                                    i as int + 1,
                                    doc.nodes@.len() as int,
                                );
                            }
                            return Err(e);
                        },
                    }
                },
            }
        }
        Ok(out)
    }
}


/// A sequence of imported meshes agrees with a document: one entry per
/// node carrying a mesh, each matching its source.
pub open spec fn spec_import_matches(
    md: Seq<MeshData>,
    nodes: Seq<GltfNode>,
    dir: Seq<char>,
    files: Seq<TextureFile>,
) -> bool {
    &&& md.len() == spec_meshy_prefix(nodes, nodes.len() as int).len()
    &&& forall|k: int|
        0 <= k < md.len() ==> spec_mesh_ok(
            #[trigger] md[k],
            spec_meshy_prefix(nodes, nodes.len() as int)[k],
            dir,
            files,
        )
}


/// Importing the same document against the same directory and texture
/// files twice is deterministic: both results have the same mesh count,
/// and mesh for mesh the same submesh count, vertices and indices.
pub proof fn lemma_reimport_deterministic(
    nodes: Seq<GltfNode>,
    dir: Seq<char>,
    files: Seq<TextureFile>,
    r1: Seq<MeshData>,
    r2: Seq<MeshData>,
)
    requires
        spec_import_matches(r1, nodes, dir, files),
        spec_import_matches(r2, nodes, dir, files),
    ensures
        r1.len() == r2.len(),
        forall|k: int|
            0 <= k < r1.len() ==> (#[trigger] r1[k]).submesh_data@.len()
                == r2[k].submesh_data@.len(),
        forall|k: int, j: int|
            0 <= k < r1.len() && 0 <= j < r1[k].submesh_data@.len() ==> (
            #[trigger] r1[k].submesh_data@[j]).vertices@ == r2[k].submesh_data@[j].vertices@
                && r1[k].submesh_data@[j].indices@ == r2[k].submesh_data@[j].indices@,
{
    let meshy = spec_meshy_prefix(nodes, nodes.len() as int);
    assert forall|k: int|
        0 <= k < r1.len() implies (#[trigger] r1[k]).submesh_data@.len()
        == r2[k].submesh_data@.len() by {
        assert(spec_mesh_ok(r1[k], meshy[k], dir, files));
        assert(spec_mesh_ok(r2[k], meshy[k], dir, files));
    }
    assert forall|k: int, j: int|
        0 <= k < r1.len() && 0 <= j < r1[k].submesh_data@.len() implies (
    #[trigger] r1[k].submesh_data@[j]).vertices@ == r2[k].submesh_data@[j].vertices@
        && r1[k].submesh_data@[j].indices@ == r2[k].submesh_data@[j].indices@ by {
        assert(spec_mesh_ok(r1[k], meshy[k], dir, files));
        assert(spec_mesh_ok(r2[k], meshy[k], dir, files));
        assert(spec_submesh_ok(r1[k].submesh_data@[j], meshy[k].primitives@[j]));
        assert(spec_submesh_ok(r2[k].submesh_data@[j], meshy[k].primitives@[j]));
    }
}

/// Index of the last `.` in the first `k` bytes, or -1 if there is none.
pub open spec fn spec_last_dot(s: Seq<u8>, k: int) -> int
    decreases k,
{
    if k <= 0 {
        -1
    } else if s[k - 1] == 46u8 {
        k - 1
    } else {
        spec_last_dot(s, k - 1)
    }
}

/// The path names a format the importer reads: its extension — the bytes
/// after the last dot — is `gltf` or `glb`.
pub open spec fn spec_extension_supported(s: Seq<u8>) -> bool {
    let d = spec_last_dot(s, s.len() as int);
    &&& d >= 0
    &&& (s.skip(d + 1) == seq![103u8, 108u8, 116u8, 102u8] || s.skip(d + 1) == seq![
        103u8,
        108u8,
        98u8,
    ])
}

/// Whether a file path carries a supported asset extension.
pub fn has_supported_extension(path: &str) -> (r: bool)
    ensures
        r == spec_extension_supported(path.spec_bytes()),
{
    let bytes: &[u8] = path.as_bytes();
    let n: usize = bytes.len();
    let mut dot: usize = 0;
    let mut found: bool = false;
    let mut k: usize = n;
    while k > 0
        invariant
            n == bytes@.len(),
            k <= n,
            if found {
                spec_last_dot(bytes@, n as int) == dot as int && dot < n
            } else {
                spec_last_dot(bytes@, n as int) == spec_last_dot(bytes@, k as int)
            },
            found ==> k <= dot,
        decreases k,
    {
        if !found && bytes[k - 1] == 46u8 {
            dot = k - 1;
            found = true;
        }
        k = k - 1;
    }
    if !found {
        return false;
    }
    let ext_len: usize = n - dot - 1;
    if ext_len == 4 {
        let ok: bool = bytes[dot + 1] == 103u8 && bytes[dot + 2] == 108u8 && bytes[dot + 3]
            == 116u8 && bytes[dot + 4] == 102u8;
        proof {
            if ok {
                assert(bytes@.skip(dot as int + 1) =~= seq![103u8, 108u8, 116u8, 102u8]);
            } else {
                assert(bytes@.skip(dot as int + 1) != seq![103u8, 108u8, 116u8, 102u8]);
                assert(bytes@.skip(dot as int + 1).len() == 4);
                assert(bytes@.skip(dot as int + 1) != seq![103u8, 108u8, 98u8]);
            }
        }
        ok
    } else if ext_len == 3 {
        let ok: bool = bytes[dot + 1] == 103u8 && bytes[dot + 2] == 108u8 && bytes[dot + 3]
            == 98u8;
        proof {
            if ok {
                assert(bytes@.skip(dot as int + 1) =~= seq![103u8, 108u8, 98u8]);
            } else {
                assert(bytes@.skip(dot as int + 1) != seq![103u8, 108u8, 98u8]);
                assert(bytes@.skip(dot as int + 1).len() == 3);
                assert(bytes@.skip(dot as int + 1) != seq![103u8, 108u8, 116u8, 102u8]);
            }
        }
        ok
    } else {
        proof {
            assert(bytes@.skip(dot as int + 1).len() != 4);
            assert(bytes@.skip(dot as int + 1).len() != 3);
        }
        false
    }
}


} // verus!
