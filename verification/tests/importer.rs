//! The importer: tangent reconstruction, validation, materials, errors.

use daedalus::error::Error;
use daedalus::fixed::FX_ONE;
use daedalus::gltf::{
    has_supported_extension, load_texture, resolve_texture_path, GltfDocument, GltfImporter,
    GltfMaterial, GltfMesh, GltfNode, GltfPrimitive, TangentW, TextureFile, TextureSource,
    TextureStore,
};
use daedalus::vec3::{v3_dot, Vec3Fx};
use daedalus::vertex::TexCoord;

fn v(x: i64, y: i64, z: i64) -> Vec3Fx {
    Vec3Fx { x: x * FX_ONE, y: y * FX_ONE, z: z * FX_ONE }
}

/// A unit quad in the xy plane with axis-aligned UVs and +z normals,
/// without source tangents.
fn quad_primitive() -> GltfPrimitive {
    GltfPrimitive {
        positions: Some(vec![v(0, 0, 0), v(1, 0, 0), v(1, 1, 0), v(0, 1, 0)]),
        normals: Some(vec![v(0, 0, 1), v(0, 0, 1), v(0, 0, 1), v(0, 0, 1)]),
        tex_coords: Some(vec![
            TexCoord { u: 0, v: 0 },
            TexCoord { u: FX_ONE, v: 0 },
            TexCoord { u: FX_ONE, v: FX_ONE },
            TexCoord { u: 0, v: FX_ONE },
        ]),
        tangents: None,
        indices: Some(vec![0, 1, 2, 0, 2, 3]),
    }
}

fn doc_of(prim: GltfPrimitive) -> GltfDocument {
    GltfDocument {
        nodes: vec![
            GltfNode { mesh: None },
            GltfNode {
                mesh: Some(GltfMesh { material: None, primitives: vec![prim] }),
            },
        ],
    }
}

fn empty_store() -> TextureStore {
    TextureStore { files: Vec::new() }
}

/// A planar quad with axis-aligned UVs and normal +z reconstructs the
/// tangent +x (here exactly) for every vertex.
#[test]
fn quad_reconstructs_tangent_plus_x() {
    let out = GltfImporter::import(&doc_of(quad_primitive()), "assets", &empty_store()).unwrap();
    assert_eq!(out.len(), 1);
    assert_eq!(out[0].submesh_data.len(), 1);
    let sm = &out[0].submesh_data[0];
    assert_eq!(sm.vertices.len(), 4);
    assert_eq!(sm.indices, vec![0, 1, 2, 0, 2, 3]);
    for vx in sm.vertices.iter() {
        assert_eq!(vx.tangent, Vec3Fx { x: FX_ONE, y: 0, z: 0 });
        assert_eq!(vx.bitangent, Vec3Fx { x: 0, y: FX_ONE, z: 0 });
    }
}

/// Reconstructed tangents are orthogonal to the vertex normals.
#[test]
fn reconstructed_tangents_orthogonal_to_normals() {
    let out = GltfImporter::import(&doc_of(quad_primitive()), "assets", &empty_store()).unwrap();
    let sm = &out[0].submesh_data[0];
    let eps = FX_ONE / 100;
    let mut ok = 0usize;
    for vx in sm.vertices.iter() {
        if v3_dot(vx.tangent, vx.normal).abs() <= eps
            && v3_dot(vx.bitangent, vx.normal).abs() <= eps
        {
            ok += 1;
        }
    }
    assert_eq!(ok, sm.vertices.len());
}

/// Re-importing the same document yields identical counts and contents.
#[test]
fn reimport_is_deterministic() {
    let a = GltfImporter::import(&doc_of(quad_primitive()), "assets", &empty_store()).unwrap();
    let b = GltfImporter::import(&doc_of(quad_primitive()), "assets", &empty_store()).unwrap();
    assert_eq!(a.len(), b.len());
    for (ma, mb) in a.iter().zip(b.iter()) {
        assert_eq!(ma.submesh_data.len(), mb.submesh_data.len());
        for (sa, sb) in ma.submesh_data.iter().zip(mb.submesh_data.iter()) {
            assert_eq!(sa.vertices.len(), sb.vertices.len());
            assert_eq!(sa.indices.len(), sb.indices.len());
            assert_eq!(sa.vertices, sb.vertices);
            assert_eq!(sa.indices, sb.indices);
        }
    }
}

#[test]
fn source_tangents_are_kept() {
    let mut prim = quad_primitive();
    prim.tangents = Some(vec![
        TangentW { xyz: v(1, 0, 0), w: FX_ONE },
        TangentW { xyz: v(1, 0, 0), w: FX_ONE },
        TangentW { xyz: v(1, 0, 0), w: -FX_ONE },
        TangentW { xyz: v(1, 0, 0), w: FX_ONE },
    ]);
    let out = GltfImporter::import(&doc_of(prim), "assets", &empty_store()).unwrap();
    let sm = &out[0].submesh_data[0];
    assert_eq!(sm.vertices[0].tangent, v(1, 0, 0));
    // bitangent = cross(normal, tangent) * w; normal +z, tangent +x -> +y
    assert_eq!(sm.vertices[0].bitangent, v(0, 1, 0));
    assert_eq!(sm.vertices[2].bitangent, v(0, -1, 0));
}

#[test]
fn missing_positions_is_missing_attribute() {
    let mut prim = quad_primitive();
    prim.positions = None;
    let r = GltfImporter::import(&doc_of(prim), "assets", &empty_store());
    assert_eq!(r.err(), Some(Error::MissingAttribute));
}

#[test]
fn missing_indices_is_malformed() {
    let mut prim = quad_primitive();
    prim.indices = None;
    let r = GltfImporter::import(&doc_of(prim), "assets", &empty_store());
    assert_eq!(r.err(), Some(Error::MalformedAsset));
}

#[test]
fn out_of_range_index_is_malformed() {
    let mut prim = quad_primitive();
    prim.indices = Some(vec![0, 1, 9]);
    let r = GltfImporter::import(&doc_of(prim), "assets", &empty_store());
    assert_eq!(r.err(), Some(Error::MalformedAsset));
}

#[test]
fn ragged_triangle_list_is_malformed() {
    let mut prim = quad_primitive();
    prim.indices = Some(vec![0, 1, 2, 0]);
    let r = GltfImporter::import(&doc_of(prim), "assets", &empty_store());
    assert_eq!(r.err(), Some(Error::MalformedAsset));
}

#[test]
fn oversized_attribute_array_is_malformed() {
    let mut prim = quad_primitive();
    prim.normals = Some(vec![v(0, 0, 1); 5]);
    let r = GltfImporter::import(&doc_of(prim), "assets", &empty_store());
    assert_eq!(r.err(), Some(Error::MalformedAsset));
}

#[test]
fn nodes_without_meshes_are_skipped() {
    let doc = GltfDocument { nodes: vec![GltfNode { mesh: None }, GltfNode { mesh: None }] };
    let out = GltfImporter::import(&doc, "assets", &empty_store()).unwrap();
    assert_eq!(out.len(), 0);
}

fn png_bytes(width: u32, height: u32) -> Vec<u8> {
    let img = image::RgbaImage::from_pixel(width, height, image::Rgba([10, 20, 30, 255]));
    let mut buf: Vec<u8> = Vec::new();
    image::DynamicImage::ImageRgba8(img)
        .write_to(&mut std::io::Cursor::new(&mut buf), image::ImageOutputFormat::Png)
        .unwrap();
    buf
}

fn material_with_base_color(uri: &str) -> GltfMaterial {
    GltfMaterial {
        base_color: Some(TextureSource::Uri(uri.to_owned())),
        normal: None,
        metallic_roughness: None,
        occlusion: None,
        emissive: None,
    }
}

fn doc_with_material(material: GltfMaterial) -> GltfDocument {
    GltfDocument {
        nodes: vec![GltfNode {
            mesh: Some(GltfMesh { material: Some(material), primitives: vec![quad_primitive()] }),
        }],
    }
}

#[test]
fn texture_decodes_through_the_real_decoder() {
    let store = TextureStore {
        files: vec![TextureFile { path: "assets/base.png".to_owned(), bytes: png_bytes(2, 3) }],
    };
    let out = GltfImporter::import(&doc_with_material(material_with_base_color("base.png")),
        "assets", &store)
        .unwrap();
    let tex = out[0].submesh_data[0].material.base_color_texture.as_ref().unwrap();
    assert_eq!(tex.width, 2);
    assert_eq!(tex.height, 3);
    assert_eq!(tex.data.len(), 4 * 2 * 3);
    assert_eq!(&tex.data[0..4], &[10, 20, 30, 255]);
    assert!(out[0].submesh_data[0].material.normal_texture.is_none());
}

#[test]
fn missing_texture_file_is_texture_load_error() {
    let r = GltfImporter::import(
        &doc_with_material(material_with_base_color("missing.png")),
        "assets",
        &empty_store(),
    );
    assert_eq!(r.err(), Some(Error::TextureLoadError));
}

#[test]
fn undecodable_texture_is_decode_error() {
    let store = TextureStore {
        files: vec![TextureFile {
            path: "assets/bad.png".to_owned(),
            bytes: vec![1, 2, 3, 4, 5],
        }],
    };
    let r = GltfImporter::import(
        &doc_with_material(material_with_base_color("bad.png")),
        "assets",
        &store,
    );
    assert_eq!(r.err(), Some(Error::DecodeError));
}

#[test]
fn embedded_texture_source_is_unsupported() {
    let material = GltfMaterial {
        base_color: Some(TextureSource::Embedded),
        normal: None,
        metallic_roughness: None,
        occlusion: None,
        emissive: None,
    };
    let r = GltfImporter::import(&doc_with_material(material), "assets", &empty_store());
    assert_eq!(r.err(), Some(Error::TextureSourceUnsupported));
}

#[test]
fn load_texture_rejects_garbage() {
    assert_eq!(load_texture(&vec![0, 1, 2]).err(), Some(Error::DecodeError));
}

#[test]
fn load_texture_decodes_pixels() {
    let t = load_texture(&png_bytes(1, 1)).unwrap();
    assert_eq!((t.width, t.height), (1, 1));
    assert_eq!(t.data, vec![10, 20, 30, 255]);
}

#[test]
fn texture_paths_resolve_against_the_asset_directory() {
    assert_eq!(resolve_texture_path("a/b", "t.png"), "a/b/t.png");
    assert_eq!(resolve_texture_path("", "t.png"), "/t.png");
}

#[test]
fn supported_extensions() {
    assert!(has_supported_extension("model.gltf"));
    assert!(has_supported_extension("dir.with.dots/model.glb"));
    assert!(!has_supported_extension("model.obj"));
    assert!(!has_supported_extension("model"));
    assert!(!has_supported_extension("model.gltf.bak"));
}
