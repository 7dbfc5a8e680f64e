//! Pipeline construction plans: the shader pair and the fixed vertex
//! attribute layout, built once, not per frame.

use vstd::prelude::*;
use crate::shader_bindings::{
    ATTRIBUTE_BITANGENT, ATTRIBUTE_NORMAL, ATTRIBUTE_POSITION, ATTRIBUTE_TANGENT, ATTRIBUTE_UV,
    VERTEX_BUFFER_INDEX,
};

verus! {

#[derive(Debug, Clone, Copy, PartialEq, Eq, Structural)]
pub enum VertexFormat {
    Float2,
    Float3,
}

#[derive(Debug, Clone, Copy, PartialEq, Eq, Structural)]
pub enum PixelFormat {
    BGRA8Unorm,
    RGBA8Unorm,
    Depth32Float,
}

/// One vertex attribute: its slot, component format, byte offset, and the
/// buffer binding it reads from.
#[derive(Debug, Clone, Copy, PartialEq, Eq, Structural)]
pub struct VertexAttribute {
    pub attribute: u64,
    pub format: VertexFormat,
    pub offset: u64,
    pub buffer_index: u64,
}

/// An interleaved vertex layout: its attributes and the stride of the one
/// buffer they share.
#[derive(Debug)]
pub struct VertexLayout {
    pub attributes: Vec<VertexAttribute>,
    pub stride: u64,
}

/// The fixed interleaved layout the draw path uses:
/// position(3f)/normal(3f)/uv(2f)/tangent(3f)/bitangent(3f) in one buffer,
/// one binding slot, stride the sum of the component byte sizes.
pub open spec fn spec_default_attributes() -> Seq<VertexAttribute> {
    seq![
        VertexAttribute {
            attribute: ATTRIBUTE_POSITION,
            format: VertexFormat::Float3,
            offset: 0u64,
            buffer_index: VERTEX_BUFFER_INDEX,
        },
        VertexAttribute {
            attribute: ATTRIBUTE_NORMAL,
            format: VertexFormat::Float3,
            offset: 12u64,
            buffer_index: VERTEX_BUFFER_INDEX,
        },
        VertexAttribute {
            attribute: ATTRIBUTE_UV,
            format: VertexFormat::Float2,
            offset: 24u64,
            buffer_index: VERTEX_BUFFER_INDEX,
        },
        VertexAttribute {
            attribute: ATTRIBUTE_TANGENT,
            format: VertexFormat::Float3,
            offset: 32u64,
            buffer_index: VERTEX_BUFFER_INDEX,
        },
        VertexAttribute {
            attribute: ATTRIBUTE_BITANGENT,
            format: VertexFormat::Float3,
            offset: 44u64,
            buffer_index: VERTEX_BUFFER_INDEX,
        },
    ]
}

/// Byte stride of one interleaved vertex: fourteen 4-byte components.
pub const VERTEX_STRIDE: u64 = 56;

pub fn default_vertex_descriptor() -> (r: VertexLayout)
    ensures
        r.attributes@ == spec_default_attributes(),
        r.stride == VERTEX_STRIDE,
{
    let mut attributes: Vec<VertexAttribute> = Vec::new();
    attributes.push(VertexAttribute {
        attribute: ATTRIBUTE_POSITION,
        format: VertexFormat::Float3,
        offset: 0,
        buffer_index: VERTEX_BUFFER_INDEX,
    });
    attributes.push(VertexAttribute {
        attribute: ATTRIBUTE_NORMAL,
        format: VertexFormat::Float3,
        offset: 12,
        buffer_index: VERTEX_BUFFER_INDEX,
    });
    attributes.push(VertexAttribute {
        attribute: ATTRIBUTE_UV,
        format: VertexFormat::Float2,
        offset: 24,
        buffer_index: VERTEX_BUFFER_INDEX,
    });
    attributes.push(VertexAttribute {
        attribute: ATTRIBUTE_TANGENT,
        format: VertexFormat::Float3,
        offset: 32,
        buffer_index: VERTEX_BUFFER_INDEX,
    });
    attributes.push(VertexAttribute {
        attribute: ATTRIBUTE_BITANGENT,
        format: VertexFormat::Float3,
        offset: 44,
        buffer_index: VERTEX_BUFFER_INDEX,
    });
    proof {
        assert(attributes@ =~= spec_default_attributes());
    }
    VertexLayout { attributes, stride: VERTEX_STRIDE }
}

/// A pipeline construction plan: which shader functions to bind, the
/// attachment formats, and the vertex layout.
#[derive(Debug)]
pub struct PipelinePlan {
    pub vertex_function: String,
    pub fragment_function: String,
    pub color_pixel_format: PixelFormat,
    pub depth_pixel_format: PixelFormat,
    pub vertex_layout: VertexLayout,
}

/// The closed set of pass kinds. The object-id picking variant is
/// declared but intentionally not implemented.
#[derive(Debug, Clone, Copy, PartialEq, Eq, Structural)]
pub enum PipelineStateType {
    Forward,
    ObjectID,
}

impl PipelineStateType {
    /// The construction plan for this pass kind's pipeline state; only
    /// the forward pass is implemented.
    pub fn create_pipeline_state(&self, pixel_format: PixelFormat) -> (r: PipelinePlan)
        requires
            *self is Forward,
        ensures
            r.vertex_function@ == "vertexMain"@,
            r.fragment_function@ == "fragmentMain"@,
            r.color_pixel_format == pixel_format,
            r.depth_pixel_format == PixelFormat::Depth32Float,
            r.vertex_layout.attributes@ == spec_default_attributes(),
            r.vertex_layout.stride == VERTEX_STRIDE,
    {
        match self {
            PipelineStateType::Forward => create_forward_pipeline_state(pixel_format),
            PipelineStateType::ObjectID => unreached(),
        }
    }
}

fn create_forward_pipeline_state(pixel_format: PixelFormat) -> (r: PipelinePlan)
    ensures
        r.vertex_function@ == "vertexMain"@,
        r.fragment_function@ == "fragmentMain"@,
        r.color_pixel_format == pixel_format,
        r.depth_pixel_format == PixelFormat::Depth32Float,
        r.vertex_layout.attributes@ == spec_default_attributes(),
        r.vertex_layout.stride == VERTEX_STRIDE,
{
    PipelinePlan {
        vertex_function: "vertexMain".to_owned(),
        fragment_function: "fragmentMain".to_owned(),
        color_pixel_format: pixel_format,
        depth_pixel_format: PixelFormat::Depth32Float,
        vertex_layout: default_vertex_descriptor(),
    }
}

} // verus!
