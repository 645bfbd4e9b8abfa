use vstd::prelude::*;

verus! {

/// Attribute format code: three 32-bit floats.
pub const FORMAT_R32G32B32_SFLOAT: u32 = 106;

/// Attribute format code: two 32-bit floats.
pub const FORMAT_R32G32_SFLOAT: u32 = 103;

/// One vertex attribute as the pipeline's vertex input declares it.
#[derive(Debug, Clone, Copy, PartialEq, Eq, Structural)]
pub struct VertexAttribute {
    pub location: u32,
    pub format: u32,
    pub offset: u32,
}

/// The closed set of vertex layouts the renderer draws with: a bare
/// position, or a position with a color and texture coordinates. Each
/// variant carries its own binding stride and attribute list.
#[derive(Debug, Clone, Copy, PartialEq, Eq, Structural)]
pub enum VertexFormat {
    /// Three position floats: 12 bytes per vertex.
    Simple,
    /// Position, color and texture coordinates: 32 bytes per vertex.
    ColorCoords,
}

impl VertexFormat {
    /// The byte stride of one vertex under this layout.
    pub fn stride(&self) -> (r: u32)
        ensures
            *self == VertexFormat::Simple ==> r == 12,
            *self == VertexFormat::ColorCoords ==> r == 32,
    {
        match self {
            VertexFormat::Simple => 12,
            VertexFormat::ColorCoords => 32,
        }
    }

    /// The attribute list of this layout: consecutive locations, each
    /// attribute at the byte offset its fields occupy.
    pub fn attribute_descriptions(&self) -> (r: Vec<VertexAttribute>)
        ensures
            *self == VertexFormat::Simple ==> r@ == seq![
                VertexAttribute { location: 0, format: FORMAT_R32G32B32_SFLOAT, offset: 0 },
            ],
            *self == VertexFormat::ColorCoords ==> r@ == seq![
                VertexAttribute { location: 0, format: FORMAT_R32G32B32_SFLOAT, offset: 0 },
                VertexAttribute { location: 1, format: FORMAT_R32G32B32_SFLOAT, offset: 12 },
                VertexAttribute { location: 2, format: FORMAT_R32G32_SFLOAT, offset: 24 },
            ],
    {
        let mut r: Vec<VertexAttribute> = Vec::new();
        match self {
            VertexFormat::Simple => {
                r.push(VertexAttribute { location: 0, format: FORMAT_R32G32B32_SFLOAT, offset: 0 });
                proof {
                    assert(r@ =~= seq![
                        VertexAttribute { location: 0, format: FORMAT_R32G32B32_SFLOAT, offset: 0 },
                    ]);
                }
            },
            VertexFormat::ColorCoords => {
                r.push(VertexAttribute { location: 0, format: FORMAT_R32G32B32_SFLOAT, offset: 0 });
                r.push(
                    VertexAttribute { location: 1, format: FORMAT_R32G32B32_SFLOAT, offset: 12 },
                );
                r.push(VertexAttribute { location: 2, format: FORMAT_R32G32_SFLOAT, offset: 24 });
                proof {
                    assert(r@ =~= seq![
                        VertexAttribute { location: 0, format: FORMAT_R32G32B32_SFLOAT, offset: 0 },
                        VertexAttribute { location: 1, format: FORMAT_R32G32B32_SFLOAT, offset: 12 },
                        VertexAttribute { location: 2, format: FORMAT_R32G32_SFLOAT, offset: 24 },
                    ]);
                }
            },
        }
        r
    }

}

} // verus!
