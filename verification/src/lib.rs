//! Core data types and the discrete decision logic of a software triangle
//! rasterizer.
//!
//! The crate provides the value types that a scan-converting pipeline is
//! built from (triangles, pixel coordinates, surface extents, textures),
//! the addressing rules of nearest-neighbour texture lookup, the row-major
//! scan order of the rasterizer, and the winding-order rules of back-face
//! culling. Every function carries a contract that pins its result down,
//! and all of it is verified.
//!
//! The numeric stages of a rasterizer (clip-space transforms, perspective
//! division, barycentric weights) work on floating-point values, which the
//! verifier does not admit; a host program performs those stages and feeds
//! their discretised outcomes (pixel ranges, area signs, texel indices)
//! into the decision functions of this crate.
mod geometry;
mod grid;
mod raster;
mod texture;

pub use geometry::Dimensions;
pub use geometry::PixelCoord;
pub use geometry::Triangle;
pub use geometry::WindingOrder;
pub use grid::is_transpose;
pub use grid::lemma_transpose_involution;
pub use grid::transpose2;
pub use grid::transpose3;
pub use grid::transpose4;
pub use raster::VertexBuffer;
pub use raster::culls_back_face;
pub use raster::fetch_vertices;
pub use raster::lemma_scan_covers_pixel;
pub use raster::lemma_scan_in_box;
pub use raster::lemma_scan_no_repeat;
pub use raster::row_major_scan;
pub use raster::scanline_pixels;
pub use raster::winding_of_area_sign;
pub use texture::Texture;
