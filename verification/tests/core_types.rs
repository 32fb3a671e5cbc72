use soft::Dimensions;
use soft::PixelCoord;
use soft::Texture;
use soft::Triangle;
use soft::VertexBuffer;
use soft::WindingOrder;

#[test]
fn triangle_from_array() {
    let t: Triangle<u32> = Triangle::from([1u32, 2, 3]);
    assert_eq!(t.vertices, [1, 2, 3]);
}

#[test]
fn dimensions_from_array() {
    let d = Dimensions::from([4u32, 3]);
    assert_eq!(d.width, 4);
    assert_eq!(d.height, 3);
}

#[test]
fn pixel_coord_fields() {
    let p = PixelCoord { x: 2, y: 5 };
    assert_eq!(p.x, 2);
    assert_eq!(p.y, 5);
    assert_eq!(p, PixelCoord { x: 2, y: 5 });
}

#[test]
fn winding_orders_are_distinct() {
    assert_ne!(WindingOrder::Clockwise, WindingOrder::CounterClockwise);
}

#[test]
fn texture_new_and_texel() {
    let pixels: Vec<u32> = vec![10, 11, 12, 20, 21, 22];
    let tex = Texture::new(pixels, Dimensions { width: 3, height: 2 });
    assert_eq!(tex.texel(0, 0), 10);
    assert_eq!(tex.texel(1, 0), 11);
    assert_eq!(tex.texel(2, 0), 12);
    assert_eq!(tex.texel(0, 1), 20);
    assert_eq!(tex.texel(1, 1), 21);
    assert_eq!(tex.texel(2, 1), 22);
}

#[test]
fn texture_size_reports_extent() {
    let tex = Texture::new(vec![0u8; 12], Dimensions { width: 4, height: 3 });
    let size = tex.size();
    assert_eq!(size.width, 4);
    assert_eq!(size.height, 3);
}

#[test]
fn texture_clone_keeps_samples() {
    let tex = Texture::new(vec![7u32, 8], Dimensions { width: 1, height: 2 });
    let copy = tex.clone();
    assert_eq!(copy.size().width, 1);
    assert_eq!(copy.size().height, 2);
    assert_eq!(copy.texel(0, 0), 7);
    assert_eq!(copy.texel(0, 1), 8);
}

#[test]
fn vec_is_a_vertex_buffer() {
    let vertices: Vec<i64> = vec![100, 200, 300];
    assert!(vertices.has_vertex(0));
    assert!(vertices.has_vertex(2));
    assert!(!vertices.has_vertex(3));
    assert_eq!(vertices.get_vertex(1), 200);
}

#[test]
fn fetch_vertices_in_index_order() {
    let vertices: Vec<i64> = vec![100, 200, 300, 400];
    let indices: Triangle<u32> = Triangle::from([3u32, 0, 2]);
    let fetched = soft::fetch_vertices(&vertices, &indices);
    assert_eq!(fetched, [400, 100, 300]);
}
