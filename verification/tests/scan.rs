use soft::PixelCoord;
use soft::WindingOrder;

#[test]
fn scanline_is_row_major() {
    let pixels = soft::scanline_pixels(1, 3, 5, 7);
    let expected: Vec<PixelCoord> = vec![
        PixelCoord { x: 1, y: 5 },
        PixelCoord { x: 2, y: 5 },
        PixelCoord { x: 1, y: 6 },
        PixelCoord { x: 2, y: 6 },
    ];
    assert_eq!(pixels, expected);
}

#[test]
fn scanline_of_empty_box_is_empty() {
    assert_eq!(soft::scanline_pixels(4, 4, 0, 9).len(), 0);
    assert_eq!(soft::scanline_pixels(0, 9, 4, 4).len(), 0);
}

#[test]
fn scanline_of_single_pixel_box() {
    let pixels = soft::scanline_pixels(0, 1, 0, 1);
    assert_eq!(pixels, vec![PixelCoord { x: 0, y: 0 }]);
}

#[test]
fn scanline_covers_a_surface_once() {
    let width: u32 = 4;
    let height: u32 = 3;
    let pixels = soft::scanline_pixels(0, width, 0, height);
    assert_eq!(pixels.len(), (width * height) as usize);
    for y in 0..height {
        for x in 0..width {
            let hits: usize = pixels.iter().filter(|p| p.x == x && p.y == y).count();
            assert_eq!(hits, 1);
        }
    }
}

#[test]
fn positive_area_winds_clockwise() {
    assert_eq!(soft::winding_of_area_sign(true), WindingOrder::Clockwise);
    assert_eq!(soft::winding_of_area_sign(false), WindingOrder::CounterClockwise);
}

#[test]
fn culling_discards_only_mismatched_windings() {
    assert!(!soft::culls_back_face(None, WindingOrder::Clockwise));
    assert!(!soft::culls_back_face(None, WindingOrder::CounterClockwise));
    assert!(!soft::culls_back_face(
        Some(WindingOrder::Clockwise),
        WindingOrder::Clockwise
    ));
    assert!(soft::culls_back_face(
        Some(WindingOrder::Clockwise),
        WindingOrder::CounterClockwise
    ));
    assert!(soft::culls_back_face(
        Some(WindingOrder::CounterClockwise),
        WindingOrder::Clockwise
    ));
}
