use eulerian_fluid::grid::{
    domain_buffers, extent, placement, texel_format, BufferKind, DomainLayout, GridSize,
    LayoutError, Placement, TexelFormat,
};
use eulerian_fluid::overlay::{arrow_count, arrow_grid};

fn size(width: u32, height: u32) -> GridSize {
    GridSize { width, height }
}

#[test]
fn recommended_size_is_multiple_of_64() {
    assert!(size(128, 128).is_recommended());
    assert!(size(512, 64).is_recommended());
    assert!(!size(100, 128).is_recommended());
    assert!(!size(128, 65).is_recommended());
}

#[test]
fn layout_rejects_empty_grid() {
    assert_eq!(DomainLayout::new(size(0, 128)).unwrap_err(), LayoutError::EmptyGrid);
    assert_eq!(DomainLayout::new(size(128, 0)).unwrap_err(), LayoutError::EmptyGrid);
}

#[test]
fn layout_rejects_unrepresentable_faces() {
    assert_eq!(DomainLayout::new(size(u32::MAX, 4)).unwrap_err(), LayoutError::TooLarge);
    assert_eq!(DomainLayout::new(size(4, u32::MAX)).unwrap_err(), LayoutError::TooLarge);
}

#[test]
fn layout_has_staggered_velocity_buffers() {
    let layout = DomainLayout::new(size(128, 64)).unwrap();
    assert_eq!(layout.size, size(128, 64));
    assert_eq!(layout.buffers.len(), 15);
    assert_eq!(layout.buffer(BufferKind::U0).extent, size(129, 64));
    assert_eq!(layout.buffer(BufferKind::U1).extent, size(129, 64));
    assert_eq!(layout.buffer(BufferKind::USolid).extent, size(129, 64));
    assert_eq!(layout.buffer(BufferKind::V0).extent, size(128, 65));
    assert_eq!(layout.buffer(BufferKind::VSolid).extent, size(128, 65));
    assert_eq!(layout.buffer(BufferKind::P1).extent, size(128, 64));
    assert_eq!(layout.buffer(BufferKind::LevelsetAir0).extent, size(128, 64));
    for (spec, kind) in layout.buffers.iter().zip(domain_buffers()) {
        assert_eq!(spec.kind, kind);
        assert_eq!(spec.extent, extent(placement(kind), size(128, 64)));
    }
}

#[test]
fn solid_id_is_the_only_integer_buffer() {
    for kind in domain_buffers() {
        let expected = if kind == BufferKind::SolidId {
            TexelFormat::R32Sint
        } else {
            TexelFormat::R32Float
        };
        assert_eq!(texel_format(kind), expected);
    }
}

#[test]
fn extent_by_placement() {
    assert_eq!(extent(Placement::Center, size(7, 9)), size(7, 9));
    assert_eq!(extent(Placement::FaceX, size(7, 9)), size(8, 9));
    assert_eq!(extent(Placement::FaceY, size(7, 9)), size(7, 10));
}

#[test]
fn arrow_grid_divides_by_bin() {
    assert_eq!(arrow_grid(size(128, 64), size(8, 8)), Some(size(16, 8)));
    assert_eq!(arrow_grid(size(100, 100), size(8, 16)), Some(size(12, 6)));
    assert_eq!(arrow_grid(size(128, 64), size(0, 8)), None);
    assert_eq!(arrow_count(size(16, 8)), 128);
    assert_eq!(arrow_count(size(u32::MAX, 2)), 2 * u32::MAX as u64);
}
