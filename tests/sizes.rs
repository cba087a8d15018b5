use wayland_backend_core::{logical_to_physical_rounded, LogicalSize, PhysicalSize, ScaleFactor};

fn convert(width: u32, height: u32, numerator: u32, denominator: u32) -> PhysicalSize {
    logical_to_physical_rounded(LogicalSize { width, height }, ScaleFactor { numerator, denominator })
}

#[test]
fn zero_size_stays_zero() {
    for (n, d) in [(1, 1), (3, 2), (1333, 1000), (0, 7), (u32::MAX, 1)] {
        assert_eq!(convert(0, 0, n, d), PhysicalSize { width: 0, height: 0 });
    }
}

#[test]
fn exact_product_is_kept() {
    assert_eq!(convert(10, 10, 3, 2), PhysicalSize { width: 15, height: 15 });
}

#[test]
fn rounds_rather_than_floors() {
    assert_eq!(convert(3, 3, 1333, 1000), PhysicalSize { width: 4, height: 4 });
}

#[test]
fn half_rounds_away_from_zero() {
    assert_eq!(convert(1, 3, 1, 2), PhysicalSize { width: 1, height: 2 });
}

#[test]
fn below_half_rounds_down() {
    assert_eq!(convert(1, 4, 1, 3), PhysicalSize { width: 0, height: 1 });
}

#[test]
fn axes_convert_independently() {
    assert_eq!(convert(800, 600, 150, 120), PhysicalSize { width: 1000, height: 750 });
}

#[test]
fn oversized_result_saturates() {
    assert_eq!(convert(u32::MAX, 2, 2, 1), PhysicalSize { width: u32::MAX, height: 4 });
}
