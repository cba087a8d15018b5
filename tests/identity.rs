use wayland_backend_core::{make_wid, DeviceId, WindowId};

#[test]
fn distinct_surfaces_give_distinct_ids() {
    assert_ne!(make_wid(0x1000), make_wid(0x2000));
}

#[test]
fn same_surface_gives_same_id() {
    assert_eq!(make_wid(0x1000), make_wid(0x1000));
    assert_eq!(make_wid(0x1000), WindowId(0x1000));
}

#[test]
fn device_id_is_a_single_value() {
    assert_eq!(DeviceId::dummy(), DeviceId::dummy());
    assert_eq!(DeviceId::dummy(), DeviceId);
}
