use cursor_icon::CursorIcon;
use smithay_client_toolkit::seat::pointer::PointerThemeError;
use wayland_backend_core::{CursorRequest, CursorTarget, GenericPointer, PointerDevice, PointerState};

fn device(object: u64, surface: u64, serial: u32) -> PointerDevice {
    PointerDevice { object, surface, data: PointerState { latest_enter_serial: serial }, icon: None }
}

#[test]
fn default_pointers_on_one_object_are_equal() {
    assert!(GenericPointer::Default(device(7, 1, 10)) == GenericPointer::Default(device(7, 2, 20)));
    assert!(GenericPointer::Default(device(7, 1, 10)) != GenericPointer::Default(device(8, 1, 10)));
}

#[test]
fn tablet_tools_compare_by_tool_object() {
    assert!(GenericPointer::Tablet(device(9, 1, 1)) == GenericPointer::Tablet(device(9, 5, 3)));
    assert!(GenericPointer::Tablet(device(9, 1, 1)) != GenericPointer::Tablet(device(4, 1, 1)));
}

#[test]
fn pointer_and_tablet_are_never_equal() {
    assert!(GenericPointer::Default(device(7, 1, 10)) != GenericPointer::Tablet(device(7, 1, 10)));
    assert!(GenericPointer::Tablet(device(7, 1, 10)) != GenericPointer::Default(device(7, 1, 10)));
}

#[test]
fn clear_uses_each_device_own_serial() {
    let mut a = GenericPointer::Default(device(1, 11, 0));
    let mut b = GenericPointer::Tablet(device(2, 12, 0));
    a.record_enter(41);
    b.record_enter(99);
    assert_eq!(
        a.clear_cursor(),
        CursorRequest { target: CursorTarget::Pointer(1), serial: 41, surface: None, hotspot_x: 0, hotspot_y: 0 }
    );
    assert_eq!(
        b.clear_cursor(),
        CursorRequest { target: CursorTarget::TabletTool(2), serial: 99, surface: None, hotspot_x: 0, hotspot_y: 0 }
    );
}

#[test]
fn raw_request_goes_to_own_object() {
    let p = GenericPointer::Tablet(device(5, 6, 3));
    assert_eq!(
        p.set_cursor_raw(17, Some(33), 4, -2),
        CursorRequest { target: CursorTarget::TabletTool(5), serial: 17, surface: Some(33), hotspot_x: 4, hotspot_y: -2 }
    );
}

#[test]
fn surface_and_data_are_read_from_either_variant() {
    let p = GenericPointer::Default(device(5, 6, 3));
    let t = GenericPointer::Tablet(device(8, 9, 12));
    assert_eq!(p.surface(), 6);
    assert_eq!(t.surface(), 9);
    assert_eq!(p.winit_data().latest_enter_serial(), 3);
    assert_eq!(t.winit_data().latest_enter_serial(), 12);
}

#[test]
fn record_enter_replaces_serial_only() {
    let mut p = GenericPointer::Default(device(5, 6, 3));
    p.record_enter(8);
    assert_eq!(p.winit_data().latest_enter_serial, 8);
    assert_eq!(p.surface(), 6);
    assert!(p == GenericPointer::Default(device(5, 0, 0)));
}

#[test]
fn failed_theme_lookup_keeps_previous_cursor() {
    let mut p = GenericPointer::Default(device(5, 6, 3));
    assert!(p.set_cursor(CursorIcon::Pointer, Ok(())).is_ok());
    let r = p.set_cursor(CursorIcon::Wait, Err(PointerThemeError::CursorNotFound));
    assert!(matches!(r, Err(PointerThemeError::CursorNotFound)));
    assert_eq!(p.icon(), Some(CursorIcon::Pointer));
    assert_eq!(p.winit_data().latest_enter_serial, 3);
}

#[test]
fn successful_theme_lookup_sets_cursor() {
    let mut p = GenericPointer::Tablet(device(5, 6, 3));
    assert_eq!(p.icon(), None);
    assert!(p.set_cursor(CursorIcon::Text, Ok(())).is_ok());
    assert_eq!(p.icon(), Some(CursorIcon::Text));
}
