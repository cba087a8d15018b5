use cursor_icon::CursorIcon;
use smithay_client_toolkit::seat::pointer::PointerThemeError;
use vstd::prelude::*;
use vstd::std_specs::cmp::PartialEqSpec;

verus! {

#[verifier::external_type_specification]
#[verifier::external_body]
pub struct ExCursorIcon(CursorIcon);

#[verifier::external_type_specification]
#[verifier::external_body]
pub struct ExPointerThemeError(PointerThemeError);

/// Bookkeeping kept for each cursor device.
#[derive(Debug, Clone, Copy, PartialEq, Eq, Structural)]
pub struct PointerState {
    /// Serial of the most recent enter event the device received.
    pub latest_enter_serial: u32,
}

impl PointerState {
    pub fn latest_enter_serial(&self) -> (r: u32)
        ensures
            r == self.latest_enter_serial,
    {
        self.latest_enter_serial
    }
}

/// What the backend knows of one cursor device: the identity of the protocol
/// object that takes cursor requests, the surface that renders its cursor,
/// its bookkeeping, and the themed icon last assigned to it.
#[derive(Debug)]
pub struct PointerDevice {
    pub object: u64,
    pub surface: u64,
    pub data: PointerState,
    pub icon: Option<CursorIcon>,
}

/// A cursor-bearing input device: an ordinary themed pointer or a tablet tool.
#[derive(Debug)]
pub enum GenericPointer {
    Default(PointerDevice),
    Tablet(PointerDevice),
}

/// The protocol object that a cursor request is sent to.
#[derive(Debug, Clone, Copy, PartialEq, Eq, Structural)]
pub enum CursorTarget {
    /// A `wl_pointer`, by object identity.
    Pointer(u64),
    /// A tablet tool, by object identity.
    TabletTool(u64),
}

/// One low-level "set cursor" request: `surface` of `None` hides the cursor.
#[derive(Debug, Clone, Copy, PartialEq, Eq, Structural)]
pub struct CursorRequest {
    pub target: CursorTarget,
    pub serial: u32,
    pub surface: Option<u64>,
    pub hotspot_x: i32,
    pub hotspot_y: i32,
}

impl GenericPointer {
    pub open spec fn device(&self) -> &PointerDevice {
        match self {
            GenericPointer::Default(d) => d,
            GenericPointer::Tablet(d) => d,
        }
    }

    pub open spec fn target(&self) -> CursorTarget {
        match self {
            GenericPointer::Default(d) => CursorTarget::Pointer(d.object),
            GenericPointer::Tablet(d) => CursorTarget::TabletTool(d.object),
        }
    }

    pub open spec fn raw_request(
        &self,
        serial: u32,
        surface: Option<u64>,
        hotspot_x: i32,
        hotspot_y: i32,
    ) -> CursorRequest {
        CursorRequest { target: self.target(), serial, surface, hotspot_x, hotspot_y }
    }

    /// The request that hides this device's cursor.
    pub open spec fn clear_request(&self) -> CursorRequest {
        self.raw_request(self.device().data.latest_enter_serial, None, 0, 0)
    }

    /// `d` in the variant of this device.
    pub open spec fn with_device(&self, d: PointerDevice) -> GenericPointer {
        match self {
            GenericPointer::Default(_) => GenericPointer::Default(d),
            GenericPointer::Tablet(_) => GenericPointer::Tablet(d),
        }
    }

    /// This device after an enter event with `serial`.
    pub open spec fn entered(&self, serial: u32) -> GenericPointer {
        self.with_device(
            PointerDevice {
                data: PointerState { latest_enter_serial: serial },
                ..*self.device()
            },
        )
    }

    /// This device with `icon` as its themed cursor.
    pub open spec fn with_icon(&self, icon: CursorIcon) -> GenericPointer {
        self.with_device(PointerDevice { icon: Some(icon), ..*self.device() })
    }

    /// The surface that renders this device's cursor.
    pub fn surface(&self) -> (r: u64)
        ensures
            r == self.device().surface,
    {
        match self {
            GenericPointer::Default(d) => d.surface,
            GenericPointer::Tablet(d) => d.surface,
        }
    }

    /// The device's bookkeeping, whichever variant holds it.
    pub fn winit_data(&self) -> (r: &PointerState)
        ensures
            *r == self.device().data,
    {
        match self {
            GenericPointer::Default(d) => &d.data,
            GenericPointer::Tablet(d) => &d.data,
        }
    }

    /// The cursor icon last assigned through the theme, if any.
    pub fn icon(&self) -> (r: Option<CursorIcon>)
        ensures
            r == self.device().icon,
    {
        match self {
            GenericPointer::Default(d) => d.icon,
            GenericPointer::Tablet(d) => d.icon,
        }
    }

    /// The "set cursor" request to send to this device's own protocol object,
    /// with the given serial, surface and hotspot, bypassing the theme.
    pub fn set_cursor_raw(&self, serial: u32, surface: Option<u64>, hotspot_x: i32, hotspot_y: i32) -> (r:
        CursorRequest)
        ensures
            r == self.raw_request(serial, surface, hotspot_x, hotspot_y),
    {
        let target = match self {
            GenericPointer::Default(d) => CursorTarget::Pointer(d.object),
            GenericPointer::Tablet(d) => CursorTarget::TabletTool(d.object),
        };
        CursorRequest { target, serial, surface, hotspot_x, hotspot_y }
    }

    /// The request that hides the cursor, made with the device's own latest
    /// enter serial.
    pub fn clear_cursor(&self) -> (r: CursorRequest)
        ensures
            r == self.clear_request(),
    {
        let serial = self.winit_data().latest_enter_serial();
        self.set_cursor_raw(serial, None, 0, 0)
    }

    /// Records the serial of an enter event on this device.
    pub fn record_enter(&mut self, serial: u32)
        ensures
            *final(self) == old(self).entered(serial),
    {
        match self {
            GenericPointer::Default(d) => d.data.latest_enter_serial = serial,
            GenericPointer::Tablet(d) => d.data.latest_enter_serial = serial,
        }
    }

    /// Completes a themed cursor assignment of `icon`, given what resolving
    /// and attaching it through the theme gave. On success the icon becomes
    /// the device's cursor; on failure the error is handed back and the
    /// device is left as it was.
    pub fn set_cursor(&mut self, icon: CursorIcon, applied: Result<(), PointerThemeError>) -> (r:
        Result<(), PointerThemeError>)
        ensures
            r == applied,
            applied is Ok ==> *final(self) == old(self).with_icon(icon),
            applied is Err ==> *final(self) == *old(self),
    {
        if applied.is_ok() {
            match self {
                GenericPointer::Default(d) => d.icon = Some(icon),
                GenericPointer::Tablet(d) => d.icon = Some(icon),
            }
        }
        applied
    }
}

impl PartialEq for GenericPointer {
    fn eq(&self, other: &GenericPointer) -> (r: bool) {
        match (self, other) {
            (GenericPointer::Default(a), GenericPointer::Default(b)) => a.object == b.object,
            (GenericPointer::Tablet(a), GenericPointer::Tablet(b)) => a.object == b.object,
            _ => false,
        }
    }
}

impl vstd::std_specs::cmp::PartialEqSpecImpl for GenericPointer {
    open spec fn obeys_eq_spec() -> bool {
        true
    }

    open spec fn eq_spec(&self, other: &GenericPointer) -> bool {
        match (self, other) {
            (GenericPointer::Default(a), GenericPointer::Default(b)) => a.object == b.object,
            (GenericPointer::Tablet(a), GenericPointer::Tablet(b)) => a.object == b.object,
            _ => false,
        }
    }
}

/// Two pointers of the same variant are equal exactly when their protocol
/// objects are the same; a pointer and a tablet tool are never equal.
pub proof fn lemma_pointer_equality(a: GenericPointer, b: GenericPointer)
    ensures
        (a is Default && b is Default) ==> (a.eq_spec(&b) <==> a.device().object
            == b.device().object),
        (a is Tablet && b is Tablet) ==> (a.eq_spec(&b) <==> a.device().object
            == b.device().object),
        (a is Default && b is Tablet) ==> !a.eq_spec(&b),
        (a is Tablet && b is Default) ==> !a.eq_spec(&b),
{
}

/// Clearing a device's cursor always uses that device's own latest enter
/// serial and targets its own object, whatever any other device recorded.
pub proof fn lemma_clear_uses_own_serial(a: GenericPointer, b: GenericPointer)
    ensures
        a.clear_request().serial == a.device().data.latest_enter_serial,
        b.clear_request().serial == b.device().data.latest_enter_serial,
        a.clear_request().target == a.target(),
        a.clear_request().surface is None,
        a.device().data.latest_enter_serial != b.device().data.latest_enter_serial
            ==> a.clear_request() != b.clear_request(),
{
}

} // verus!
