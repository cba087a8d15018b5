use std::sync::Arc;
use vstd::prelude::*;
use vstd::string::to_string_from_display_ensures;
use wayland_client::globals::{BindError, GlobalError};
use wayland_client::backend::WaylandError as WireError;
use wayland_client::{ConnectError, DispatchError};

verus! {

#[verifier::external_type_specification]
#[verifier::external_body]
pub struct ExConnectError(ConnectError);

#[verifier::external_type_specification]
#[verifier::external_body]
pub struct ExGlobalError(GlobalError);

#[verifier::external_type_specification]
#[verifier::external_body]
pub struct ExBindError(BindError);

#[verifier::external_type_specification]
#[verifier::external_body]
pub struct ExDispatchError(DispatchError);

#[verifier::external_type_specification]
#[verifier::external_body]
pub struct ExCalloopError(calloop::Error);

#[verifier::external_type_specification]
#[verifier::external_body]
pub struct ExWireError(WireError);

/// Every failure this backend can surface, one variant per source.
#[derive(Debug)]
pub enum WaylandError {
    /// Error connecting to the socket.
    Connection(ConnectError),
    /// A required global could not be looked up.
    Global(GlobalError),
    /// A global was found but binding it failed.
    Bind(BindError),
    /// Error while dispatching the event queue.
    Dispatch(DispatchError),
    /// The event-loop driver failed.
    Calloop(calloop::Error),
    /// A fatal error reported by the wire transport.
    Wire(WireError),
}

/// `text` is what the wrapped condition of `e` renders as its own message.
pub open spec fn describes(e: &WaylandError, text: String) -> bool {
    match e {
        WaylandError::Connection(c) => to_string_from_display_ensures::<ConnectError>(c, text),
        WaylandError::Global(c) => to_string_from_display_ensures::<GlobalError>(c, text),
        WaylandError::Bind(c) => to_string_from_display_ensures::<BindError>(c, text),
        WaylandError::Dispatch(c) => to_string_from_display_ensures::<DispatchError>(c, text),
        WaylandError::Calloop(c) => to_string_from_display_ensures::<calloop::Error>(c, text),
        WaylandError::Wire(c) => to_string_from_display_ensures::<WireError>(c, text),
    }
}

impl WaylandError {
    /// The human-readable message: the wrapped condition's own description.
    pub fn message(&self) -> (r: String)
        ensures
            describes(self, r),
    {
        match self {
            WaylandError::Connection(c) => c.to_string(),
            WaylandError::Global(c) => c.to_string(),
            WaylandError::Bind(c) => c.to_string(),
            WaylandError::Dispatch(c) => c.to_string(),
            WaylandError::Calloop(c) => c.to_string(),
            WaylandError::Wire(c) => c.to_string(),
        }
    }
}

/// The platform-independent error, which shares ownership of the backend
/// error it wraps.
#[derive(Debug, Clone)]
pub enum OsError {
    WaylandError(Arc<WaylandError>),
}

impl OsError {
    /// The message of the wrapped backend error.
    pub fn message(&self) -> (r: String)
        ensures
            match self {
                OsError::WaylandError(e) => describes(&**e, r),
            },
    {
        match self {
            OsError::WaylandError(e) => e.message(),
        }
    }
}

impl From<WaylandError> for OsError {
    fn from(value: WaylandError) -> (r: Self) {
        OsError::WaylandError(Arc::new(value))
    }
}

impl vstd::std_specs::convert::FromSpecImpl<WaylandError> for OsError {
    open spec fn obeys_from_spec() -> bool {
        true
    }

    open spec fn from_spec(v: WaylandError) -> OsError {
        OsError::WaylandError(Arc::new(v))
    }
}

/// Converting keeps the backend error itself: whatever describes the
/// original error describes the converted one, variant by variant.
pub proof fn lemma_conversion_keeps_message(e: WaylandError, text: String)
    ensures
        match <OsError as vstd::std_specs::convert::FromSpec<WaylandError>>::from_spec(e) {
            OsError::WaylandError(inner) => *inner == e && (describes(&*inner, text)
                <==> describes(&e, text)),
        },
{
}

} // verus!
