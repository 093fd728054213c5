use vstd::prelude::*;
use crate::surface::SurfaceError;

verus! {

/// The status code of a native graphics call; zero means success.
pub type HRESULT = i32;

/// The success status.
pub const S_OK: HRESULT = 0;

/// A failed native call, with its status code.
#[derive(Clone, Copy, Debug, PartialEq, Eq, Structural)]
pub struct HResultError {
    pub res: HRESULT,
}

impl HResultError {
    pub fn new(hr: HRESULT) -> (r: HResultError)
        ensures
            r.res == hr,
    {
        HResultError { res: hr }
    }

    /// The status code the native call returned.
    pub fn code(&self) -> (r: HRESULT)
        ensures
            r == self.res,
    {
        self.res
    }

    pub fn description(&self) -> (r: &'static str)
        ensures
            r@ == "Windows error"@,
    {
        "Windows error"
    }
}

/// Turns a status into a `Result`, building the success value only on
/// success.
pub trait IntoResult<E>: Sized {
    /// Whether the status reports success.
    spec fn succeeded(&self) -> bool;

    /// The error a failed status becomes.
    spec fn failure(&self) -> E;

    fn into_result<T, F: FnOnce() -> T>(self, f: F) -> (r: Result<T, E>)
        requires
            self.succeeded() ==> f.requires(()),
        ensures
            self.succeeded() ==> (r matches Ok(v) && f.ensures((), v)),
            !self.succeeded() ==> r == Err::<T, E>(self.failure()),
    ;
}

impl IntoResult<HResultError> for HRESULT {
    open spec fn succeeded(&self) -> bool {
        *self == S_OK
    }

    open spec fn failure(&self) -> HResultError {
        HResultError { res: *self }
    }

    fn into_result<T, F: FnOnce() -> T>(self, f: F) -> (r: Result<T, HResultError>) {
        if self == S_OK {
            Ok(f())
        } else {
            Err(HResultError { res: self })
        }
    }
}

/// Why a render context, font or text layout could not be made.
#[derive(Clone, Copy, Debug, PartialEq, Eq, Structural)]
pub enum RenderError {
    /// No window system that a surface can bind to is present.
    NoWindowSystem,
    /// The surface could not be created.
    Surface(SurfaceError),
    /// A native graphics call failed.
    Native(HResultError),
}

impl From<HResultError> for RenderError {
    fn from(e: HResultError) -> (r: RenderError) {
        RenderError::Native(e)
    }
}

impl vstd::std_specs::convert::FromSpecImpl<HResultError> for RenderError {
    open spec fn obeys_from_spec() -> bool {
        true
    }

    open spec fn from_spec(e: HResultError) -> RenderError {
        RenderError::Native(e)
    }
}

} // verus!
