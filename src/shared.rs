//! The variant for one thread: the window sits behind `Rc<RefCell<_>>`.

use std::cell::RefCell;
use std::rc::Rc;
use vstd::prelude::*;
use crate::output::{AccessError, CapabilityError, ClearMask, GammaMode, OutputModel, OutputState, after_set_gamma, gamma_allowed, size_from_report};

verus! {

/// std's `RefCell`, carried through as an opaque value.
#[verifier::external_type_specification]
#[verifier::external_body]
#[verifier::reject_recursive_types(T)]
pub struct ExRefCell<T: ?Sized>(RefCell<T>);

/// Relies on `RefCell::try_borrow` and piston's `Window::size`, read in
/// whole points through `From<Size> for (u32, u32)`: `WindowBusy` where the
/// window is mutably borrowed.
#[verifier::external_body]
fn read_window_size<W: window::Window>(window: &RefCell<W>) -> (r: Result<(u32, u32), AccessError>)
    ensures
        r matches Err(e) ==> e == AccessError::WindowBusy,
{
    match window.try_borrow() {
        Ok(w) => Ok(w.size().into()),
        Err(_) => Err(AccessError::WindowBusy),
    }
}

/// Relies on `RefCell::try_borrow_mut` and piston's `Window::swap_buffers`:
/// `WindowBusy` where the window is already borrowed, and then nothing is
/// swapped.
#[verifier::external_body]
fn swap_window_buffers<W: window::Window>(window: &RefCell<W>) -> (r: Result<(), AccessError>)
    ensures
        r matches Err(e) ==> e == AccessError::WindowBusy,
{
    match window.try_borrow_mut() {
        Ok(mut w) => Ok(w.swap_buffers()),
        Err(_) => Err(AccessError::WindowBusy),
    }
}

/// A render target over a window shared by simple reference counting.
///
/// Not thread-safe: the window may be borrowed by several holders of one
/// thread, and a read that overlaps a write fails when the borrow is taken.
#[verifier::reject_recursive_types(W)]
pub struct SharedOutput<H, W> {
    /// The shared window reference.
    pub window: Rc<RefCell<W>>,
    output: OutputState<H>,
}

impl<H, W> View for SharedOutput<H, W> {
    type V = OutputModel<H>;

    closed spec fn view(&self) -> OutputModel<H> {
        self.output@
    }
}

impl<H, W> SharedOutput<H, W> {
    /// The window that the adapter was built around.
    pub closed spec fn window_ref(&self) -> Rc<RefCell<W>> {
        self.window
    }

    /// The adapter's state is well formed.
    pub open spec fn wf(&self) -> bool {
        self@.wf()
    }

    /// An adapter around `window` and the default framebuffer `frame`: all
    /// planes cleared, gamma `Original`, gamma conversion available.
    pub fn new(window: Rc<RefCell<W>>, frame: H) -> (r: SharedOutput<H, W>)
        ensures
            r.wf(),
            r.window_ref() == window,
            r@.frame == frame,
            r@.mask == ClearMask::full(),
            r@.gamma == GammaMode::Original,
            r@.supports_gamma_conversion,
    {
        SharedOutput { window, output: OutputState::new(frame) }
    }

    /// An adapter whose context does or does not support gamma conversion.
    pub fn with_gamma_support(window: Rc<RefCell<W>>, frame: H, supports_gamma_conversion: bool) -> (r: SharedOutput<H, W>)
        ensures
            r.wf(),
            r.window_ref() == window,
            r@.frame == frame,
            r@.mask == ClearMask::full(),
            r@.gamma == GammaMode::Original,
            r@.supports_gamma_conversion == supports_gamma_conversion,
    {
        SharedOutput { window, output: OutputState::with_gamma_support(frame, supports_gamma_conversion) }
    }

    /// Try to set the gamma mode. `Original` is always accepted; any other
    /// mode only where the context supports gamma conversion. On refusal the
    /// adapter is left untouched.
    pub fn set_gamma(&mut self, gamma: GammaMode) -> (r: Result<(), CapabilityError>)
        ensures
            final(self)@ == after_set_gamma(old(self)@, gamma),
            final(self).window_ref() == old(self).window_ref(),
            r is Ok <==> gamma_allowed(old(self)@.supports_gamma_conversion, gamma),
            r is Err ==> r == Err::<(), CapabilityError>(CapabilityError::GammaConversionUnsupported),
            old(self).wf() ==> final(self).wf(),
    {
        self.output.set_gamma(gamma)
    }

    /// The default framebuffer handle; always present.
    pub fn get_handle(&self) -> (r: Option<&H>)
        ensures
            r == Some(&self@.frame),
    {
        self.output.get_handle()
    }

    /// The planes that clear and present touch.
    pub fn get_mask(&self) -> (r: ClearMask)
        ensures
            r == self@.mask,
    {
        self.output.get_mask()
    }

    /// The current gamma mode.
    pub fn get_gamma(&self) -> (r: GammaMode)
        ensures
            r == self@.gamma,
    {
        self.output.get_gamma()
    }
}

impl<H, W: window::Window> SharedOutput<H, W> {
    /// The window's size at the time of the call, in the render target's
    /// size type; `WindowBusy` where the window is mutably borrowed.
    pub fn get_size(&self) -> (r: Result<(u16, u16), AccessError>)
        ensures
            r is Err ==> r == Err::<(u16, u16), AccessError>(AccessError::WindowBusy),
    {
        size_from_report(read_window_size(&*self.window))
    }

    /// Presents the current frame; `WindowBusy` where the window is already
    /// borrowed. The adapter's own state is not changed.
    pub fn swap_buffers(&mut self) -> (r: Result<(), AccessError>)
        ensures
            final(self)@ == old(self)@,
            final(self).window_ref() == old(self).window_ref(),
            r is Err ==> r == Err::<(), AccessError>(AccessError::WindowBusy),
    {
        swap_window_buffers(&*self.window)
    }
}

} // verus!
