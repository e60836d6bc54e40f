//! The thread-safe variant: the window sits behind `Arc<RwLock<_>>`.

use std::sync::{Arc, RwLock, TryLockError};
use vstd::prelude::*;
use crate::output::{AccessError, CapabilityError, ClearMask, GammaMode, OutputModel, OutputState, after_set_gamma, gamma_allowed, size_from_report};

verus! {

/// std's `RwLock`, carried through as an opaque value.
#[verifier::external_type_specification]
#[verifier::external_body]
#[verifier::reject_recursive_types(T)]
pub struct ExRwLock<T: ?Sized>(RwLock<T>);

/// Relies on `RwLock::try_read` and piston's `Window::size`, read in whole
/// points through `From<Size> for (u32, u32)`: never waits; `WindowBusy`
/// where a writer holds the lock, `LockPoisoned` where it is poisoned.
#[verifier::external_body]
fn read_window_size<W: window::Window>(window: &RwLock<W>) -> (r: Result<(u32, u32), AccessError>)
    ensures
        r matches Err(e) ==> e == AccessError::WindowBusy || e == AccessError::LockPoisoned,
{
    match window.try_read() {
        Ok(w) => Ok(w.size().into()),
        Err(TryLockError::WouldBlock) => Err(AccessError::WindowBusy),
        Err(TryLockError::Poisoned(_)) => Err(AccessError::LockPoisoned),
    }
}

/// Relies on `RwLock::try_write` and piston's `Window::swap_buffers`: never
/// waits; `WindowBusy` where any other holder has the lock, `LockPoisoned`
/// where it is poisoned, and then nothing is swapped.
#[verifier::external_body]
fn swap_window_buffers<W: window::Window>(window: &RwLock<W>) -> (r: Result<(), AccessError>)
    ensures
        r matches Err(e) ==> e == AccessError::WindowBusy || e == AccessError::LockPoisoned,
{
    match window.try_write() {
        Ok(mut w) => Ok(w.swap_buffers()),
        Err(TryLockError::WouldBlock) => Err(AccessError::WindowBusy),
        Err(TryLockError::Poisoned(_)) => Err(AccessError::LockPoisoned),
    }
}

/// A render target over a window shared between threads.
///
/// Reads of the window (its size) take the lock shared and may run side by
/// side; buffer swaps and initialization take it exclusively. None of them
/// waits: where the lock is held in a conflicting way, they report
/// `WindowBusy`.
#[verifier::reject_recursive_types(W)]
pub struct SyncOutput<H, W> {
    /// The shared window reference.
    pub window: Arc<RwLock<W>>,
    output: OutputState<H>,
}

impl<H, W> View for SyncOutput<H, W> {
    type V = OutputModel<H>;

    closed spec fn view(&self) -> OutputModel<H> {
        self.output@
    }
}

impl<H, W> SyncOutput<H, W> {
    /// The window that the adapter was built around.
    pub closed spec fn window_ref(&self) -> Arc<RwLock<W>> {
        self.window
    }

    /// The adapter's state is well formed.
    pub open spec fn wf(&self) -> bool {
        self@.wf()
    }

    /// An adapter around `window` and the default framebuffer `frame`: all
    /// planes cleared, gamma `Original`, gamma conversion available.
    pub fn new(window: Arc<RwLock<W>>, frame: H) -> (r: SyncOutput<H, W>)
        ensures
            r.wf(),
            r.window_ref() == window,
            r@.frame == frame,
            r@.mask == ClearMask::full(),
            r@.gamma == GammaMode::Original,
            r@.supports_gamma_conversion,
    {
        SyncOutput { window, output: OutputState::new(frame) }
    }

    /// An adapter whose context does or does not support gamma conversion.
    pub fn with_gamma_support(window: Arc<RwLock<W>>, frame: H, supports_gamma_conversion: bool) -> (r: SyncOutput<H, W>)
        ensures
            r.wf(),
            r.window_ref() == window,
            r@.frame == frame,
            r@.mask == ClearMask::full(),
            r@.gamma == GammaMode::Original,
            r@.supports_gamma_conversion == supports_gamma_conversion,
    {
        SyncOutput { window, output: OutputState::with_gamma_support(frame, supports_gamma_conversion) }
    }

    /// Try to set the gamma mode. `Original` is always accepted; any other
    /// mode only where the context supports gamma conversion. On refusal the
    /// adapter is left untouched.
    pub fn set_gamma(&mut self, gamma: GammaMode) -> (r: Result<(), CapabilityError>)
        ensures
            final(self)@ == after_set_gamma(old(self)@, gamma),
            final(self).window_ref() == old(self).window_ref(),
            r is Ok <==> gamma_allowed(old(self)@.supports_gamma_conversion, gamma),
            r is Err ==> r == Err::<(), CapabilityError>(CapabilityError::GammaConversionUnsupported),
            old(self).wf() ==> final(self).wf(),
    {
        self.output.set_gamma(gamma)
    }

    /// The default framebuffer handle; always present.
    pub fn get_handle(&self) -> (r: Option<&H>)
        ensures
            r == Some(&self@.frame),
    {
        self.output.get_handle()
    }

    /// The planes that clear and present touch.
    pub fn get_mask(&self) -> (r: ClearMask)
        ensures
            r == self@.mask,
    {
        self.output.get_mask()
    }

    /// The current gamma mode.
    pub fn get_gamma(&self) -> (r: GammaMode)
        ensures
            r == self@.gamma,
    {
        self.output.get_gamma()
    }
}

impl<H, W: window::Window> SyncOutput<H, W> {
    /// The window's size at the time of the call, in the render target's
    /// size type. Takes the lock shared without waiting: `WindowBusy` where
    /// a writer holds it, `LockPoisoned` where it is poisoned.
    pub fn get_size(&self) -> (r: Result<(u16, u16), AccessError>)
        ensures
            r is Err ==> r == Err::<(u16, u16), AccessError>(AccessError::WindowBusy)
                || r == Err::<(u16, u16), AccessError>(AccessError::LockPoisoned),
    {
        size_from_report(read_window_size(&*self.window))
    }

    /// Presents the current frame under the exclusive lock, taken without
    /// waiting: `WindowBusy` where any other holder has it, `LockPoisoned`
    /// where it is poisoned. The adapter's own state is not changed.
    pub fn swap_buffers(&mut self) -> (r: Result<(), AccessError>)
        ensures
            final(self)@ == old(self)@,
            final(self).window_ref() == old(self).window_ref(),
            r is Err ==> r == Err::<(), AccessError>(AccessError::WindowBusy)
                || r == Err::<(), AccessError>(AccessError::LockPoisoned),
    {
        swap_window_buffers(&*self.window)
    }
}

} // verus!
