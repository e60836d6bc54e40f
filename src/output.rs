use vstd::prelude::*;

verus! {

/// Whether colour output is gamma-corrected before it reaches the screen.
#[derive(Clone, Copy, Debug, PartialEq, Eq, Structural)]
pub enum GammaMode {
    /// Colour values are written as they are.
    Original,
    /// Colour values undergo gamma conversion.
    Converted,
}

/// Which buffer planes take part in clear and present operations.
#[derive(Clone, Copy, Debug, PartialEq, Eq, Structural)]
pub struct ClearMask {
    pub color: bool,
    pub depth: bool,
    pub stencil: bool,
}

impl ClearMask {
    /// The mask with the colour, depth and stencil planes all set.
    pub open spec fn full() -> ClearMask {
        ClearMask { color: true, depth: true, stencil: true }
    }

    /// Colour, depth and stencil together.
    pub fn all() -> (r: ClearMask)
        ensures
            r == ClearMask::full(),
    {
        ClearMask { color: true, depth: true, stencil: true }
    }
}

/// Why a change of the adapter's settings was refused.
#[derive(Clone, Copy, Debug, PartialEq, Eq, Structural)]
pub enum CapabilityError {
    /// A gamma mode other than `Original` was asked of an adapter whose
    /// context cannot convert gamma.
    GammaConversionUnsupported,
}

/// Why the shared window could not be reached.
#[derive(Clone, Copy, Debug, PartialEq, Eq, Structural)]
pub enum AccessError {
    /// The window is borrowed in a way that conflicts with this access.
    WindowBusy,
    /// A holder of the lock panicked while it held it.
    LockPoisoned,
}

/// What an adapter holds, as seen by contracts.
pub struct OutputModel<H> {
    pub frame: H,
    pub mask: ClearMask,
    pub gamma: GammaMode,
    pub supports_gamma_conversion: bool,
}

impl<H> OutputModel<H> {
    /// Every plane is cleared, and the gamma mode is one the capability
    /// allows.
    pub open spec fn wf(self) -> bool {
        &&& self.mask == ClearMask::full()
        &&& gamma_allowed(self.supports_gamma_conversion, self.gamma)
    }
}

/// The state of one render target: the default framebuffer handle `H`, the
/// planes that clear and present touch, and the gamma setting with the
/// capability flag that gates it.
pub struct OutputState<H> {
    frame: H,
    mask: ClearMask,
    supports_gamma_conversion: bool,
    gamma: GammaMode,
}

impl<H> View for OutputState<H> {
    type V = OutputModel<H>;

    closed spec fn view(&self) -> OutputModel<H> {
        OutputModel {
            frame: self.frame,
            mask: self.mask,
            gamma: self.gamma,
            supports_gamma_conversion: self.supports_gamma_conversion,
        }
    }
}

/// Whether `mode` may be set on a target with the given capability.
pub open spec fn gamma_allowed(supports_gamma_conversion: bool, mode: GammaMode) -> bool {
    mode == GammaMode::Original || supports_gamma_conversion
}

/// The state after asking for gamma mode `mode`: changed when the mode is
/// allowed, left as it was otherwise.
pub open spec fn after_set_gamma<H>(m: OutputModel<H>, mode: GammaMode) -> OutputModel<H> {
    if gamma_allowed(m.supports_gamma_conversion, mode) {
        OutputModel { gamma: mode, ..m }
    } else {
        m
    }
}

impl<H> OutputState<H> {
    /// The mask is full and the gamma mode is one the capability allows.
    pub open spec fn wf(&self) -> bool {
        self@.wf()
    }

    /// A fresh target around `frame`: all planes cleared, gamma `Original`,
    /// gamma conversion available.
    pub fn new(frame: H) -> (r: OutputState<H>)
        ensures
            r.wf(),
            r@.frame == frame,
            r@.mask == ClearMask::full(),
            r@.gamma == GammaMode::Original,
            r@.supports_gamma_conversion,
    {
        OutputState::with_gamma_support(frame, true)
    }

    /// A fresh target around `frame` whose context does or does not support
    /// gamma conversion.
    pub fn with_gamma_support(frame: H, supports_gamma_conversion: bool) -> (r: OutputState<H>)
        ensures
            r.wf(),
            r@.frame == frame,
            r@.mask == ClearMask::full(),
            r@.gamma == GammaMode::Original,
            r@.supports_gamma_conversion == supports_gamma_conversion,
    {
        OutputState { frame, mask: ClearMask::all(), supports_gamma_conversion, gamma: GammaMode::Original }
    }

    /// Try to set the gamma mode. `Original` is always accepted; any other
    /// mode only where the context supports gamma conversion. On refusal the
    /// state is left untouched.
    pub fn set_gamma(&mut self, mode: GammaMode) -> (r: Result<(), CapabilityError>)
        ensures
            final(self)@ == after_set_gamma(old(self)@, mode),
            r is Ok <==> gamma_allowed(old(self)@.supports_gamma_conversion, mode),
            r is Err ==> r == Err::<(), CapabilityError>(CapabilityError::GammaConversionUnsupported),
            old(self).wf() ==> final(self).wf(),
    {
        if self.supports_gamma_conversion || mode == GammaMode::Original {
            self.gamma = mode;
            Ok(())
        } else {
            Err(CapabilityError::GammaConversionUnsupported)
        }
    }

    /// The default framebuffer handle; always present.
    pub fn get_handle(&self) -> (r: Option<&H>)
        ensures
            r == Some(&self@.frame),
    {
        Some(&self.frame)
    }

    /// The planes that clear and present touch.
    pub fn get_mask(&self) -> (r: ClearMask)
        ensures
            r == self@.mask,
    {
        self.mask
    }

    /// The current gamma mode.
    pub fn get_gamma(&self) -> (r: GammaMode)
        ensures
            r == self@.gamma,
    {
        self.gamma
    }

    /// Whether the context supports gamma conversion.
    pub fn supports_gamma_conversion(&self) -> (r: bool)
        ensures
            r == self@.supports_gamma_conversion,
    {
        self.supports_gamma_conversion
    }
}

/// A window dimension as a render-target dimension: the low 16 bits.
pub open spec fn target_dim(d: u32) -> u16 {
    (d % 0x1_0000) as u16
}

/// Converts the size a window reports into the render target's size type,
/// keeping the low 16 bits of each dimension.
pub fn to_target_size(width: u32, height: u32) -> (r: (u16, u16))
    ensures
        r == (target_dim(width), target_dim(height)),
{
    ((width % 0x1_0000) as u16, (height % 0x1_0000) as u16)
}

/// The render-target size for what the window reported: its size when it
/// could be read, the reason it could not otherwise.
pub fn size_from_report(report: Result<(u32, u32), AccessError>) -> (r: Result<(u16, u16), AccessError>)
    ensures
        match report {
            Ok((w, h)) => r == Ok::<(u16, u16), AccessError>((target_dim(w), target_dim(h))),
            Err(e) => r == Err::<(u16, u16), AccessError>(e),
        },
{
    match report {
        Ok((w, h)) => Ok(to_target_size(w, h)),
        Err(e) => Err(e),
    }
}

/// Every well-formed adapter clears colour, depth and stencil together,
/// never a subset of them.
pub proof fn lemma_clear_mask_is_full<H>(m: OutputModel<H>)
    requires
        m.wf(),
    ensures
        m.mask == ClearMask::full(),
        m.mask.color && m.mask.depth && m.mask.stencil,
{
}

/// Asking for `Original` gamma always succeeds, whatever the capability
/// flag, and leaves the mode at `Original`.
pub proof fn lemma_original_gamma_always_accepted<H>(m: OutputModel<H>)
    ensures
        gamma_allowed(m.supports_gamma_conversion, GammaMode::Original),
        after_set_gamma(m, GammaMode::Original).gamma == GammaMode::Original,
{
}

/// Asking for converted gamma succeeds exactly when the context supports
/// gamma conversion; when it fails, nothing changes, so the gamma mode read
/// afterwards is the one before the call.
pub proof fn lemma_converted_gamma_needs_support<H>(m: OutputModel<H>)
    ensures
        gamma_allowed(m.supports_gamma_conversion, GammaMode::Converted) <==> m.supports_gamma_conversion,
        m.supports_gamma_conversion ==> after_set_gamma(m, GammaMode::Converted).gamma == GammaMode::Converted,
        !m.supports_gamma_conversion ==> after_set_gamma(m, GammaMode::Converted) == m,
{
}

/// A change of gamma setting keeps the framebuffer handle, the mask and the
/// capability flag, and keeps the state well formed: the handle read after
/// any number of settings is the one the adapter was built with.
pub proof fn lemma_set_gamma_keeps_handle<H>(m: OutputModel<H>, mode: GammaMode)
    ensures
        after_set_gamma(m, mode).frame == m.frame,
        after_set_gamma(m, mode).mask == m.mask,
        after_set_gamma(m, mode).supports_gamma_conversion == m.supports_gamma_conversion,
        m.wf() ==> after_set_gamma(m, mode).wf(),
{
}

/// Two window sizes that differ, each dimension within the render target's
/// size type, give two different render-target sizes: a resize between two
/// reads is seen.
pub proof fn lemma_resize_is_observed(w1: u32, h1: u32, w2: u32, h2: u32)
    requires
        w1 <= u16::MAX && h1 <= u16::MAX && w2 <= u16::MAX && h2 <= u16::MAX,
        w1 != w2 || h1 != h2,
    ensures
        (target_dim(w1), target_dim(h1)) != (target_dim(w2), target_dim(h2)),
{
}

} // verus!
