use vstd::prelude::*;
use crate::swap_chain::ViewportSize;

verus! {

/// `GL_TEXTURE_2D`.
pub const GL_TEXTURE_2D: u32 = 0x0DE1;

/// `GL_BACK`: the back colour buffer, which the host has just rendered.
pub const GL_BACK: u32 = 0x0404;

/// `GL_VIEWPORT`: the query for the current viewport rectangle.
pub const GL_VIEWPORT: u32 = 0x0BA2;

/// The state-changing steps of a pixel transfer, each followed by an error
/// check.
#[derive(Clone, Copy, Debug, PartialEq, Eq, Structural)]
pub enum GlStep {
    EnableTexture,
    ReadBuffer,
    BindTexture,
    CopyTexture,
}

/// A fatal condition of the frame pipeline. None of them can be recovered
/// from: the process is meant to stop.
#[derive(Clone, Copy, Debug, PartialEq, Eq, Structural)]
pub enum FrameError {
    /// The runtime handed out texture id zero.
    NullTexture,
    /// A viewport with a negative side.
    InvalidViewport(ViewportSize),
    /// No swap-chain pair has been allocated.
    NoSwapChains,
    /// The graphics API reported a non-zero error code after a step.
    Graphics { step: GlStep, code: u32 },
}

/// The framebuffer region copied into an eye texture: from the origin, of
/// the viewport's size.
#[derive(Clone, Copy, Debug, PartialEq, Eq, Structural)]
pub struct CopyRegion {
    pub texture: u32,
    pub width: u32,
    pub height: u32,
}

/// One graphics-API call of a pixel transfer, or an error check.
#[derive(Clone, Copy, Debug, PartialEq, Eq, Structural)]
pub enum GlCall {
    Enable(u32),
    Disable(u32),
    ReadBuffer(u32),
    BindTexture { target: u32, texture: u32 },
    /// Copy the framebuffer's `width` x `height` region at the origin into
    /// level 0 of the bound texture, at the origin.
    CopyTexSubImage2D { target: u32, width: u32, height: u32 },
    /// Read the error code and stop on a non-zero one.
    CheckError(GlStep),
}

/// The region to copy for `texture` at `size`, if both are usable.
pub open spec fn region_for(texture: u32, size: ViewportSize) -> Result<CopyRegion, FrameError> {
    if texture == 0 {
        Err(FrameError::NullTexture)
    } else if size.width < 0 || size.height < 0 {
        Err(FrameError::InvalidViewport(size))
    } else {
        Ok(CopyRegion { texture, width: size.width as u32, height: size.height as u32 })
    }
}

/// The calls of one transfer, with a check after every state change.
pub open spec fn transfer_calls_spec(region: CopyRegion) -> Seq<GlCall> {
    seq![
        GlCall::Enable(GL_TEXTURE_2D),
        GlCall::CheckError(GlStep::EnableTexture),
        GlCall::ReadBuffer(GL_BACK),
        GlCall::CheckError(GlStep::ReadBuffer),
        GlCall::BindTexture { target: GL_TEXTURE_2D, texture: region.texture },
        GlCall::CheckError(GlStep::BindTexture),
        GlCall::CopyTexSubImage2D { target: GL_TEXTURE_2D, width: region.width, height: region.height },
        GlCall::Disable(GL_TEXTURE_2D),
        GlCall::CheckError(GlStep::CopyTexture),
    ]
}

/// Validates the texture and viewport of a transfer.
pub fn copy_region(texture: u32, size: ViewportSize) -> (r: Result<CopyRegion, FrameError>)
    ensures
        r == region_for(texture, size),
{
    if texture == 0 {
        Err(FrameError::NullTexture)
    } else if size.width < 0 || size.height < 0 {
        Err(FrameError::InvalidViewport(size))
    } else {
        Ok(CopyRegion { texture, width: size.width as u32, height: size.height as u32 })
    }
}

/// The sequence of graphics-API calls that copies `region` into its texture.
pub fn transfer_calls(region: CopyRegion) -> (r: Vec<GlCall>)
    ensures
        r@ == transfer_calls_spec(region),
{
    let mut calls: Vec<GlCall> = Vec::new();
    calls.push(GlCall::Enable(GL_TEXTURE_2D));
    calls.push(GlCall::CheckError(GlStep::EnableTexture));
    calls.push(GlCall::ReadBuffer(GL_BACK));
    calls.push(GlCall::CheckError(GlStep::ReadBuffer));
    calls.push(GlCall::BindTexture { target: GL_TEXTURE_2D, texture: region.texture });
    calls.push(GlCall::CheckError(GlStep::BindTexture));
    calls.push(GlCall::CopyTexSubImage2D { target: GL_TEXTURE_2D, width: region.width, height: region.height });
    calls.push(GlCall::Disable(GL_TEXTURE_2D));
    calls.push(GlCall::CheckError(GlStep::CopyTexture));
    assert(calls@ =~= transfer_calls_spec(region));
    calls
}

/// Checks the error code read after `step`: any non-zero code is fatal.
pub fn check_error(code: u32, step: GlStep) -> (r: Result<(), FrameError>)
    ensures
        r is Ok <==> code == 0,
        r is Err ==> r == Err::<(), FrameError>(FrameError::Graphics { step, code }),
{
    if code != 0 {
        Err(FrameError::Graphics { step, code })
    } else {
        Ok(())
    }
}

} // verus!
