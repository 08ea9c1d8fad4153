//! Surface and device context: the configuration record of the presentation
//! surface, its resize protocol, shader-compilation requests, and the
//! classification of presentable-image acquisition failures.
//!
//! The live GPU connection (instance, adapter, device, queue, surface) is
//! driver state that the unverified shell owns; this module holds the part
//! of the context whose behaviour is specified: the configuration the
//! surface must be kept at, and the decisions taken when it changes or
//! fails.

use vstd::prelude::*;

use crate::label::Label;
use crate::Size2D;

verus! {

/// A pixel format. The offscreen image always uses 8-bit RGBA; the
/// presentation surface uses whatever format the driver reports first as
/// supported, carried as an opaque code chosen by the shell.
#[derive(Clone, Copy, PartialEq, Eq, Structural, Debug)]
pub enum TextureFormat {
    Rgba8Unorm,
    Reported(u32),
}

/// Frame presentation scheduling.
#[derive(Clone, Copy, PartialEq, Eq, Structural, Debug)]
pub enum PresentMode {
    Immediate,
    Mailbox,
    Fifo,
}

/// How the surface's alpha channel is composited with the windowing system.
#[derive(Clone, Copy, PartialEq, Eq, Structural, Debug)]
pub enum CompositeAlphaMode {
    Auto,
    Opaque,
}

/// The ways an image resource may be used, as declared at creation.
#[derive(Clone, Copy, PartialEq, Eq, Structural, Debug)]
pub struct TextureUsages {
    pub render_attachment: bool,
    pub storage_binding: bool,
}

/// The mutable configuration record of the presentation surface.
#[derive(Clone, Copy, PartialEq, Eq, Structural, Debug)]
pub struct SurfaceConfig {
    pub usage: TextureUsages,
    pub format: TextureFormat,
    pub width: u32,
    pub height: u32,
    pub present_mode: PresentMode,
    pub alpha_mode: CompositeAlphaMode,
}

/// The configuration a freshly created context gives its surface: render
/// attachment usage, the reported format, the window's pixel size,
/// first-in-first-out presentation and automatic alpha compositing.
pub open spec fn spec_initial_config(size: Size2D, format: TextureFormat) -> SurfaceConfig {
    SurfaceConfig {
        usage: TextureUsages { render_attachment: true, storage_binding: false },
        format,
        width: size.width,
        height: size.height,
        present_mode: PresentMode::Fifo,
        alpha_mode: CompositeAlphaMode::Auto,
    }
}

/// A request to compile a shader module: where its source lives and the
/// diagnostic label the compiled module carries.
pub struct ShaderModuleDesc {
    pub path: String,
    pub label: Label,
}

/// A failure reported while acquiring the next presentable image.
#[derive(Clone, Copy, PartialEq, Eq, Structural, Debug)]
pub enum AcquireError {
    /// The acquisition timed out.
    Timeout,
    /// The surface no longer matches its configuration.
    Outdated,
    /// The surface was lost and must be set up anew.
    Lost,
    /// The device is out of memory.
    OutOfMemory,
}

/// What the per-frame driver does about an acquisition failure.
#[derive(Clone, Copy, PartialEq, Eq, Structural, Debug)]
pub enum AcquireAction {
    /// Reconfigure the surface at the current known size, then drop the frame.
    Reconfigure,
    /// Drop the frame and wait for the next tick.
    SkipFrame,
    /// Unrecoverable: terminate after a diagnostic.
    Exit,
}

/// The recovery policy: a lost or outdated surface is reconfigured at the
/// current size, a timeout only skips the frame, and out-of-memory is fatal.
pub open spec fn spec_acquire_action(e: AcquireError) -> AcquireAction {
    match e {
        AcquireError::Lost => AcquireAction::Reconfigure,
        AcquireError::Outdated => AcquireAction::Reconfigure,
        AcquireError::Timeout => AcquireAction::SkipFrame,
        AcquireError::OutOfMemory => AcquireAction::Exit,
    }
}

/// The context of a presentation surface: its namespace label and the
/// configuration the surface is (to be) kept at.
pub struct Canvas {
    pub label: Label,
    pub config: SurfaceConfig,
}

impl Canvas {
    /// A context configured for a window of the given pixel size whose
    /// surface reported `format` first among its supported formats.
    ///
    /// The shell establishes the GPU connection (failing fatally when no
    /// compatible adapter or device exists) and then records the resulting
    /// configuration here before applying it to the surface.
    pub fn new(label: &Label, size: Size2D, format: TextureFormat) -> (c: Canvas)
        ensures
            c.label@ == label@,
            c.config == spec_initial_config(size, format),
    {
        Canvas { label: label.to_owned(), config: SurfaceConfig {
            usage: TextureUsages { render_attachment: true, storage_binding: false },
            format,
            width: size.width,
            height: size.height,
            present_mode: PresentMode::Fifo,
            alpha_mode: CompositeAlphaMode::Auto,
        } }
    }

    /// The last configured presentation size.
    pub fn get_size(&self) -> (s: Size2D)
        ensures
            s.width == self.config.width,
            s.height == self.config.height,
    {
        Size2D::new(self.config.width, self.config.height)
    }

    /// Records a new presentation size. Returns whether the surface must be
    /// reconfigured: a request with a zero dimension (a transient state
    /// while the window is minimized) changes nothing and needs no driver
    /// call; otherwise only the stored width and height change.
    pub fn resize(&mut self, size: Size2D) -> (reconfigure: bool)
        ensures
            reconfigure == size.is_nonzero(),
            size.is_nonzero() ==> final(self).config == (SurfaceConfig {
                width: size.width,
                height: size.height,
                ..old(self).config
            }),
            !size.is_nonzero() ==> *final(self) == *old(self),
            final(self).label == old(self).label,
    {
        if size.width > 0 && size.height > 0 {
            self.config.width = size.width;
            self.config.height = size.height;
            true
        } else {
            false
        }
    }

    /// The compilation request for the shader source at `path`: the module
    /// is labelled under this context's namespace. The shell reads the
    /// source and compiles it, failing fatally when it cannot be read.
    pub fn load_shader(&self, path: &str) -> (d: ShaderModuleDesc)
        ensures
            d.path@ == path@,
            d.label@ == self.label@ + seq!['.'] + path@,
    {
        ShaderModuleDesc { path: String::from_str(path), label: self.label.sublabel(path) }
    }

    /// The single classification point for acquisition failures: which of
    /// exit, reconfigure-and-continue, or skip-and-continue each failure
    /// calls for.
    pub fn acquire_action(e: &AcquireError) -> (a: AcquireAction)
        ensures
            a == spec_acquire_action(*e),
    {
        match e {
            AcquireError::Lost => AcquireAction::Reconfigure,
            AcquireError::Outdated => AcquireAction::Reconfigure,
            AcquireError::Timeout => AcquireAction::SkipFrame,
            AcquireError::OutOfMemory => AcquireAction::Exit,
        }
    }
}

} // verus!
