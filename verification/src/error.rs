use vstd::prelude::*;

verus! {

/// Error taxonomy of the engine core.
///
/// Import-time errors abort the whole import call; a frame-time
/// `DeviceResourceExhausted` (no drawable available) is recoverable by
/// skipping the frame.
#[derive(Debug, Clone, Copy, PartialEq, Eq, Structural)]
pub enum Error {
    /// The asset file's extension names a format the importer does not read.
    UnsupportedFormat,
    /// The scene graph is inconsistent, e.g. an index references a vertex
    /// that is out of range.
    MalformedAsset,
    /// A primitive lacks a required vertex attribute (positions).
    MissingAttribute,
    /// A material references a texture source the importer does not support
    /// (anything but an external file).
    TextureSourceUnsupported,
    /// A referenced texture file was not supplied.
    TextureLoadError,
    /// A texture byte stream could not be decoded into RGBA pixels.
    DecodeError,
    /// No drawable surface or GPU memory was available this frame.
    DeviceResourceExhausted,
}

} // verus!
