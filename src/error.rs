use vstd::prelude::*;

verus! {

/// The conditions under which a capture-then-replay run stops.
#[derive(Debug, Clone, Copy, PartialEq, Eq, Structural)]
pub enum AudioError {
    /// No default input or output device is present.
    DeviceUnavailable,
    /// The driver could not report a default stream configuration.
    ConfigurationQueryFailed,
    /// The device delivers samples in an encoding this library does not normalize.
    UnsupportedFormat,
    /// The driver refused to open the stream.
    StreamSetupFailed,
    /// A playback source was described with a zero sample rate or channel count.
    InvalidDescriptor,
}

} // verus!
