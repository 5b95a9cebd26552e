use vstd::prelude::*;

verus! {

/// Discrete electric or data signal carried over a wire or pin.
#[derive(Debug, Clone, Copy, PartialEq, Eq, Hash, Structural)]
pub enum SignalType {
    /// AC mains power (wall voltage, nominal 120V or 230V).
    PowerAc,
    /// Regulated low-voltage DC power (5V, 9V, 12V).
    PowerDc,
    /// Analog composite video (yellow RCA, CVBS).
    CompositeVideo,
    /// Analog S-Video luma (Y).
    SVideoLuma,
    /// Analog S-Video chroma (C).
    SVideoChroma,
    /// Analog component Y (luminance and sync).
    ComponentY,
    /// Analog component Pb (blue difference).
    ComponentPb,
    /// Analog component Pr (red difference).
    ComponentPr,
    /// Analog audio left channel (white RCA).
    AudioLeft,
    /// Analog audio right channel (red RCA).
    AudioRight,
    /// RF modulated signal (coaxial antenna).
    RfAntenna,
    /// Digital HDMI.
    HdmiDigital,
    /// Digital optical S/PDIF (Toslink).
    OpticalSpdif,
    /// Bidirectional controller protocol.
    ControllerData,
}

} // verus!
