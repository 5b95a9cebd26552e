use vstd::prelude::*;
use vstd::string::*;

verus! {

/// Colour coding of an RCA connector.
#[derive(Debug, Clone, Copy, PartialEq, Eq, Hash, Structural)]
pub enum RcaColor {
    YellowVideo,
    WhiteAudioLeft,
    RedAudioRight,
    GreenComponentY,
    BlueComponentPb,
    RedComponentPr,
}

/// Physical connector interface, either the male plug or the female jack.
#[derive(Debug, Clone, Copy, PartialEq, Eq, Hash, Structural)]
pub enum SocketKind {
    WallAcOutlet,
    WallAcPlug,
    /// Figure-8 female inlet.
    IecC7Jack,
    /// Figure-8 male cord end.
    IecC7Plug,
    /// Kettle cord female inlet.
    IecC13Jack,
    /// Kettle cord male end.
    IecC13Plug,
    /// N64 proprietary rear power socket.
    N64AcBrickJack,
    /// N64 power brick output connector.
    N64AcBrickPlug,
    RcaJack(RcaColor),
    RcaPlug(RcaColor),
    NintendoMultiOutJack,
    NintendoMultiOutPlug,
    PlayStationMultiOutJack,
    PlayStationMultiOutPlug,
    N64ControllerJack,
    N64ControllerPlug,
    PlayStationControllerJack,
    PlayStationControllerPlug,
    HdmiJack,
    HdmiPlug,
}

/// The connector standard a socket kind belongs to; a plug mates with a jack of
/// the same standard.
pub enum ConnectorFamily {
    WallAc,
    IecC7,
    IecC13,
    N64AcBrick,
    Rca,
    NintendoMultiOut,
    PlayStationMultiOut,
    N64Controller,
    PlayStationController,
    Hdmi,
}

/// The connector standard of a socket kind (RCA connectors of every colour form one standard).
pub open spec fn family(k: SocketKind) -> ConnectorFamily {
    match k {
        SocketKind::WallAcOutlet | SocketKind::WallAcPlug => ConnectorFamily::WallAc,
        SocketKind::IecC7Jack | SocketKind::IecC7Plug => ConnectorFamily::IecC7,
        SocketKind::IecC13Jack | SocketKind::IecC13Plug => ConnectorFamily::IecC13,
        SocketKind::N64AcBrickJack | SocketKind::N64AcBrickPlug => ConnectorFamily::N64AcBrick,
        SocketKind::RcaJack(_) | SocketKind::RcaPlug(_) => ConnectorFamily::Rca,
        SocketKind::NintendoMultiOutJack
        | SocketKind::NintendoMultiOutPlug => ConnectorFamily::NintendoMultiOut,
        SocketKind::PlayStationMultiOutJack
        | SocketKind::PlayStationMultiOutPlug => ConnectorFamily::PlayStationMultiOut,
        SocketKind::N64ControllerJack | SocketKind::N64ControllerPlug => ConnectorFamily::N64Controller,
        SocketKind::PlayStationControllerJack
        | SocketKind::PlayStationControllerPlug => ConnectorFamily::PlayStationController,
        SocketKind::HdmiJack | SocketKind::HdmiPlug => ConnectorFamily::Hdmi,
    }
}

/// Whether a socket kind is the male side of its standard.
pub open spec fn kind_is_plug(k: SocketKind) -> bool {
    match k {
        SocketKind::WallAcPlug
        | SocketKind::IecC7Plug
        | SocketKind::IecC13Plug
        | SocketKind::N64AcBrickPlug
        | SocketKind::RcaPlug(_)
        | SocketKind::NintendoMultiOutPlug
        | SocketKind::PlayStationMultiOutPlug
        | SocketKind::N64ControllerPlug
        | SocketKind::PlayStationControllerPlug
        | SocketKind::HdmiPlug => true,
        _ => false,
    }
}

/// Two kinds mate when they belong to the same standard and exactly one of them is a plug.
pub open spec fn kinds_mate(a: SocketKind, b: SocketKind) -> bool {
    family(a) == family(b) && kind_is_plug(a) != kind_is_plug(b)
}

impl SocketKind {
    /// Determines whether two connector interfaces are physically and electrically mating pairs.
    /// RCA jacks accept RCA plugs of any colour.
    pub fn is_compatible_with(&self, other: &Self) -> (r: bool)
        ensures
            r == kinds_mate(*self, *other),
    {
        match (*self, *other) {
            (Self::WallAcOutlet, Self::WallAcPlug) | (Self::WallAcPlug, Self::WallAcOutlet) => true,
            (Self::IecC7Jack, Self::IecC7Plug) | (Self::IecC7Plug, Self::IecC7Jack) => true,
            (Self::IecC13Jack, Self::IecC13Plug) | (Self::IecC13Plug, Self::IecC13Jack) => true,
            (Self::N64AcBrickJack, Self::N64AcBrickPlug)
            | (Self::N64AcBrickPlug, Self::N64AcBrickJack) => true,
            (Self::RcaJack(_), Self::RcaPlug(_)) | (Self::RcaPlug(_), Self::RcaJack(_)) => true,
            (Self::NintendoMultiOutJack, Self::NintendoMultiOutPlug)
            | (Self::NintendoMultiOutPlug, Self::NintendoMultiOutJack) => true,
            (Self::PlayStationMultiOutJack, Self::PlayStationMultiOutPlug)
            | (Self::PlayStationMultiOutPlug, Self::PlayStationMultiOutJack) => true,
            (Self::N64ControllerJack, Self::N64ControllerPlug)
            | (Self::N64ControllerPlug, Self::N64ControllerJack) => true,
            (Self::PlayStationControllerJack, Self::PlayStationControllerPlug)
            | (Self::PlayStationControllerPlug, Self::PlayStationControllerJack) => true,
            (Self::HdmiJack, Self::HdmiPlug) | (Self::HdmiPlug, Self::HdmiJack) => true,
            _ => false,
        }
    }

    /// Whether this is a male connector.
    pub fn is_plug(&self) -> (r: bool)
        ensures
            r == kind_is_plug(*self),
    {
        match self {
            Self::WallAcPlug
            | Self::IecC7Plug
            | Self::IecC13Plug
            | Self::N64AcBrickPlug
            | Self::RcaPlug(_)
            | Self::NintendoMultiOutPlug
            | Self::PlayStationMultiOutPlug
            | Self::N64ControllerPlug
            | Self::PlayStationControllerPlug
            | Self::HdmiPlug => true,
            _ => false,
        }
    }

    /// Whether this is a female connector: every kind that is not a plug.
    pub fn is_jack(&self) -> (r: bool)
        ensures
            r == !kind_is_plug(*self),
    {
        !self.is_plug()
    }
}

/// Mating is symmetric: a plug fits a jack exactly when the jack fits the plug.
pub proof fn lemma_compatibility_symmetric(a: SocketKind, b: SocketKind)
    ensures
        kinds_mate(a, b) == kinds_mate(b, a),
{
}

/// Every mating pair joins exactly one plug with one jack, so two plugs or two
/// jacks never mate.
pub proof fn lemma_compatible_pairs_join_plug_and_jack(a: SocketKind, b: SocketKind)
    requires
        kinds_mate(a, b),
    ensures
        kind_is_plug(a) != kind_is_plug(b),
{
}

/// A physical socket located on a device or cable end.
#[derive(Debug, Clone, PartialEq, Eq)]
pub struct SocketPort {
    /// Unique identifier of the socket, such as "tv_power_in".
    pub id: String,
    pub kind: SocketKind,
    /// Printed label, such as "VIDEO IN", "AUDIO L" or "PORT 1".
    pub label: String,
}

/// The socket has exactly the given identifier, kind and label.
pub open spec fn port_is(p: SocketPort, id: Seq<char>, kind: SocketKind, label: Seq<char>) -> bool {
    p.id@ == id && p.kind == kind && p.label@ == label
}

/// Builds the socket `suffix` of the device or cable named `owner`.
pub fn device_port(owner: &str, suffix: &str, kind: SocketKind, label: &str) -> (r: SocketPort)
    ensures
        port_is(r, owner@ + suffix@, kind, label@),
{
    SocketPort { id: crate::text::suffixed(owner, suffix), kind, label: String::from_str(label) }
}

} // verus!
