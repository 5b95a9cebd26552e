use vstd::prelude::*;
use vstd::string::*;
use crate::registry::Keyed;
use crate::sockets::{device_port, port_is, RcaColor, SocketKind, SocketPort};

verus! {

/// Input channel selected on a television.
#[derive(Debug, Clone, Copy, PartialEq, Eq, Hash, Structural)]
pub enum TvInputSource {
    AntennaChannel3,
    AntennaChannel4,
    CompositeAv1,
    CompositeAv2,
    ComponentYPbPr,
}

/// The input that follows `s` when the input button is pressed.
pub open spec fn next_input(s: TvInputSource) -> TvInputSource {
    match s {
        TvInputSource::AntennaChannel3 => TvInputSource::AntennaChannel4,
        TvInputSource::AntennaChannel4 => TvInputSource::CompositeAv1,
        TvInputSource::CompositeAv1 => TvInputSource::CompositeAv2,
        TvInputSource::CompositeAv2 => TvInputSource::ComponentYPbPr,
        TvInputSource::ComponentYPbPr => TvInputSource::AntennaChannel3,
    }
}

/// The on-screen label of an input.
pub open spec fn input_label(s: TvInputSource) -> Seq<char> {
    match s {
        TvInputSource::AntennaChannel3 => "CH 03"@,
        TvInputSource::AntennaChannel4 => "CH 04"@,
        TvInputSource::CompositeAv1 => "VIDEO 1"@,
        TvInputSource::CompositeAv2 => "VIDEO 2"@,
        TvInputSource::ComponentYPbPr => "COMPONENT"@,
    }
}

impl TvInputSource {
    pub fn next(&self) -> (r: Self)
        ensures
            r == next_input(*self),
    {
        match self {
            Self::AntennaChannel3 => Self::AntennaChannel4,
            Self::AntennaChannel4 => Self::CompositeAv1,
            Self::CompositeAv1 => Self::CompositeAv2,
            Self::CompositeAv2 => Self::ComponentYPbPr,
            Self::ComponentYPbPr => Self::AntennaChannel3,
        }
    }

    pub fn display_label(&self) -> (r: &'static str)
        ensures
            r@ == input_label(*self),
    {
        match self {
            Self::AntennaChannel3 => "CH 03",
            Self::AntennaChannel4 => "CH 04",
            Self::CompositeAv1 => "VIDEO 1",
            Self::CompositeAv2 => "VIDEO 2",
            Self::ComponentYPbPr => "COMPONENT",
        }
    }
}

/// Pressing the input button five times returns to the starting input: the
/// inputs form one cycle through all five sources.
pub proof fn lemma_input_cycle(s: TvInputSource)
    ensures
        next_input(next_input(next_input(next_input(next_input(s))))) == s,
        next_input(s) != s,
{
}

/// Length of the degauss wobble started by switching a set on, in milliseconds.
pub const DEGAUSS_DURATION_MS: u32 = 800;

/// CRT television with screen, speaker and connection ports.
#[derive(Debug, Clone, PartialEq, Eq)]
pub struct CrtTelevision {
    pub id: String,
    pub power_on: bool,
    pub input_source: TvInputSource,
    /// Speaker volume, 0 to 100.
    pub volume: u8,
    pub muted: bool,
    /// Milliseconds remaining of the degauss wobble and flash.
    pub degauss_active_timer_ms: u32,
    pub static_noise_seed: u32,
    pub screen_diagonal_inches: u32,
    /// Screen aspect ratio as width and height units (4 by 3).
    pub screen_aspect_width: u32,
    pub screen_aspect_height: u32,
    pub sockets: Vec<SocketPort>,
}

/// The sockets of a television named `id`: power inlet, two composite inputs
/// and a component input.
pub open spec fn tv_ports(s: Seq<SocketPort>, id: Seq<char>) -> bool {
    &&& s.len() == 10
    &&& port_is(s[0], id + "_power_in"@, SocketKind::IecC7Jack, "AC IN"@)
    &&& port_is(s[1], id + "_av1_video"@, SocketKind::RcaJack(RcaColor::YellowVideo), "AV1 VIDEO"@)
    &&& port_is(s[2], id + "_av1_audio_l"@, SocketKind::RcaJack(RcaColor::WhiteAudioLeft), "AV1 AUDIO L"@)
    &&& port_is(s[3], id + "_av1_audio_r"@, SocketKind::RcaJack(RcaColor::RedAudioRight), "AV1 AUDIO R"@)
    &&& port_is(s[4], id + "_av2_video"@, SocketKind::RcaJack(RcaColor::YellowVideo), "AV2 VIDEO"@)
    &&& port_is(s[5], id + "_av2_audio_l"@, SocketKind::RcaJack(RcaColor::WhiteAudioLeft), "AV2 AUDIO L"@)
    &&& port_is(s[6], id + "_av2_audio_r"@, SocketKind::RcaJack(RcaColor::RedAudioRight), "AV2 AUDIO R"@)
    &&& port_is(s[7], id + "_component_y"@, SocketKind::RcaJack(RcaColor::GreenComponentY), "COMPONENT Y"@)
    &&& port_is(s[8], id + "_component_pb"@, SocketKind::RcaJack(RcaColor::BlueComponentPb), "COMPONENT PB"@)
    &&& port_is(s[9], id + "_component_pr"@, SocketKind::RcaJack(RcaColor::RedComponentPr), "COMPONENT PR"@)
}

impl Keyed for CrtTelevision {
    open spec fn key_view(&self) -> Seq<char> {
        self.id@
    }

    fn key(&self) -> (r: &String) {
        &self.id
    }
}

/// A 21 inch 4:3 set as delivered: off, on composite input 1.
pub open spec fn fresh_retro_crt(r: CrtTelevision, id: Seq<char>) -> bool {
    &&& r.id@ == id
    &&& !r.power_on
    &&& r.input_source == TvInputSource::CompositeAv1
    &&& r.volume == 65
    &&& !r.muted
    &&& r.degauss_active_timer_ms == 0
    &&& r.static_noise_seed == 12345
    &&& r.screen_diagonal_inches == 21
    &&& r.screen_aspect_width == 4
    &&& r.screen_aspect_height == 3
    &&& tv_ports(r.sockets@, id)
}

impl CrtTelevision {
    /// A 21 inch 4:3 set, switched off, on composite input 1.
    pub fn new_retro_crt(id: &str) -> (r: Self)
        ensures
            fresh_retro_crt(r, id@),
    {
        let mut sockets: Vec<SocketPort> = Vec::new();
        sockets.push(device_port(id, "_power_in", SocketKind::IecC7Jack, "AC IN"));
        sockets.push(device_port(id, "_av1_video", SocketKind::RcaJack(RcaColor::YellowVideo), "AV1 VIDEO"));
        sockets.push(device_port(id, "_av1_audio_l", SocketKind::RcaJack(RcaColor::WhiteAudioLeft), "AV1 AUDIO L"));
        sockets.push(device_port(id, "_av1_audio_r", SocketKind::RcaJack(RcaColor::RedAudioRight), "AV1 AUDIO R"));
        sockets.push(device_port(id, "_av2_video", SocketKind::RcaJack(RcaColor::YellowVideo), "AV2 VIDEO"));
        sockets.push(device_port(id, "_av2_audio_l", SocketKind::RcaJack(RcaColor::WhiteAudioLeft), "AV2 AUDIO L"));
        sockets.push(device_port(id, "_av2_audio_r", SocketKind::RcaJack(RcaColor::RedAudioRight), "AV2 AUDIO R"));
        sockets.push(device_port(id, "_component_y", SocketKind::RcaJack(RcaColor::GreenComponentY), "COMPONENT Y"));
        sockets.push(device_port(id, "_component_pb", SocketKind::RcaJack(RcaColor::BlueComponentPb), "COMPONENT PB"));
        sockets.push(device_port(id, "_component_pr", SocketKind::RcaJack(RcaColor::RedComponentPr), "COMPONENT PR"));
        CrtTelevision {
            id: String::from_str(id),
            power_on: false,
            input_source: TvInputSource::CompositeAv1,
            volume: 65,
            muted: false,
            degauss_active_timer_ms: 0,
            static_noise_seed: 12345,
            screen_diagonal_inches: 21,
            screen_aspect_width: 4,
            screen_aspect_height: 3,
            sockets,
        }
    }

    /// Flips the power switch; switching on starts the degauss wobble.
    pub fn toggle_power(&mut self)
        ensures
            *final(self) == (CrtTelevision {
                power_on: !old(self).power_on,
                degauss_active_timer_ms: if old(self).power_on {
                    old(self).degauss_active_timer_ms
                } else {
                    DEGAUSS_DURATION_MS
                },
                ..*old(self)
            }),
    {
        self.power_on = !self.power_on;
        if self.power_on {
            self.degauss_active_timer_ms = DEGAUSS_DURATION_MS;
        }
    }

    /// Selects the next input source.
    pub fn cycle_input(&mut self)
        ensures
            *final(self) == (CrtTelevision { input_source: next_input(old(self).input_source), ..*old(self) }),
    {
        self.input_source = self.input_source.next();
    }

    /// Runs the degauss timer down by `elapsed_ms`, stopping at zero, and
    /// returns the time that remains.
    pub fn tick_degauss(&mut self, elapsed_ms: u32) -> (remaining: u32)
        ensures
            remaining == final(self).degauss_active_timer_ms,
            remaining == if old(self).degauss_active_timer_ms > elapsed_ms {
                old(self).degauss_active_timer_ms - elapsed_ms
            } else {
                0
            },
            *final(self) == (CrtTelevision { degauss_active_timer_ms: remaining, ..*old(self) }),
    {
        if self.degauss_active_timer_ms > elapsed_ms {
            self.degauss_active_timer_ms = self.degauss_active_timer_ms - elapsed_ms;
        } else {
            self.degauss_active_timer_ms = 0;
        }
        self.degauss_active_timer_ms
    }
}

} // verus!
