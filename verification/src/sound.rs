use vstd::prelude::*;
use crate::devices::tv::CrtTelevision;
use crate::screen::TvScreenFeed;

verus! {

/// What the room plays through the television's speaker in one frame. Console
/// samples that are not played are discarded.
#[derive(Debug, Clone, Copy, PartialEq, Eq)]
pub enum AudioRoute {
    /// Play nothing.
    Silent,
    /// Play analog static at the set's volume (in percent).
    Static { volume: u8 },
    /// The console is on screen: its samples play at the set's volume when
    /// `audible`; `hum` asks for the faint speaker hum of a console that is
    /// not producing sound because no core is running.
    Console { volume: u8, audible: bool, hum: bool },
}

/// The route for one frame, from what the television shows, the set itself
/// (none when the room has no set of that name), whether console samples
/// arrived this frame, and whether an emulator is booted. Static plays only
/// from a set that is on and not muted; a console on screen without a set to
/// ask is audible at full volume.
pub open spec fn audio_route_of(
    feed: TvScreenFeed,
    tv: Option<CrtTelevision>,
    samples_arrived: bool,
    emulator_booted: bool,
) -> AudioRoute {
    match feed {
        TvScreenFeed::PoweredOff => AudioRoute::Silent,
        TvScreenFeed::StaticNoise => match tv {
            Some(t) => if t.power_on && !t.muted {
                AudioRoute::Static { volume: t.volume }
            } else {
                AudioRoute::Silent
            },
            None => AudioRoute::Silent,
        },
        TvScreenFeed::ActiveVideo { .. } => {
            let audible = match tv {
                Some(t) => t.power_on && !t.muted,
                None => true,
            };
            let volume: u8 = match tv {
                Some(t) => t.volume,
                None => 100u8,
            };
            AudioRoute::Console { volume, audible, hum: audible && !samples_arrived && !emulator_booted }
        },
    }
}

/// Decides what the television's speaker plays this frame.
pub fn audio_route(
    feed: &TvScreenFeed,
    tv: Option<&CrtTelevision>,
    samples_arrived: bool,
    emulator_booted: bool,
) -> (r: AudioRoute)
    ensures
        r == audio_route_of(
            *feed,
            match tv {
                Some(t) => Some(*t),
                None => None,
            },
            samples_arrived,
            emulator_booted,
        ),
{
    match feed {
        TvScreenFeed::PoweredOff => AudioRoute::Silent,
        TvScreenFeed::StaticNoise => match tv {
            Some(t) => if t.power_on && !t.muted {
                AudioRoute::Static { volume: t.volume }
            } else {
                AudioRoute::Silent
            },
            None => AudioRoute::Silent,
        },
        TvScreenFeed::ActiveVideo { .. } => {
            let audible = match tv {
                Some(t) => t.power_on && !t.muted,
                None => true,
            };
            let volume: u8 = match tv {
                Some(t) => t.volume,
                None => 100u8,
            };
            AudioRoute::Console { volume, audible, hum: audible && !samples_arrived && !emulator_booted }
        },
    }
}

} // verus!
