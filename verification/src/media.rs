use vstd::prelude::*;
use vstd::string::*;
use crate::text::{ascii_lower, ascii_lower_equals};

verus! {

/// Target emulation platform.
#[derive(Debug, Clone, Copy, PartialEq, Eq, Hash, Structural)]
pub enum Platform {
    Nintendo64,
    PlayStation1,
    PlayStation2,
    SuperNintendo,
    NintendoEntertainmentSystem,
    SegaGenesis,
}

/// The human readable name of a platform.
pub open spec fn platform_name(p: Platform) -> Seq<char> {
    match p {
        Platform::Nintendo64 => "Nintendo 64"@,
        Platform::PlayStation1 => "Sony PlayStation"@,
        Platform::PlayStation2 => "Sony PlayStation 2"@,
        Platform::SuperNintendo => "Super Nintendo Entertainment System"@,
        Platform::NintendoEntertainmentSystem => "Nintendo Entertainment System"@,
        Platform::SegaGenesis => "Sega Genesis / Mega Drive"@,
    }
}

/// The library file of the platform's preferred libretro core, for the
/// platforms that prefer an optional core over their fallback. The Nintendo 64
/// has none: its default core is `mupen64plus_next` whatever else is installed.
pub open spec fn preferred_core_file(p: Platform) -> Option<Seq<char>> {
    match p {
        Platform::PlayStation1 => Some("cores/swanstation_libretro.so"@),
        _ => None,
    }
}

/// The libretro core used for a platform, given whether the preferred core's
/// library file is installed.
pub open spec fn core_name(p: Platform, preferred_installed: bool) -> Seq<char> {
    match p {
        Platform::Nintendo64 => "mupen64plus_next"@,
        Platform::PlayStation1 => if preferred_installed {
            "swanstation"@
        } else {
            "duckstation"@
        },
        Platform::PlayStation2 => "play"@,
        Platform::SuperNintendo => "snes9x"@,
        Platform::NintendoEntertainmentSystem => "nestopia"@,
        Platform::SegaGenesis => "genesis_plus_gx"@,
    }
}

/// Whether a lower-case file extension is a ROM or disc image format of the platform.
pub open spec fn extension_accepted(p: Platform, e: Seq<char>) -> bool {
    match p {
        Platform::Nintendo64 => e == "z64"@ || e == "n64"@ || e == "v64"@,
        Platform::PlayStation1 => e == "cue"@ || e == "iso"@ || e == "chd"@ || e == "bin"@ || e
            == "pbp"@,
        Platform::PlayStation2 => e == "iso"@ || e == "chd"@ || e == "cso"@ || e == "bin"@ || e
            == "elf"@,
        Platform::SuperNintendo => e == "sfc"@ || e == "smc"@,
        Platform::NintendoEntertainmentSystem => e == "nes"@,
        Platform::SegaGenesis => e == "md"@ || e == "bin"@ || e == "gen"@,
    }
}

impl Platform {
    pub fn name(&self) -> (r: &'static str)
        ensures
            r@ == platform_name(*self),
    {
        match self {
            Self::Nintendo64 => "Nintendo 64",
            Self::PlayStation1 => "Sony PlayStation",
            Self::PlayStation2 => "Sony PlayStation 2",
            Self::SuperNintendo => "Super Nintendo Entertainment System",
            Self::NintendoEntertainmentSystem => "Nintendo Entertainment System",
            Self::SegaGenesis => "Sega Genesis / Mega Drive",
        }
    }

    /// The library file whose presence selects the preferred core, if the
    /// platform has one; the caller checks the file system for it.
    pub fn preferred_core_library(&self) -> (r: Option<&'static str>)
        ensures
            match r {
                Some(path) => preferred_core_file(*self) == Some(path@),
                None => preferred_core_file(*self) is None,
            },
    {
        match self {
            Self::PlayStation1 => Some("cores/swanstation_libretro.so"),
            _ => None,
        }
    }

    /// The default libretro core name; `preferred_installed` tells whether the
    /// library named by `preferred_core_library` exists, and matters only for
    /// a platform that has such a library.
    pub fn default_core_name(&self, preferred_installed: bool) -> (r: &'static str)
        ensures
            r@ == core_name(*self, preferred_installed),
    {
        match self {
            Self::Nintendo64 => "mupen64plus_next",
            Self::PlayStation1 => {
                if preferred_installed {
                    "swanstation"
                } else {
                    "duckstation"
                }
            },
            Self::PlayStation2 => "play",
            Self::SuperNintendo => "snes9x",
            Self::NintendoEntertainmentSystem => "nestopia",
            Self::SegaGenesis => "genesis_plus_gx",
        }
    }

    /// Whether a file extension (without the dot, in any ASCII case) belongs to this platform.
    pub fn matches_extension(&self, ext: &str) -> (r: bool)
        ensures
            r == extension_accepted(*self, ascii_lower(ext@)),
    {
        match self {
            Self::Nintendo64 => ascii_lower_equals(ext, "z64") || ascii_lower_equals(ext, "n64")
                || ascii_lower_equals(ext, "v64"),
            Self::PlayStation1 => ascii_lower_equals(ext, "cue") || ascii_lower_equals(ext, "iso")
                || ascii_lower_equals(ext, "chd") || ascii_lower_equals(ext, "bin")
                || ascii_lower_equals(ext, "pbp"),
            Self::PlayStation2 => ascii_lower_equals(ext, "iso") || ascii_lower_equals(ext, "chd")
                || ascii_lower_equals(ext, "cso") || ascii_lower_equals(ext, "bin")
                || ascii_lower_equals(ext, "elf"),
            Self::SuperNintendo => ascii_lower_equals(ext, "sfc") || ascii_lower_equals(ext, "smc"),
            Self::NintendoEntertainmentSystem => ascii_lower_equals(ext, "nes"),
            Self::SegaGenesis => ascii_lower_equals(ext, "md") || ascii_lower_equals(ext, "bin")
                || ascii_lower_equals(ext, "gen"),
        }
    }
}

/// A game cartridge.
#[derive(Debug, Clone, PartialEq, Eq)]
pub struct CartridgeMedia {
    pub id: String,
    pub title: String,
    pub platform: Platform,
    pub rom_path: String,
    pub label_texture_path: Option<String>,
    pub plastic_color_rgba: [u8; 4],
}

/// An optical game disc.
#[derive(Debug, Clone, PartialEq, Eq)]
pub struct DiscMedia {
    pub id: String,
    pub title: String,
    pub platform: Platform,
    pub disc_path: String,
    pub label_texture_path: Option<String>,
    pub is_dvd: bool,
}

/// Physical media that can be inserted into a console.
#[derive(Debug, Clone, PartialEq, Eq)]
pub enum PhysicalMedia {
    Cartridge(CartridgeMedia),
    OpticalDisc(DiscMedia),
}

impl PhysicalMedia {
    pub fn platform(&self) -> (r: Platform)
        ensures
            r == match self {
                PhysicalMedia::Cartridge(c) => c.platform,
                PhysicalMedia::OpticalDisc(d) => d.platform,
            },
    {
        match self {
            Self::Cartridge(c) => c.platform,
            Self::OpticalDisc(d) => d.platform,
        }
    }

    pub fn title(&self) -> (r: &str)
        ensures
            r@ == match self {
                PhysicalMedia::Cartridge(c) => c.title@,
                PhysicalMedia::OpticalDisc(d) => d.title@,
            },
    {
        match self {
            Self::Cartridge(c) => c.title.as_str(),
            Self::OpticalDisc(d) => d.title.as_str(),
        }
    }

    /// The file holding the game image: the ROM of a cartridge or the image of a disc.
    pub fn rom_path(&self) -> (r: &str)
        ensures
            r@ == match self {
                PhysicalMedia::Cartridge(c) => c.rom_path@,
                PhysicalMedia::OpticalDisc(d) => d.disc_path@,
            },
    {
        match self {
            Self::Cartridge(c) => c.rom_path.as_str(),
            Self::OpticalDisc(d) => d.disc_path.as_str(),
        }
    }
}

/// The game files each platform recognises, whatever their letter case: the
/// Nintendo 64 takes z64, n64 and v64 images; the PlayStation cue, iso, chd,
/// bin and pbp; the PlayStation 2 iso, chd, cso, bin and elf; the Super
/// Nintendo sfc and smc; the NES nes; the Genesis md, bin and gen. A format of
/// another platform is not taken.
pub proof fn lemma_recognised_formats()
    ensures
        extension_accepted(Platform::Nintendo64, ascii_lower("z64"@)),
        extension_accepted(Platform::Nintendo64, ascii_lower("n64"@)),
        extension_accepted(Platform::Nintendo64, ascii_lower("v64"@)),
        extension_accepted(Platform::PlayStation1, ascii_lower("cue"@)),
        extension_accepted(Platform::PlayStation1, ascii_lower("iso"@)),
        extension_accepted(Platform::PlayStation1, ascii_lower("chd"@)),
        extension_accepted(Platform::PlayStation1, ascii_lower("bin"@)),
        extension_accepted(Platform::PlayStation1, ascii_lower("pbp"@)),
        extension_accepted(Platform::PlayStation2, ascii_lower("iso"@)),
        extension_accepted(Platform::PlayStation2, ascii_lower("chd"@)),
        extension_accepted(Platform::PlayStation2, ascii_lower("cso"@)),
        extension_accepted(Platform::PlayStation2, ascii_lower("bin"@)),
        extension_accepted(Platform::PlayStation2, ascii_lower("elf"@)),
        extension_accepted(Platform::SuperNintendo, ascii_lower("sfc"@)),
        extension_accepted(Platform::SuperNintendo, ascii_lower("smc"@)),
        extension_accepted(Platform::NintendoEntertainmentSystem, ascii_lower("nes"@)),
        extension_accepted(Platform::SegaGenesis, ascii_lower("md"@)),
        extension_accepted(Platform::SegaGenesis, ascii_lower("bin"@)),
        extension_accepted(Platform::SegaGenesis, ascii_lower("gen"@)),
        !extension_accepted(Platform::Nintendo64, ascii_lower("iso"@)),
        !extension_accepted(Platform::PlayStation1, ascii_lower("z64"@)),
        !extension_accepted(Platform::PlayStation1, ascii_lower("elf"@)),
        !extension_accepted(Platform::PlayStation2, ascii_lower("cue"@)),
        !extension_accepted(Platform::PlayStation2, ascii_lower("pbp"@)),
        !extension_accepted(Platform::SuperNintendo, ascii_lower("nes"@)),
        !extension_accepted(Platform::NintendoEntertainmentSystem, ascii_lower("sfc"@)),
        !extension_accepted(Platform::SegaGenesis, ascii_lower("iso"@)),
        ascii_lower("CUE"@) == "cue"@,
        ascii_lower("Z64"@) == "z64"@,
{
    reveal_strlit("bin");
    reveal_strlit("chd");
    reveal_strlit("cso");
    reveal_strlit("cue");
    reveal_strlit("elf");
    reveal_strlit("gen");
    reveal_strlit("iso");
    reveal_strlit("md");
    reveal_strlit("n64");
    reveal_strlit("nes");
    reveal_strlit("pbp");
    reveal_strlit("sfc");
    reveal_strlit("smc");
    reveal_strlit("v64");
    reveal_strlit("z64");
    reveal_strlit("CUE");
    reveal_strlit("Z64");
    assert(ascii_lower("bin"@) =~= "bin"@);
    assert(ascii_lower("chd"@) =~= "chd"@);
    assert(ascii_lower("cso"@) =~= "cso"@);
    assert(ascii_lower("cue"@) =~= "cue"@);
    assert(ascii_lower("elf"@) =~= "elf"@);
    assert(ascii_lower("gen"@) =~= "gen"@);
    assert(ascii_lower("iso"@) =~= "iso"@);
    assert(ascii_lower("md"@) =~= "md"@);
    assert(ascii_lower("n64"@) =~= "n64"@);
    assert(ascii_lower("nes"@) =~= "nes"@);
    assert(ascii_lower("pbp"@) =~= "pbp"@);
    assert(ascii_lower("sfc"@) =~= "sfc"@);
    assert(ascii_lower("smc"@) =~= "smc"@);
    assert(ascii_lower("v64"@) =~= "v64"@);
    assert(ascii_lower("z64"@) =~= "z64"@);
    assert("iso"@[0] != "z64"@[0]);
    assert("iso"@[0] != "n64"@[0]);
    assert("iso"@[0] != "v64"@[0]);
    assert("z64"@[0] != "cue"@[0]);
    assert("z64"@[0] != "iso"@[0]);
    assert("z64"@[0] != "chd"@[0]);
    assert("z64"@[0] != "bin"@[0]);
    assert("z64"@[0] != "pbp"@[0]);
    assert("elf"@[0] != "cue"@[0]);
    assert("elf"@[0] != "iso"@[0]);
    assert("elf"@[0] != "chd"@[0]);
    assert("elf"@[0] != "bin"@[0]);
    assert("elf"@[0] != "pbp"@[0]);
    assert("cue"@[0] != "iso"@[0]);
    assert("cue"@[1] != "chd"@[1]);
    assert("cue"@[1] != "cso"@[1]);
    assert("cue"@[0] != "bin"@[0]);
    assert("cue"@[0] != "elf"@[0]);
    assert("pbp"@[0] != "iso"@[0]);
    assert("pbp"@[0] != "chd"@[0]);
    assert("pbp"@[0] != "cso"@[0]);
    assert("pbp"@[0] != "bin"@[0]);
    assert("pbp"@[0] != "elf"@[0]);
    assert("nes"@[0] != "sfc"@[0]);
    assert("nes"@[0] != "smc"@[0]);
    assert("sfc"@[0] != "nes"@[0]);
    assert("iso"@.len() != "md"@.len());
    assert("iso"@[0] != "bin"@[0]);
    assert("iso"@[0] != "gen"@[0]);
    assert(ascii_lower("CUE"@) =~= "cue"@);
    assert(ascii_lower("Z64"@) =~= "z64"@);
}

} // verus!
