//! The saved settings, the startup description, and the shapes of the
//! runner's OSCQuery replies.
use vstd::prelude::*;

verus! {

/// The OSC port used when the settings name none.
pub const DEFAULT_OSC_PORT: u16 = 2345;

/// The volume of fresh settings, about 70% of full scale.
pub const DEFAULT_VOLUME: u8 = 178;

/// A program to start, with its arguments.
pub struct StartupProcess {
    pub cmd: String,
    pub args: Option<Vec<String>>,
}

/// The programs to start: the audio server and the applications.
pub struct StartupConfig {
    pub jack: Option<StartupProcess>,
    pub apps: Option<Vec<StartupProcess>>,
}

/// The settings kept between runs.
pub struct Config {
    /// Output volume, 0 to 255.
    pub volume: u8,
    pub oscport: Option<u16>,
    pub param_step_detents: Option<u8>,
}

impl Config {
    /// The OSC port, or the default one.
    pub fn oscport(&self) -> (p: u16)
        ensures
            p == match self.oscport {
                Some(p) => p,
                None => DEFAULT_OSC_PORT,
            },
    {
        match self.oscport {
            Some(p) => p,
            None => DEFAULT_OSC_PORT,
        }
    }

    /// Encoder detents per parameter step: the setting, 1 when there is none,
    /// and never below 1.
    pub fn param_step_detents(&self) -> (d: u8)
        ensures
            d == match self.param_step_detents {
                Some(d) => if d < 1 {
                    1u8
                } else {
                    d
                },
                None => 1u8,
            },
            d >= 1,
    {
        let d = match self.param_step_detents {
            Some(d) => d,
            None => 1u8,
        };
        if d < 1 {
            1
        } else {
            d
        }
    }
}

impl Default for Config {
    fn default() -> (c: Self)
        ensures
            c.volume == DEFAULT_VOLUME,
            c.oscport == Some(DEFAULT_OSC_PORT),
            c.param_step_detents == Some(1u8),
    {
        Config { volume: DEFAULT_VOLUME, oscport: Some(DEFAULT_OSC_PORT), param_step_detents: Some(1) }
    }
}

/// An OSCQuery node's value.
pub struct OSCQueryItem<T> {
    pub value: T,
}

/// An OSCQuery node's children, when it has any.
pub struct OSCQueryContents<T> {
    pub contents: Option<T>,
}

} // verus!
