//! Command-line options and the verbosity they select.

use vstd::prelude::*;

verus! {

/// Verbosity levels, from silent to most detailed.
#[derive(Clone, Copy, Debug, PartialEq, Eq, Structural)]
pub enum LevelFilter {
    Off,
    Error,
    Warn,
    Info,
    Debug,
    Trace,
}

/// The level that a numeric verbosity stands for: everything at or below
/// zero is silent, everything at or above five is the most detailed level.
pub open spec fn level_for(level: int) -> LevelFilter {
    if level <= 0 {
        LevelFilter::Off
    } else if level == 1 {
        LevelFilter::Error
    } else if level == 2 {
        LevelFilter::Warn
    } else if level == 3 {
        LevelFilter::Info
    } else if level == 4 {
        LevelFilter::Debug
    } else {
        LevelFilter::Trace
    }
}

/// Options given on the command line.
#[derive(Clone, Debug, PartialEq, Eq)]
pub struct ProgramOptions {
    /// Port to forward between the device and localhost.
    pub port: Option<u16>,
    /// Video device to write to.
    pub device: Option<String>,
    /// Output resolution, `WIDTHxHEIGHT` or `auto`.
    pub resolution: Option<String>,
    /// Configuration file to use instead of the default one.
    pub config: Option<String>,
    /// Disable audio support.
    pub no_audio: bool,
    /// Disable echo cancelling.
    pub no_echo_cancel: bool,
    /// Flip method used to mirror the video.
    pub flip: Option<String>,
    /// Serial of the device to connect to.
    pub serial: Option<String>,
    /// How many times more output was asked for.
    pub verbose: i8,
    /// How many times less output was asked for.
    pub quiet: i8,
}

/// The options as plain values.
pub struct ProgramOptionsView {
    pub port: Option<u16>,
    pub device: Option<Seq<char>>,
    pub resolution: Option<Seq<char>>,
    pub config: Option<Seq<char>>,
    pub no_audio: bool,
    pub no_echo_cancel: bool,
    pub flip: Option<Seq<char>>,
    pub serial: Option<Seq<char>>,
    pub verbose: i8,
    pub quiet: i8,
}

/// The text of an optional setting.
pub open spec fn text_of(setting: Option<String>) -> Option<Seq<char>> {
    match setting {
        Some(text) => Some(text@),
        None => None,
    }
}

impl View for ProgramOptions {
    type V = ProgramOptionsView;

    open spec fn view(&self) -> ProgramOptionsView {
        ProgramOptionsView {
            port: self.port,
            device: text_of(self.device),
            resolution: text_of(self.resolution),
            config: text_of(self.config),
            no_audio: self.no_audio,
            no_echo_cancel: self.no_echo_cancel,
            flip: text_of(self.flip),
            serial: text_of(self.serial),
            verbose: self.verbose,
            quiet: self.quiet,
        }
    }
}

impl ProgramOptions {
    /// The verbosity asked for on the command line, counted from `default`:
    /// each `verbose` raises it by one, each `quiet` lowers it by one.
    /// `None` when the two cancel out, so that the caller keeps its own level.
    pub fn log_level_with_default(&self, default: i8) -> (selected: Option<LevelFilter>)
        ensures
            self.verbose == self.quiet ==> selected is None,
            self.verbose != self.quiet ==> selected == Some(
                level_for(default + self.verbose - self.quiet),
            ),
    {
        let level: i16 = default as i16 + self.verbose as i16 - self.quiet as i16;
        if level == default as i16 {
            None
        } else if level <= 0 {
            Some(LevelFilter::Off)
        } else if level == 1 {
            Some(LevelFilter::Error)
        } else if level == 2 {
            Some(LevelFilter::Warn)
        } else if level == 3 {
            Some(LevelFilter::Info)
        } else if level == 4 {
            Some(LevelFilter::Debug)
        } else {
            Some(LevelFilter::Trace)
        }
    }
}

} // verus!
