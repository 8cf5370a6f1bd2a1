//! What the remote device reports about itself: its current settings and,
//! when asked for, the zoom steps it offers.

use crate::config::{parse_resolution, Resolution, ResolutionError};
use vstd::prelude::*;

verus! {

/// The settings the device currently uses.
#[derive(Clone, Copy, Debug, PartialEq, Eq, Structural)]
pub struct CurrentValues {
    pub zoom: u16,
    pub crop_x: u32,
    pub crop_y: u32,
    pub quality: u16,
    pub video_size: Resolution,
}

/// The choices the device offers. Each zoom step is the text of a number.
#[derive(Clone, Debug, PartialEq, Eq)]
pub struct Available {
    pub zoom: Vec<String>,
}

/// One status report of the device.
#[derive(Clone, Debug, PartialEq, Eq)]
pub struct CamInfo {
    pub curvals: CurrentValues,
    /// Present only in a report that was asked to list the choices.
    pub avail: Option<Available>,
}

/// A status report as plain values: the zoom steps as texts.
pub struct CamInfoView {
    pub curvals: CurrentValues,
    pub avail: Option<Seq<Seq<char>>>,
}

impl View for Available {
    type V = Seq<Seq<char>>;

    open spec fn view(&self) -> Seq<Seq<char>> {
        self.zoom.deep_view()
    }
}

impl View for CamInfo {
    type V = CamInfoView;

    open spec fn view(&self) -> CamInfoView {
        CamInfoView {
            curvals: self.curvals,
            avail: match self.avail {
                Some(a) => Some(a@),
                None => None,
            },
        }
    }
}

/// Reads the frame size of a status report from its `WIDTHxHEIGHT` form.
/// A report always names a size: `auto` is no size here.
pub fn deserialize(s: &str) -> (size: Result<Resolution, ResolutionError>)
    ensures
        size == parse_resolution(s@),
{
    Resolution::from_str(s)
}

} // verus!
