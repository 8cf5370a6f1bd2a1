//! The interactive control loop: what each key press asks of the remote
//! device, and what the status line shows. The loop itself reads keys and
//! talks to the device elsewhere; every decision it takes is made here.

use crate::cam_info::{CamInfo, CamInfoView, CurrentValues};
use crate::text::{decimal, lemma_decimal_digits, parse_number, parse_unsigned, push_decimal};
use vstd::prelude::*;
use vstd::string::*;

verus! {

/// A key press, as far as the control loop tells keys apart.
#[derive(Clone, Copy, Debug, PartialEq, Eq, Structural)]
pub enum Key {
    Char(char),
    Left,
    Right,
    Up,
    Down,
    /// Any other key.
    Other,
}

/// What a key press asks for.
#[derive(Clone, Copy, Debug, PartialEq, Eq, Structural)]
pub enum Command {
    Quit,
    ZoomIn,
    ZoomOut,
    Nothing,
    PanLeft,
    PanRight,
    PanUp,
    PanDown,
    QualityUp,
    QualityDown,
    Flip,
}

/// How the picture is turned or mirrored.
#[derive(Clone, Copy, Debug, PartialEq, Eq, Structural)]
pub enum VideoOrientationMethod {
    Identity,
    _90r,
    _180,
    _90l,
    Horiz,
    Vert,
    UlLr,
    UrLl,
    Auto,
    Custom,
    /// A method this crate has no name for.
    Unknown(i32),
}

/// A setting of the device that is changed by steps.
#[derive(Clone, Copy, Debug, PartialEq, Eq, Structural)]
pub enum Setting {
    CropX,
    CropY,
    Quality,
}

/// Why a command could not be turned into a request.
#[derive(Clone, Copy, Debug, PartialEq, Eq, Structural)]
pub enum ControlError {
    /// The current zoom is not among the known zoom steps, on zooming in.
    ZoomIn,
    /// The current zoom is not among the known zoom steps, on zooming out.
    ZoomOut,
}

/// The command that a key stands for: `q` quits, `z` and `Z` zoom in and
/// out, `t` and `T` raise and lower the quality, `f` flips, the arrows pan;
/// every other key asks for nothing.
pub open spec fn command_for(key: Key) -> Command {
    match key {
        Key::Char(c) => if c == 'q' {
            Command::Quit
        } else if c == 'z' {
            Command::ZoomIn
        } else if c == 'Z' {
            Command::ZoomOut
        } else if c == 't' {
            Command::QualityUp
        } else if c == 'T' {
            Command::QualityDown
        } else if c == 'f' {
            Command::Flip
        } else {
            Command::Nothing
        },
        Key::Left => Command::PanLeft,
        Key::Right => Command::PanRight,
        Key::Up => Command::PanUp,
        Key::Down => Command::PanDown,
        Key::Other => Command::Nothing,
    }
}

/// The orientation that follows `method` when the mirror key is pressed:
/// an unmirrored picture is mirrored left to right, a picture mirrored left
/// to right is mirrored top to bottom, and anything else goes back to the
/// plain picture.
pub open spec fn next_flip(method: VideoOrientationMethod) -> VideoOrientationMethod {
    match method {
        VideoOrientationMethod::Identity => VideoOrientationMethod::Horiz,
        VideoOrientationMethod::_90r => VideoOrientationMethod::Horiz,
        VideoOrientationMethod::_180 => VideoOrientationMethod::Horiz,
        VideoOrientationMethod::_90l => VideoOrientationMethod::Horiz,
        VideoOrientationMethod::Horiz => VideoOrientationMethod::Vert,
        _ => VideoOrientationMethod::Identity,
    }
}

/// The text `step` is the number `zoom`.
pub open spec fn step_matches(step: Seq<char>, zoom: u16) -> bool {
    parse_unsigned(step, 0xffff) == Some(zoom as nat)
}

/// The place of the first step at or after `from` that is the number `zoom`;
/// the number of steps when there is none.
pub open spec fn first_step(steps: Seq<Seq<char>>, zoom: u16, from: int) -> int
    decreases steps.len() - from,
{
    if from >= steps.len() {
        steps.len() as int
    } else if step_matches(steps[from], zoom) {
        from
    } else {
        first_step(steps, zoom, from + 1)
    }
}

/// Where the current zoom stands among the zoom steps, with the number of
/// steps: `None` when the steps are not known or none of them is the
/// current zoom.
pub open spec fn zoom_position(info: CamInfoView) -> Option<(int, int)> {
    match info.avail {
        None => None,
        Some(steps) => {
            let at = first_step(steps, info.curvals.zoom, 0);
            if at < steps.len() {
                Some((at, steps.len() as int))
            } else {
                None
            }
        },
    }
}

/// The step after `index`, which stays on the last of `count` steps.
pub open spec fn zoom_in_index(index: int, count: int) -> int {
    if index + 1 < count {
        index + 1
    } else {
        index
    }
}

/// The step before `index`, which stays on the first step.
pub open spec fn zoom_out_index(index: int) -> int {
    if index > 0 {
        index - 1
    } else {
        0
    }
}

/// The step that one command leaves the zoom on: zooming moves it by one
/// step, every other command leaves it where it is.
pub open spec fn index_after_command(index: int, count: int, command: Command) -> int {
    match command {
        Command::ZoomIn => zoom_in_index(index, count),
        Command::ZoomOut => zoom_out_index(index),
        _ => index,
    }
}

/// The step that a run of commands leaves the zoom on.
pub open spec fn index_after(index: int, count: int, commands: Seq<Command>) -> int
    decreases commands.len(),
{
    if commands.len() == 0 {
        index
    } else {
        index_after_command(
            index_after(index, count, commands.drop_last()),
            count,
            commands.last(),
        )
    }
}

/// However often the zoom is moved in and out, it stays on one of the steps.
pub proof fn lemma_zoom_stays_in_range(index: int, count: int, commands: Seq<Command>)
    requires
        0 <= index < count,
    ensures
        0 <= index_after(index, count, commands) < count,
    decreases commands.len(),
{
    if commands.len() > 0 {
        lemma_zoom_stays_in_range(index, count, commands.drop_last());
    }
}

impl Command {
    /// The command that a key stands for.
    pub fn from_key(key: Key) -> (command: Command)
        ensures
            command == command_for(key),
    {
        match key {
            Key::Char(c) => {
                if c == 'q' {
                    Command::Quit
                } else if c == 'z' {
                    Command::ZoomIn
                } else if c == 'Z' {
                    Command::ZoomOut
                } else if c == 't' {
                    Command::QualityUp
                } else if c == 'T' {
                    Command::QualityDown
                } else if c == 'f' {
                    Command::Flip
                } else {
                    Command::Nothing
                }
            },
            Key::Left => Command::PanLeft,
            Key::Right => Command::PanRight,
            Key::Up => Command::PanUp,
            Key::Down => Command::PanDown,
            Key::Other => Command::Nothing,
        }
    }
}

impl VideoOrientationMethod {
    /// The orientation that the mirror key changes this one to.
    pub fn toggled(self) -> (next: VideoOrientationMethod)
        ensures
            next == next_flip(self),
    {
        match self {
            VideoOrientationMethod::Identity
            | VideoOrientationMethod::_90r
            | VideoOrientationMethod::_180
            | VideoOrientationMethod::_90l => VideoOrientationMethod::Horiz,
            VideoOrientationMethod::Horiz => VideoOrientationMethod::Vert,
            _ => VideoOrientationMethod::Identity,
        }
    }
}

/// The address of the device's control surface behind a forwarded port.
pub open spec fn device_url(port: u16) -> Seq<char> {
    "http://127.0.0.1:"@ + decimal(port as nat)
}

/// The address that reports the device's status; `init` asks it to list
/// the choices it offers as well.
pub open spec fn status_url(port: u16, init: bool) -> Seq<char> {
    device_url(port) + "/status.json?show_avail="@ + if init {
        "1"@
    } else {
        "0"@
    }
}

/// The address that moves the zoom to the step with the given index.
pub open spec fn zoom_url(port: u16, index: nat) -> Seq<char> {
    device_url(port) + "/ptz?zoom="@ + decimal(index)
}

/// The name the device knows a setting by.
pub open spec fn setting_name(field: Setting) -> Seq<char> {
    match field {
        Setting::CropX => "crop_x"@,
        Setting::CropY => "crop_y"@,
        Setting::Quality => "quality"@,
    }
}

/// The address that sets `field` to `value`.
pub open spec fn setting_url(port: u16, field: Setting, value: nat) -> Seq<char> {
    device_url(port) + "/settings/"@ + setting_name(field) + "?set="@ + decimal(value)
}

/// The largest value a setting can take.
pub open spec fn setting_max(field: Setting) -> int {
    match field {
        Setting::CropX => 0xffff_ffff,
        Setting::CropY => 0xffff_ffff,
        Setting::Quality => 0xffff,
    }
}

/// What the device currently uses for a setting.
pub open spec fn setting_value(values: CurrentValues, field: Setting) -> int {
    match field {
        Setting::CropX => values.crop_x as int,
        Setting::CropY => values.crop_y as int,
        Setting::Quality => values.quality as int,
    }
}

/// `current` moved by `delta`, but never below zero and never above `max`.
pub open spec fn stepped(current: int, delta: int, max: int) -> int {
    if current + delta < 0 {
        0
    } else if current + delta > max {
        max
    } else {
        current + delta
    }
}

/// What the control loop does on a command.
#[derive(Clone, Debug, PartialEq, Eq)]
pub enum Reaction {
    /// Signal the end of the session and leave the loop; nothing is
    /// refreshed any more.
    Quit,
    /// Ask nothing of the device; refresh the cached state and redraw.
    Refresh,
    /// Fetch this address, then refresh the cached state and redraw,
    /// whether or not the fetch succeeded.
    Request(String),
    /// Set the orientation of the picture, then refresh and redraw.
    SetFlip(VideoOrientationMethod),
}

/// A reaction as plain values.
pub enum ReactionView {
    Quit,
    Refresh,
    Request(Seq<char>),
    SetFlip(VideoOrientationMethod),
}

impl View for Reaction {
    type V = ReactionView;

    open spec fn view(&self) -> ReactionView {
        match self {
            Reaction::Quit => ReactionView::Quit,
            Reaction::Refresh => ReactionView::Refresh,
            Reaction::Request(url) => ReactionView::Request(url@),
            Reaction::SetFlip(method) => ReactionView::SetFlip(*method),
        }
    }
}

/// Whether the cached state is refreshed and the status line redrawn after
/// a reaction: after every one but quitting, and whether or not the request
/// it made succeeded.
pub open spec fn refresh_follows(reaction: ReactionView) -> bool {
    !(reaction is Quit)
}

impl Reaction {
    /// Whether the cached state is to be refreshed and the status line
    /// redrawn once this reaction was carried out, with or without success.
    pub fn refreshes(&self) -> (follows: bool)
        ensures
            follows == refresh_follows(self@),
    {
        match self {
            Reaction::Quit => false,
            _ => true,
        }
    }
}

/// The control loop's knowledge of the device: the port its control surface
/// is forwarded to, the last status report, and the orientation of the
/// picture.
#[derive(Clone, Debug, PartialEq, Eq)]
pub struct CamControl {
    pub port: u16,
    pub cam_info: CamInfo,
    pub flip_method: VideoOrientationMethod,
}

/// The control loop's knowledge as plain values.
pub struct CamControlView {
    pub port: u16,
    pub cam_info: CamInfoView,
    pub flip_method: VideoOrientationMethod,
}

impl View for CamControl {
    type V = CamControlView;

    open spec fn view(&self) -> CamControlView {
        CamControlView {
            port: self.port,
            cam_info: self.cam_info@,
            flip_method: self.flip_method,
        }
    }
}

/// What a command asks of the control loop, given what it knows.
///
/// Zooming asks for the neighbouring zoom step by its index, not by its
/// value, and fails when the current zoom is not among the known steps.
/// Panning and the quality keys ask for the current value moved by one.
pub open spec fn reaction_for(control: CamControlView, command: Command) -> Result<
    ReactionView,
    ControlError,
> {
    let values = control.cam_info.curvals;
    match command {
        Command::Quit => Ok(ReactionView::Quit),
        Command::Nothing => Ok(ReactionView::Refresh),
        Command::ZoomIn => match zoom_position(control.cam_info) {
            Some((index, count)) => Ok(
                ReactionView::Request(zoom_url(control.port, zoom_in_index(index, count) as nat)),
            ),
            None => Err(ControlError::ZoomIn),
        },
        Command::ZoomOut => match zoom_position(control.cam_info) {
            Some((index, count)) => Ok(
                ReactionView::Request(zoom_url(control.port, zoom_out_index(index) as nat)),
            ),
            None => Err(ControlError::ZoomOut),
        },
        Command::PanLeft => Ok(ReactionView::Request(step_url(control, Setting::CropX, -1))),
        Command::PanRight => Ok(ReactionView::Request(step_url(control, Setting::CropX, 1))),
        Command::PanUp => Ok(ReactionView::Request(step_url(control, Setting::CropY, -1))),
        Command::PanDown => Ok(ReactionView::Request(step_url(control, Setting::CropY, 1))),
        Command::QualityUp => Ok(ReactionView::Request(step_url(control, Setting::Quality, 1))),
        Command::QualityDown => Ok(
            ReactionView::Request(step_url(control, Setting::Quality, -1)),
        ),
        Command::Flip => Ok(ReactionView::SetFlip(next_flip(control.flip_method))),
    }
}

/// The address that moves `field` by `delta` from its current value.
pub open spec fn step_url(control: CamControlView, field: Setting, delta: int) -> Seq<char> {
    setting_url(
        control.port,
        field,
        stepped(setting_value(control.cam_info.curvals, field), delta, setting_max(field)) as nat,
    )
}

/// A number in a field two characters wide: a single digit is moved to the
/// right by one blank.
pub open spec fn pad2(number: Seq<char>) -> Seq<char> {
    if number.len() < 2 {
        seq![' '] + number
    } else {
        number
    }
}

/// How the status line marks the orientation of the picture.
pub open spec fn flip_mark(method: VideoOrientationMethod) -> Seq<char> {
    match method {
        VideoOrientationMethod::Horiz => ", Flip: H"@,
        VideoOrientationMethod::Vert => ", Flip: V"@,
        _ => "         "@,
    }
}

/// The status line for a zoom in percent, a quality and an orientation. It
/// ends in a carriage return, so that the next one overwrites it.
pub open spec fn status_text(percent: nat, quality: nat, method: VideoOrientationMethod) -> Seq<
    char,
> {
    "Zoom: "@ + pad2(decimal(percent)) + " %, Quality: "@ + pad2(decimal(quality)) + " %"@
        + flip_mark(method) + "\r"@
}

/// The status line for what the control loop knows; `None` when the zoom
/// has no place among the steps. The zoom is shown as the place of the
/// current step, in hundredths of the number of steps, rounded down.
pub open spec fn status_line(control: CamControlView) -> Option<Seq<char>> {
    match zoom_position(control.cam_info) {
        Some((index, count)) => Some(
            status_text(
                (100 * index / count) as nat,
                control.cam_info.curvals.quality as nat,
                control.flip_method,
            ),
        ),
        None => None,
    }
}

/// The address that reports the device's status. Only the first request of
/// a session needs `init`, which also lists the choices the device offers.
pub fn status_request(port: u16, init: bool) -> (url: String)
    ensures
        url@ == status_url(port, init),
{
    let mut url = String::from_str("http://127.0.0.1:");
    push_decimal(&mut url, port as u64);
    url.append("/status.json?show_avail=");
    if init {
        url.append("1");
    } else {
        url.append("0");
    }
    url
}

/// The address that moves the zoom to the step with the given index.
pub fn zoom_request(port: u16, index: usize) -> (url: String)
    ensures
        url@ == zoom_url(port, index as nat),
{
    let mut url = String::from_str("http://127.0.0.1:");
    push_decimal(&mut url, port as u64);
    url.append("/ptz?zoom=");
    push_decimal(&mut url, index as u64);
    url
}

/// The address that sets `field` to `value`.
pub fn setting_request(port: u16, field: Setting, value: u32) -> (url: String)
    ensures
        url@ == setting_url(port, field, value as nat),
{
    let mut url = String::from_str("http://127.0.0.1:");
    push_decimal(&mut url, port as u64);
    url.append("/settings/");
    match field {
        Setting::CropX => url.append("crop_x"),
        Setting::CropY => url.append("crop_y"),
        Setting::Quality => url.append("quality"),
    }
    url.append("?set=");
    push_decimal(&mut url, value as u64);
    url
}

/// What the control loop does on a command while the device's controls
/// cannot be reached: only quitting is left.
pub fn fallback_command(command: Command) -> (reaction: Option<Reaction>)
    ensures
        command == Command::Quit ==> (reaction matches Some(r) && r@ == ReactionView::Quit),
        command != Command::Quit ==> reaction is None,
{
    match command {
        Command::Quit => Some(Reaction::Quit),
        _ => None,
    }
}

impl CamControl {
    /// Sets up the control loop's knowledge from the first status report and
    /// the orientation read from the picture. Both must have been obtained;
    /// where the report failed its error is handed on, else that of the
    /// orientation.
    pub fn new(
        port: u16,
        cam_info: Result<CamInfo, String>,
        flip_method: Result<VideoOrientationMethod, String>,
    ) -> (made: Result<CamControl, String>)
        ensures
            match (cam_info, flip_method) {
                (Ok(info), Ok(method)) => made matches Ok(control) && control.port == port
                    && control.cam_info == info && control.flip_method == method,
                (Err(e), _) => made matches Err(m) && m == e,
                (Ok(_), Err(e)) => made matches Err(m) && m == e,
            },
    {
        match cam_info {
            Err(e) => Err(e),
            Ok(info) => match flip_method {
                Err(e) => Err(e),
                Ok(method) => Ok(CamControl { port, cam_info: info, flip_method: method }),
            },
        }
    }

    /// The address of the first status report of a session, which also
    /// lists the zoom steps.
    pub fn first_request(port: u16) -> (url: String)
        ensures
            url@ == status_url(port, true),
    {
        status_request(port, true)
    }

    /// The address of every later status report: the zoom steps are not
    /// asked for again.
    pub fn refresh_request(&self) -> (url: String)
        ensures
            url@ == status_url(self.port, false),
    {
        status_request(self.port, false)
    }

    /// Takes over a fresh status report and the orientation read after a
    /// command. Of the report only the current values are kept: the zoom
    /// steps stay those of the first report. A failed report changes
    /// nothing; a failed orientation still leaves the new values in place.
    pub fn refresh(
        &mut self,
        cam_info: Result<CamInfo, String>,
        flip_method: Result<VideoOrientationMethod, String>,
    ) -> (done: Result<(), String>)
        ensures
            final(self).port == old(self).port,
            final(self).cam_info.avail == old(self).cam_info.avail,
            match (cam_info, flip_method) {
                (Ok(info), Ok(method)) => done is Ok && final(self).cam_info.curvals
                    == info.curvals && final(self).flip_method == method,
                (Err(e), _) => done matches Err(m) && m == e && *final(self) == *old(self),
                (Ok(info), Err(e)) => done matches Err(m) && m == e
                    && final(self).cam_info.curvals == info.curvals
                    && final(self).flip_method == old(self).flip_method,
            },
    {
        match cam_info {
            Err(e) => Err(e),
            Ok(info) => {
                self.cam_info.curvals = info.curvals;
                match flip_method {
                    Err(e) => Err(e),
                    Ok(method) => {
                        self.flip_method = method;
                        Ok(())
                    },
                }
            },
        }
    }

    /// Where the current zoom stands among the zoom steps, with the number
    /// of steps. A step counts when its text is the number of the current
    /// zoom; the first such step is taken.
    pub fn zoom_index(&self) -> (found: Option<(usize, usize)>)
        ensures
            match zoom_position(self@.cam_info) {
                Some((index, count)) => found matches Some((i, n)) && i == index && n == count,
                None => found is None,
            },
            found matches Some((i, n)) ==> i < n,
    {
        match &self.cam_info.avail {
            None => None,
            Some(avail) => {
                let count = avail.zoom.len();
                let zoom = self.cam_info.curvals.zoom;
                let ghost steps = avail@;
                let mut index: usize = 0;
                while index < count
                    invariant
                        index <= count,
                        count == avail.zoom.len(),
                        steps == avail.zoom.deep_view(),
                        steps.len() == count,
                        self@.cam_info.avail == Some(steps),
                        zoom == self@.cam_info.curvals.zoom,
                        first_step(steps, zoom, 0) == first_step(steps, zoom, index as int),
                    decreases count - index,
                {
                    assert(steps[index as int] == avail.zoom[index as int]@);
                    let same = match parse_number(avail.zoom[index].as_str(), 0xffff) {
                        Some(value) => value == zoom as u32,
                        None => false,
                    };
                    if same {
                        return Some((index, count));
                    }
                    index = index + 1;
                }
                None
            },
        }
    }

    /// The index of the zoom step to ask for on zooming in: the next one,
    /// or the last one when the zoom already stands on it.
    pub fn increment_zoom_index(&self) -> (next: Result<usize, ControlError>)
        ensures
            match zoom_position(self@.cam_info) {
                Some((index, count)) => next matches Ok(i) && i == zoom_in_index(index, count)
                    && i < count,
                None => next == Err::<usize, ControlError>(ControlError::ZoomIn),
            },
    {
        match self.zoom_index() {
            Some((index, count)) => {
                if index + 1 < count {
                    Ok(index + 1)
                } else {
                    Ok(index)
                }
            },
            None => Err(ControlError::ZoomIn),
        }
    }

    /// The index of the zoom step to ask for on zooming out: the one
    /// before, or the first one when the zoom already stands on it.
    pub fn decrement_zoom_index(&self) -> (next: Result<usize, ControlError>)
        ensures
            match zoom_position(self@.cam_info) {
                Some((index, count)) => next matches Ok(i) && i == zoom_out_index(index)
                    && i < count,
                None => next == Err::<usize, ControlError>(ControlError::ZoomOut),
            },
    {
        match self.zoom_index() {
            Some((index, _)) => {
                if index > 0 {
                    Ok(index - 1)
                } else {
                    Ok(0)
                }
            },
            None => Err(ControlError::ZoomOut),
        }
    }

    /// The value to ask for when `field` is moved by `delta`: the current
    /// value plus `delta`, but never below zero and never above what the
    /// setting can hold.
    pub fn apply_delta(&self, field: Setting, delta: i32) -> (value: u32)
        ensures
            value == stepped(
                setting_value(self.cam_info.curvals, field),
                delta as int,
                setting_max(field),
            ),
    {
        let current: i64 = match field {
            Setting::CropX => self.cam_info.curvals.crop_x as i64,
            Setting::CropY => self.cam_info.curvals.crop_y as i64,
            Setting::Quality => self.cam_info.curvals.quality as i64,
        };
        let max: i64 = match field {
            Setting::CropX => 0xffff_ffff,
            Setting::CropY => 0xffff_ffff,
            Setting::Quality => 0xffff,
        };
        let moved: i64 = current + delta as i64;
        if moved < 0 {
            0
        } else if moved > max {
            max as u32
        } else {
            moved as u32
        }
    }

    /// What the control loop does on `command`.
    pub fn process_command(&self, command: Command) -> (reaction: Result<Reaction, ControlError>)
        ensures
            match reaction_for(self@, command) {
                Ok(expected) => reaction matches Ok(r) && r@ == expected,
                Err(e) => reaction matches Err(f) && f == e,
            },
    {
        match command {
            Command::Quit => Ok(Reaction::Quit),
            Command::Nothing => Ok(Reaction::Refresh),
            Command::ZoomIn => match self.increment_zoom_index() {
                Ok(index) => Ok(Reaction::Request(zoom_request(self.port, index))),
                Err(e) => Err(e),
            },
            Command::ZoomOut => match self.decrement_zoom_index() {
                Ok(index) => Ok(Reaction::Request(zoom_request(self.port, index))),
                Err(e) => Err(e),
            },
            Command::PanLeft => Ok(self.step_request(Setting::CropX, -1)),
            Command::PanRight => Ok(self.step_request(Setting::CropX, 1)),
            Command::PanUp => Ok(self.step_request(Setting::CropY, -1)),
            Command::PanDown => Ok(self.step_request(Setting::CropY, 1)),
            Command::QualityUp => Ok(self.step_request(Setting::Quality, 1)),
            Command::QualityDown => Ok(self.step_request(Setting::Quality, -1)),
            Command::Flip => Ok(Reaction::SetFlip(self.flip_method.toggled())),
        }
    }

    /// The request that moves `field` by `delta`.
    fn step_request(&self, field: Setting, delta: i32) -> (reaction: Reaction)
        ensures
            reaction@ == ReactionView::Request(step_url(self@, field, delta as int)),
    {
        Reaction::Request(setting_request(self.port, field, self.apply_delta(field, delta)))
    }

    /// The status line to draw, if `visible` allows one and the zoom has a
    /// place among the steps.
    pub fn display_status(&self, visible: bool) -> (line: Option<String>)
        ensures
            match status_line(self@) {
                Some(text) => visible ==> (line matches Some(l) && l@ == text),
                None => line is None,
            },
            !visible ==> line is None,
    {
        if !visible {
            return None;
        }
        match self.zoom_index() {
            None => None,
            Some((index, count)) => {
                assert(0 <= 100 * (index as int) / (count as int) < 100) by (nonlinear_arith)
                    requires
                        0 <= index < count,
                ;
                let percent: u64 = ((index as u128) * 100 / (count as u128)) as u64;
                let mut line = String::from_str("Zoom: ");
                push_padded(&mut line, percent);
                line.append(" %, Quality: ");
                push_padded(&mut line, self.cam_info.curvals.quality as u64);
                line.append(" %");
                match self.flip_method {
                    VideoOrientationMethod::Horiz => line.append(", Flip: H"),
                    VideoOrientationMethod::Vert => line.append(", Flip: V"),
                    _ => line.append("         "),
                }
                line.append("\r");
                Some(line)
            },
        }
    }
}

/// Appends `n` in a field two characters wide.
fn push_padded(out: &mut String, n: u64)
    ensures
        final(out)@ == old(out)@ + pad2(decimal(n as nat)),
{
    proof {
        lemma_decimal_digits(n as nat);
        reveal_strlit(" ");
    }
    if n < 10 {
        out.append(" ");
    }
    push_decimal(out, n);
    assert(final(out)@ =~= old(out)@ + pad2(decimal(n as nat)));
}

} // verus!
