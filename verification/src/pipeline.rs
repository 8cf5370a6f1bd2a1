//! The media pipeline of a session: how it is described to the media
//! engine, the states it goes through, and what ends its run.

use crate::audio::{AudioSupport, AudioSupportView};
use crate::config::Resolution;
use crate::text::{decimal, push_decimal, str_eq};
use vstd::prelude::*;
use vstd::string::*;

verus! {

/// The states of a pipeline.
#[derive(Clone, Copy, Debug, PartialEq, Eq, Structural)]
pub enum PipelineState {
    Idle,
    Playing,
    Paused,
    Closed,
}

/// What the media engine reports while the pipeline plays.
#[derive(Clone, Copy, Debug, PartialEq, Eq, Structural)]
pub enum PipelineEvent {
    EndOfStream,
    Error,
    Other,
}

/// What can end the run of a pipeline.
#[derive(Clone, Copy, Debug, PartialEq, Eq, Structural)]
pub enum StopCause {
    /// A signal asked the program to end.
    Signal,
    /// The operator pressed the quit key.
    Quit,
    /// The pipeline reached its end or failed.
    Pipeline,
}

/// What happens while a pipeline plays.
#[derive(Clone, Copy, Debug, PartialEq, Eq, Structural)]
pub enum RunEvent {
    Signal,
    Quit,
    Message(PipelineEvent),
}

/// What to do after an event of the run.
#[derive(Clone, Copy, Debug, PartialEq, Eq, Structural)]
pub enum RunAction {
    /// Keep playing and wait for the next event.
    Continue,
    /// Pause the pipeline and stop waiting for events: the run is over.
    Pause,
    /// The run was over already; nothing has changed.
    Ignore,
}

/// Why a pipeline could not be started.
#[derive(Clone, Copy, Debug, PartialEq, Eq, Structural)]
pub enum PipelineError {
    /// Only an idle pipeline can be started.
    NotIdle,
    /// The media engine could not start the pipeline.
    StartFailed,
}

/// The pipeline of a session, with what it holds.
#[derive(Debug, PartialEq, Eq)]
pub struct Dcam {
    pub port: u16,
    /// The description handed to the media engine.
    pub pipeline: String,
    pub resolution: Resolution,
    pub audio: Option<AudioSupport>,
    pub state: PipelineState,
    /// What ended the run; `None` while it has not ended.
    pub stopped_by: Option<StopCause>,
}

/// A pipeline as plain values.
pub struct DcamView {
    pub port: u16,
    pub pipeline: Seq<char>,
    pub resolution: Resolution,
    pub audio: Option<AudioSupportView>,
    pub race: RaceView,
}

/// The part of a pipeline that its run changes.
pub struct RaceView {
    pub state: PipelineState,
    pub stopped_by: Option<StopCause>,
}

impl View for Dcam {
    type V = DcamView;

    open spec fn view(&self) -> DcamView {
        DcamView {
            port: self.port,
            pipeline: self.pipeline@,
            resolution: self.resolution,
            audio: match self.audio {
                Some(a) => Some(a@),
                None => None,
            },
            race: RaceView { state: self.state, stopped_by: self.stopped_by },
        }
    }
}

/// The resolution of the picture: the one asked for, else the one the
/// device was found to use, else 640 by 480.
pub open spec fn resolved(requested: Option<Resolution>, detected: Option<Resolution>) -> Resolution {
    match requested {
        Some(r) => r,
        None => match detected {
            Some(d) => d,
            None => Resolution { height: 480, width: 640 },
        },
    }
}

/// The media engine's name for a way to mirror the picture. Anything but
/// `horizontal` and `vertical` leaves the picture as it is.
pub open spec fn flip_name(flip: Option<Seq<char>>) -> Seq<char> {
    match flip {
        Some(f) => if f == "horizontal"@ {
            "horizontal-flip"@
        } else if f == "vertical"@ {
            "vertical-flip"@
        } else {
            "none"@
        },
        None => "none"@,
    }
}

/// The format of the picture handed to the capture device.
pub open spec fn caps(resolution: Resolution) -> Seq<char> {
    "video/x-raw,format=YUY2,width="@ + decimal(resolution.width as nat) + ",height="@ + decimal(
        resolution.height as nat,
    )
}

/// The branch of the pipeline that plays the device's sound into the
/// virtual sink.
pub open spec fn audio_branch(port: u16) -> Seq<char> {
    "souphttpsrc location=http://127.0.0.1:"@ + decimal(port as nat)
        + "/audio.wav do-timestamp=true is-live=true ! audio/x-raw,format=S16LE,layout=interleaved,rate=44100,channels=1 ! queue ! pulsesink device=dcamctl_webcam sync=true "@
}

/// The branch of the pipeline that takes the device's picture, mirrors and
/// scales it, and hands it to the capture device.
pub open spec fn video_branch(port: u16, method: Seq<char>, caps: Seq<char>, device: Seq<char>) -> Seq<
    char,
> {
    "souphttpsrc location=http://127.0.0.1:"@ + decimal(port as nat)
        + "/videofeed do-timestamp=true is-live=true ! queue ! multipartdemux ! decodebin ! videoflip name=flip_elem method=\""@
        + method + "\" ! videoconvert ! videoscale ! "@ + caps + " ! v4l2sink device="@ + device
        + " sync=true"@
}

/// The description of the whole pipeline: the audio branch, where sound is
/// routed, and then the video branch.
pub open spec fn pipeline_description(
    audio: bool,
    device: Seq<char>,
    resolution: Resolution,
    port: u16,
    flip: Option<Seq<char>>,
) -> Seq<char> {
    let video = video_branch(port, flip_name(flip), caps(resolution), device);
    if audio {
        audio_branch(port) + video
    } else {
        video
    }
}

/// What ends the run, if the event does: a signal, the quit key, or the
/// pipeline's end or failure.
pub open spec fn stop_cause(event: RunEvent) -> Option<StopCause> {
    match event {
        RunEvent::Signal => Some(StopCause::Signal),
        RunEvent::Quit => Some(StopCause::Quit),
        RunEvent::Message(PipelineEvent::EndOfStream) => Some(StopCause::Pipeline),
        RunEvent::Message(PipelineEvent::Error) => Some(StopCause::Pipeline),
        RunEvent::Message(PipelineEvent::Other) => None,
    }
}

/// The pipeline after an event of its run. Only a playing pipeline
/// changes, and only on an event that ends the run: it is paused, and what
/// ended it is kept.
pub open spec fn after_event(race: RaceView, event: RunEvent) -> RaceView {
    if race.state == PipelineState::Playing {
        match stop_cause(event) {
            Some(cause) => RaceView { state: PipelineState::Paused, stopped_by: Some(cause) },
            None => race,
        }
    } else {
        race
    }
}

/// What to do after an event of the run.
pub open spec fn action_for(race: RaceView, event: RunEvent) -> RunAction {
    if race.state == PipelineState::Playing {
        if stop_cause(event) is Some {
            RunAction::Pause
        } else {
            RunAction::Continue
        }
    } else {
        RunAction::Ignore
    }
}

/// The pipeline after a run of events.
pub open spec fn after_events(race: RaceView, events: Seq<RunEvent>) -> RaceView
    decreases events.len(),
{
    if events.len() == 0 {
        race
    } else {
        after_events(after_event(race, events.first()), events.drop_first())
    }
}

/// What ends the run in the first event that does so; `None` when no event
/// does.
pub open spec fn first_cause(events: Seq<RunEvent>) -> Option<StopCause>
    decreases events.len(),
{
    if events.len() == 0 {
        None
    } else {
        match stop_cause(events.first()) {
            Some(cause) => Some(cause),
            None => first_cause(events.drop_first()),
        }
    }
}

/// The states that the media engine is asked to go through to close the
/// pipeline: a playing pipeline is paused first; a closed one stays as it
/// is.
pub open spec fn closing_states(state: PipelineState) -> Seq<PipelineState> {
    match state {
        PipelineState::Playing => seq![PipelineState::Paused, PipelineState::Closed],
        PipelineState::Closed => Seq::empty(),
        _ => seq![PipelineState::Closed],
    }
}

/// What holds of a pipeline at all times: as long as it has not played to
/// an end, nothing has ended its run.
pub open spec fn settled(race: RaceView) -> bool {
    (race.state is Idle || race.state is Playing) ==> race.stopped_by is None
}

/// No event of the run unsettles a pipeline, and a run that ends leaves
/// the pipeline paused with its cause kept.
pub proof fn lemma_event_keeps_settled(race: RaceView, event: RunEvent)
    requires
        settled(race),
    ensures
        settled(after_event(race, event)),
        after_event(race, event) != race ==> after_event(race, event).state
            == PipelineState::Paused && after_event(race, event).stopped_by is Some,
{
}

/// Once the run is over, no event changes the pipeline any more.
pub proof fn lemma_run_is_over(race: RaceView, events: Seq<RunEvent>)
    requires
        race.state != PipelineState::Playing,
    ensures
        after_events(race, events) == race,
        forall|i: int| 0 <= i < events.len() ==> action_for(race, #[trigger] events[i])
            == RunAction::Ignore,
    decreases events.len(),
{
    if events.len() > 0 {
        lemma_run_is_over(race, events.drop_first());
    }
}

/// Of all that could end the run of a playing pipeline, the first to
/// happen does, and it alone: whatever happens after it leaves the pipeline
/// as the first left it.
pub proof fn lemma_first_cause_wins(race: RaceView, events: Seq<RunEvent>)
    requires
        race.state == PipelineState::Playing,
        race.stopped_by is None,
    ensures
        after_events(race, events).stopped_by == first_cause(events),
        first_cause(events) is Some <==> after_events(race, events).state == PipelineState::Paused,
        first_cause(events) is None ==> after_events(race, events) == race,
    decreases events.len(),
{
    if events.len() > 0 {
        let next = after_event(race, events.first());
        if stop_cause(events.first()) is Some {
            lemma_run_is_over(next, events.drop_first());
        } else {
            lemma_first_cause_wins(race, events.drop_first());
        }
    }
}

/// One event ends the run and a second one, whatever it is, changes
/// nothing.
pub proof fn lemma_second_cause_changes_nothing(race: RaceView, first: RunEvent, second: RunEvent)
    requires
        race.state == PipelineState::Playing,
        stop_cause(first) is Some,
    ensures
        after_event(after_event(race, first), second) == after_event(race, first),
        after_event(race, first).stopped_by == stop_cause(first),
        action_for(after_event(race, first), second) == RunAction::Ignore,
{
}

/// The media engine's name for a way to mirror the picture.
pub fn flip_method_name(flip: &Option<String>) -> (name: &'static str)
    ensures
        name@ == flip_name(
            match flip {
                Some(f) => Some(f@),
                None => None,
            },
        ),
{
    match flip {
        Some(f) => {
            if str_eq(f.as_str(), "horizontal") {
                "horizontal-flip"
            } else if str_eq(f.as_str(), "vertical") {
                "vertical-flip"
            } else {
                "none"
            }
        },
        None => "none",
    }
}

/// The format of the picture handed to the capture device.
pub fn caps_text(resolution: Resolution) -> (text: String)
    ensures
        text@ == caps(resolution),
{
    let mut text = String::from_str("video/x-raw,format=YUY2,width=");
    push_decimal(&mut text, resolution.width as u64);
    text.append(",height=");
    push_decimal(&mut text, resolution.height as u64);
    text
}

/// The resolution of the picture: the one asked for, else the one the
/// device was found to use, else 640 by 480.
pub fn resolve_resolution(requested: Option<Resolution>, detected: Option<Resolution>) -> (size:
    Resolution)
    ensures
        size == resolved(requested, detected),
{
    match requested {
        Some(r) => r,
        None => match detected {
            Some(d) => d,
            None => Resolution { height: 480, width: 640 },
        },
    }
}

impl Dcam {
    /// Describes the pipeline of a session. `detected` is the resolution
    /// the device was found to use, if it was asked and answered; it counts
    /// only where no resolution is asked for. The pipeline is idle.
    pub fn setup(
        audio: Option<AudioSupport>,
        device: &str,
        resolution: Option<Resolution>,
        detected: Option<Resolution>,
        port: u16,
        flip: Option<String>,
    ) -> (dcam: Dcam)
        ensures
            dcam.port == port,
            dcam.audio == audio,
            dcam.resolution == resolved(resolution, detected),
            dcam.state == PipelineState::Idle,
            dcam.stopped_by is None,
            dcam.pipeline@ == pipeline_description(
                audio is Some,
                device@,
                resolved(resolution, detected),
                port,
                match flip {
                    Some(f) => Some(f@),
                    None => None,
                },
            ),
    {
        let size = resolve_resolution(resolution, detected);
        let method = flip_method_name(&flip);
        let caps = caps_text(size);
        let mut video = String::from_str("souphttpsrc location=http://127.0.0.1:");
        push_decimal(&mut video, port as u64);
        video.append(
            "/videofeed do-timestamp=true is-live=true ! queue ! multipartdemux ! decodebin ! videoflip name=flip_elem method=\"",
        );
        video.append(method);
        video.append("\" ! videoconvert ! videoscale ! ");
        video.append(caps.as_str());
        video.append(" ! v4l2sink device=");
        video.append(device);
        video.append(" sync=true");
        let pipeline = if audio.is_some() {
            let mut sound = String::from_str("souphttpsrc location=http://127.0.0.1:");
            push_decimal(&mut sound, port as u64);
            sound.append(
                "/audio.wav do-timestamp=true is-live=true ! audio/x-raw,format=S16LE,layout=interleaved,rate=44100,channels=1 ! queue ! pulsesink device=dcamctl_webcam sync=true ",
            );
            sound.append(video.as_str());
            sound
        } else {
            video
        };
        Dcam {
            port,
            pipeline,
            resolution: size,
            audio,
            state: PipelineState::Idle,
            stopped_by: None,
        }
    }

    /// Takes note that the media engine was asked to play the pipeline;
    /// `engine_started` tells whether it did. Only an idle pipeline can be
    /// started.
    pub fn start(&mut self, engine_started: bool) -> (started: Result<(), PipelineError>)
        ensures
            final(self).port == old(self).port,
            final(self).pipeline == old(self).pipeline,
            final(self).resolution == old(self).resolution,
            final(self).audio == old(self).audio,
            final(self).stopped_by == old(self).stopped_by,
            old(self).state != PipelineState::Idle ==> started == Err::<(), PipelineError>(
                PipelineError::NotIdle,
            ) && final(self).state == old(self).state,
            old(self).state == PipelineState::Idle && !engine_started ==> started == Err::<
                (),
                PipelineError,
            >(PipelineError::StartFailed) && final(self).state == PipelineState::Idle,
            old(self).state == PipelineState::Idle && engine_started ==> started is Ok
                && final(self).state == PipelineState::Playing,
    {
        match self.state {
            PipelineState::Idle => {
                if engine_started {
                    self.state = PipelineState::Playing;
                    Ok(())
                } else {
                    Err(PipelineError::StartFailed)
                }
            },
            _ => Err(PipelineError::NotIdle),
        }
    }

    /// Takes note of one event of the run and tells what to do. The run of
    /// a playing pipeline ends with the first signal, quit key, end of
    /// stream or failure; events after that are ignored.
    pub fn run(&mut self, event: RunEvent) -> (action: RunAction)
        ensures
            final(self)@.race == after_event(old(self)@.race, event),
            action == action_for(old(self)@.race, event),
            final(self).port == old(self).port,
            final(self).pipeline == old(self).pipeline,
            final(self).resolution == old(self).resolution,
            final(self).audio == old(self).audio,
    {
        match self.state {
            PipelineState::Playing => {
                let cause = match event {
                    RunEvent::Signal => Some(StopCause::Signal),
                    RunEvent::Quit => Some(StopCause::Quit),
                    RunEvent::Message(PipelineEvent::EndOfStream) => Some(StopCause::Pipeline),
                    RunEvent::Message(PipelineEvent::Error) => Some(StopCause::Pipeline),
                    RunEvent::Message(PipelineEvent::Other) => None,
                };
                match cause {
                    Some(c) => {
                        self.state = PipelineState::Paused;
                        self.stopped_by = Some(c);
                        RunAction::Pause
                    },
                    None => RunAction::Continue,
                }
            },
            _ => RunAction::Ignore,
        }
    }

    /// Closes the pipeline and tells which states the media engine is to be
    /// asked for, in their order. Closing a closed pipeline asks for
    /// nothing.
    pub fn stop(&mut self) -> (states: Vec<PipelineState>)
        ensures
            states@ == closing_states(old(self).state),
            final(self).state == PipelineState::Closed,
            final(self).port == old(self).port,
            final(self).pipeline == old(self).pipeline,
            final(self).resolution == old(self).resolution,
            final(self).audio == old(self).audio,
            final(self).stopped_by == old(self).stopped_by,
    {
        let mut states: Vec<PipelineState> = Vec::new();
        match self.state {
            PipelineState::Playing => {
                states.push(PipelineState::Paused);
                states.push(PipelineState::Closed);
            },
            PipelineState::Closed => {},
            _ => {
                states.push(PipelineState::Closed);
            },
        }
        self.state = PipelineState::Closed;
        assert(states@ =~= closing_states(old(self).state));
        states
    }
}

} // verus!
