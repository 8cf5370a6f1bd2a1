//! Routing the camera's sound: what the audio server reports of itself,
//! the virtual devices that are set up for a session, and how they are
//! taken down again.

use crate::backend::{
    detect_version, echo_cancel_supported, precedes_release, regex_compiles,
    supports_echo_cancel, version_in, BackendVersion, BackendVersionView,
};
use crate::command::{
    command_views, push_command, CommandOutcome, CommandView, ExternalCommand, OutcomeView,
};
use crate::text::{
    decimal, decimal_string, find_char, find_pair, index_of_char, index_of_pair, lemma_find_char,
    parse_number, parse_unsigned, str_eq, trim, trimmed,
};
use vstd::prelude::*;
use vstd::string::*;

verus! {

/// What a report of the audio server says of the server's name and of the
/// devices it uses by default.
#[derive(Debug, PartialEq, Eq)]
pub struct ServerInfo {
    /// The name in the last line that gives one.
    pub server_name: Option<String>,
    pub default_sink: String,
    pub default_source: String,
}

/// A report as plain values.
pub struct ServerInfoView {
    pub server_name: Option<Seq<char>>,
    pub default_sink: Seq<char>,
    pub default_source: Seq<char>,
}

impl View for ServerInfo {
    type V = ServerInfoView;

    open spec fn view(&self) -> ServerInfoView {
        ServerInfoView {
            server_name: match self.server_name {
                Some(name) => Some(name@),
                None => None,
            },
            default_sink: self.default_sink@,
            default_source: self.default_source@,
        }
    }
}

/// The line of `s` that starts at `from`: it ends before the next line feed,
/// or at the end of the text. A carriage return directly before the line
/// feed belongs to the line ending.
pub open spec fn line_at(s: Seq<char>, from: int) -> Seq<char> {
    let end = find_char(s, '\n', from);
    if end < s.len() && from < end && s[end - 1] == '\r' {
        s.subrange(from, end - 1)
    } else {
        s.subrange(from, end)
    }
}

/// Where the line after the one at `from` starts.
pub open spec fn next_line(s: Seq<char>, from: int) -> int {
    let end = find_char(s, '\n', from);
    if end < s.len() {
        end + 1
    } else {
        end
    }
}

/// The lines of `s` from `from` on. A line feed at the very end of the text
/// starts no further line.
pub open spec fn lines_from(s: Seq<char>, from: int) -> Seq<Seq<char>>
    decreases s.len() - from,
    when 0 <= from
    via lines_from_decreases
{
    if from >= s.len() {
        Seq::empty()
    } else {
        seq![line_at(s, from)] + lines_from(s, next_line(s, from))
    }
}

#[via_fn]
proof fn lines_from_decreases(s: Seq<char>, from: int) {
    if from < s.len() {
        lemma_find_char(s, '\n', from);
    }
}

/// The lines of a text.
pub open spec fn lines(s: Seq<char>) -> Seq<Seq<char>> {
    lines_from(s, 0)
}

/// What stands in a line before the first colon and blank; the whole line
/// when there is none.
pub open spec fn field_key(line: Seq<char>) -> Seq<char> {
    line.subrange(0, find_pair(line, ':', ' ', 0))
}

/// What stands in a line after the first colon and blank, up to the next
/// colon and blank or the end of the line; `None` when the line has no
/// colon and blank.
pub open spec fn field_value(line: Seq<char>) -> Option<Seq<char>> {
    let cut = find_pair(line, ':', ' ', 0);
    if cut >= line.len() {
        None
    } else {
        Some(line.subrange(cut + 2, find_pair(line, ':', ' ', cut + 2)))
    }
}

/// The report before any line was read.
pub open spec fn empty_report() -> ServerInfoView {
    ServerInfoView {
        server_name: None,
        default_sink: Seq::empty(),
        default_source: Seq::empty(),
    }
}

/// A report after one more line. A server name replaces the one before; a
/// default sink or source is added to what was read before.
pub open spec fn with_line(report: ServerInfoView, line: Seq<char>) -> ServerInfoView {
    match field_value(line) {
        None => report,
        Some(value) => if field_key(line) == "Server Name"@ {
            ServerInfoView { server_name: Some(value), ..report }
        } else if field_key(line) == "Default Sink"@ {
            ServerInfoView { default_sink: report.default_sink + value, ..report }
        } else if field_key(line) == "Default Source"@ {
            ServerInfoView { default_source: report.default_source + value, ..report }
        } else {
            report
        },
    }
}

/// A report after the given lines, read in their order.
pub open spec fn with_lines(report: ServerInfoView, lines: Seq<Seq<char>>) -> ServerInfoView
    decreases lines.len(),
{
    if lines.len() == 0 {
        report
    } else {
        with_lines(with_line(report, lines.first()), lines.drop_first())
    }
}

/// What a report of the audio server says.
pub open spec fn report_of(info: Seq<char>) -> ServerInfoView {
    with_lines(empty_report(), lines(info))
}

impl ServerInfo {
    /// Takes one line of a report into account.
    fn read_line(&mut self, line: &str)
        ensures
            final(self)@ == with_line(old(self)@, line@),
    {
        let n = line.unicode_len();
        let cut = index_of_pair(line, ':', ' ', 0);
        if cut >= n {
            return ;
        }
        let key = line.substring_char(0, cut);
        let end = index_of_pair(line, ':', ' ', cut + 2);
        let value = line.substring_char(cut + 2, end);
        if str_eq(key, "Server Name") {
            self.server_name = Some(String::from_str(value));
        } else if str_eq(key, "Default Sink") {
            self.default_sink.append(value);
        } else if str_eq(key, "Default Source") {
            self.default_source.append(value);
        }
    }

    /// Reads a report of the audio server, line by line.
    pub fn parse(info: &str) -> (report: ServerInfo)
        ensures
            report@ == report_of(info@),
    {
        let mut report = ServerInfo {
            server_name: None,
            default_sink: String::new(),
            default_source: String::new(),
        };
        let n = info.unicode_len();
        let mut from: usize = 0;
        while from < n
            invariant
                from <= n,
                n == info@.len(),
                report_of(info@) == with_lines(report@, lines_from(info@, from as int)),
            decreases n - from,
        {
            let end = index_of_char(info, '\n', from);
            let stop = if end < n && from < end && info.get_char(end - 1) == '\r' {
                end - 1
            } else {
                end
            };
            let line = info.substring_char(from, stop);
            let ghost before = report@;
            let ghost rest = lines_from(info@, from as int);
            assert(line@ == line_at(info@, from as int));
            assert(rest.first() == line@);
            assert(rest.drop_first() =~= lines_from(info@, next_line(info@, from as int)));
            report.read_line(line);
            from = if end < n {
                end + 1
            } else {
                end
            };
        }
        report
    }
}

/// Whether echo is cancelled for the session, and by which module.
#[derive(Clone, Copy, Debug, PartialEq, Eq, Structural)]
pub enum EchoCancel {
    /// Echo is cancelled by the module with this id, once it is loaded.
    Pulseaudio { cancel_sink_id: u32 },
    /// The server cannot cancel echo, or it was not asked for.
    Disabled,
}

/// How far the virtual devices have been set up.
#[derive(Clone, Copy, Debug, PartialEq, Eq, Structural)]
pub enum AudioStage {
    /// Nothing is set up yet.
    Probed,
    /// The virtual sink is loaded.
    SinkLoaded,
    /// The echo cancelling module is loaded as well.
    EchoLoaded,
    /// The default source points to the echo cancelled microphone.
    SourceSet,
    /// All is set up.
    Ready,
}

/// Why the sound could not be routed.
#[derive(Clone, Copy, Debug, PartialEq, Eq, Structural)]
pub enum AudioError {
    /// The control program of the audio server is missing.
    NoControlProgram,
    /// The audio server gave no report.
    NoReport,
    /// The pattern that finds the server's version is no regular expression.
    Pattern,
    /// The virtual sink could not be loaded.
    LoadSink,
    /// The id of the virtual sink could not be read.
    SinkId,
    /// The echo cancelling module could not be loaded.
    LoadEchoCancel,
    /// The id of the echo cancelling module could not be read.
    CancelSinkId,
    /// The default source could not be changed.
    SetDefaultSource,
    /// The default sink could not be changed.
    SetDefaultSink,
}

/// The virtual devices of a session and what they replaced.
#[derive(Debug, PartialEq, Eq)]
pub struct AudioSupport {
    /// The source that was the default before the session.
    pub default_source: String,
    /// The sink that was the default before the session.
    pub default_sink: String,
    /// The id of the virtual sink's module, once it is loaded.
    pub sink_id: u32,
    pub echo_cancel: EchoCancel,
    pub stage: AudioStage,
}

/// The virtual devices of a session as plain values.
pub struct AudioSupportView {
    pub default_source: Seq<char>,
    pub default_sink: Seq<char>,
    pub sink_id: u32,
    pub echo_cancel: EchoCancel,
    pub stage: AudioStage,
}

impl View for AudioSupport {
    type V = AudioSupportView;

    open spec fn view(&self) -> AudioSupportView {
        AudioSupportView {
            default_source: self.default_source@,
            default_sink: self.default_sink@,
            sink_id: self.sink_id,
            echo_cancel: self.echo_cancel,
            stage: self.stage,
        }
    }
}

/// The pattern that finds the version of PipeWire in a server's name.
pub const PIPEWIRE_PATTERN: &'static str = "PipeWire ([^[[:space:]]\\)]+)?";

/// The version of PipeWire that a server's name gives; `None` for a name
/// that gives none.
pub open spec fn server_version(name: Seq<char>) -> Option<BackendVersionView> {
    version_in(PIPEWIRE_PATTERN@, name)
}

/// The devices of a session before anything is set up, for a server that
/// gave `report` and runs in `version`. Echo is cancelled only where it was
/// asked for and the server can do it.
pub open spec fn probed(
    report: ServerInfoView,
    version: Option<BackendVersionView>,
    echo_cancel: bool,
) -> AudioSupportView {
    AudioSupportView {
        default_source: report.default_source,
        default_sink: report.default_sink,
        sink_id: 0,
        echo_cancel: if echo_cancel && echo_cancel_supported(version) {
            EchoCancel::Pulseaudio { cancel_sink_id: 0 }
        } else {
            EchoCancel::Disabled
        },
        stage: AudioStage::Probed,
    }
}

/// A call of the audio server's control program.
pub open spec fn pactl(args: Seq<Seq<char>>) -> CommandView {
    CommandView { program: "pactl"@, args }
}

/// The command that loads the virtual sink.
pub open spec fn load_sink_command() -> CommandView {
    pactl(
        seq![
            "load-module"@,
            "module-null-sink"@,
            "sink_name=dcamctl_webcam"@,
            "format=S16LE rate=44100 channels=1"@,
            "sink_properties=\"device.description='dcamctl (raw)'\""@,
        ],
    )
}

/// The command that loads the echo cancelling module between the virtual
/// sink and the sink that was the default.
pub open spec fn load_echo_command(default_sink: Seq<char>) -> CommandView {
    pactl(
        seq![
            "load-module"@,
            "module-echo-cancel"@,
            "source_master=dcamctl_webcam.monitor"@,
            "source_name=dcamctl_webcam_ec_src"@,
            "source_properties=\"device.description='Webcam Virtual Microphone (EC-cancelled)'\""@,
            "sink_master="@ + default_sink,
            "sink_name=dcamctl_webcam_ec_aout"@,
            "sink_properties=\"device.description='Default Audio Out (EC-cancelled with Webcam Virtual Microphone)'\""@,
            "format=S16LE rate=44100 channels=1"@,
            "aec_method=\"webrtc\""@,
            "save_aec=true"@,
            "use_volume_sharing=true"@,
        ],
    )
}

/// The command that makes `name` the default source.
pub open spec fn set_source_command(name: Seq<char>) -> CommandView {
    pactl(seq!["set-default-source"@, name])
}

/// The command that makes `name` the default sink.
pub open spec fn set_sink_command(name: Seq<char>) -> CommandView {
    pactl(seq!["set-default-sink"@, name])
}

/// The command that unloads the module with the given id.
pub open spec fn unload_command(id: u32) -> CommandView {
    pactl(seq!["unload-module"@, decimal(id as nat)])
}

/// The id that the audio server printed for a module it loaded.
pub open spec fn module_id(output: Seq<char>) -> Option<nat> {
    parse_unsigned(trimmed(output), 0xffff_ffff)
}

/// The command that takes the set-up one step further; `None` when all is
/// set up. The steps are: load the virtual sink; where echo is cancelled,
/// load the echo cancelling module; point the default source to the
/// camera's microphone; where echo is cancelled, point the default sink to
/// the echo cancelled output.
pub open spec fn setup_step(audio: AudioSupportView) -> Option<CommandView> {
    match audio.stage {
        AudioStage::Probed => Some(load_sink_command()),
        AudioStage::SinkLoaded => match audio.echo_cancel {
            EchoCancel::Pulseaudio { .. } => Some(load_echo_command(audio.default_sink)),
            EchoCancel::Disabled => Some(set_source_command("dcamctl_webcam.monitor"@)),
        },
        AudioStage::EchoLoaded => Some(set_source_command("dcamctl_webcam_ec_src"@)),
        AudioStage::SourceSet => Some(set_sink_command("dcamctl_webcam_ec_aout"@)),
        AudioStage::Ready => None,
    }
}

/// The devices after the command of `setup_step` ended with `outcome`: one
/// step further where it succeeded, else the reason why the set-up failed.
pub open spec fn after_step(audio: AudioSupportView, outcome: OutcomeView) -> Result<
    AudioSupportView,
    AudioError,
> {
    match audio.stage {
        AudioStage::Probed => match outcome {
            OutcomeView::Succeeded { output } => match module_id(output) {
                Some(id) => Ok(
                    AudioSupportView { sink_id: id as u32, stage: AudioStage::SinkLoaded, ..audio },
                ),
                None => Err(AudioError::SinkId),
            },
            _ => Err(AudioError::LoadSink),
        },
        AudioStage::SinkLoaded => match audio.echo_cancel {
            EchoCancel::Pulseaudio { .. } => match outcome {
                OutcomeView::Succeeded { output } => match module_id(output) {
                    Some(id) => Ok(
                        AudioSupportView {
                            echo_cancel: EchoCancel::Pulseaudio { cancel_sink_id: id as u32 },
                            stage: AudioStage::EchoLoaded,
                            ..audio
                        },
                    ),
                    None => Err(AudioError::CancelSinkId),
                },
                _ => Err(AudioError::LoadEchoCancel),
            },
            EchoCancel::Disabled => if outcome is Succeeded {
                Ok(AudioSupportView { stage: AudioStage::Ready, ..audio })
            } else {
                Err(AudioError::SetDefaultSource)
            },
        },
        AudioStage::EchoLoaded => if outcome is Succeeded {
            Ok(AudioSupportView { stage: AudioStage::SourceSet, ..audio })
        } else {
            Err(AudioError::SetDefaultSource)
        },
        AudioStage::SourceSet => if outcome is Succeeded {
            Ok(AudioSupportView { stage: AudioStage::Ready, ..audio })
        } else {
            Err(AudioError::SetDefaultSink)
        },
        AudioStage::Ready => Ok(audio),
    }
}

/// Whether the default source was changed at this stage.
pub open spec fn defaults_changed(stage: AudioStage) -> bool {
    stage is SourceSet || stage is Ready
}

/// The id of the echo cancelling module, where one is loaded.
pub open spec fn loaded_echo_module(audio: AudioSupportView) -> Option<u32> {
    match audio.echo_cancel {
        EchoCancel::Pulseaudio { cancel_sink_id } => if audio.stage is EchoLoaded
            || audio.stage is SourceSet || audio.stage is Ready {
            Some(cancel_sink_id)
        } else {
            None
        },
        EchoCancel::Disabled => None,
    }
}

/// The commands that take down what was set up, in their order: the
/// default source and the default sink go back to what they were, the echo
/// cancelling module is unloaded where one was loaded, and the virtual sink
/// is unloaded last. What was never set up is not taken down.
pub open spec fn teardown_commands(audio: AudioSupportView) -> Seq<CommandView> {
    let restore = if defaults_changed(audio.stage) {
        seq![set_source_command(audio.default_source), set_sink_command(audio.default_sink)]
    } else {
        Seq::empty()
    };
    let echo = match loaded_echo_module(audio) {
        Some(id) => seq![unload_command(id)],
        None => Seq::empty(),
    };
    let sink = if audio.stage is Probed {
        Seq::empty()
    } else {
        seq![unload_command(audio.sink_id)]
    };
    restore + echo + sink
}

/// What holds of the devices at all times: the stages that follow the
/// loading of the echo cancelling module are reached only where echo is
/// cancelled.
pub open spec fn consistent(audio: AudioSupportView) -> bool {
    (audio.stage is EchoLoaded || audio.stage is SourceSet) ==> audio.echo_cancel is Pulseaudio
}

/// The devices are consistent before anything is set up, and every step of
/// the set-up keeps them so.
pub proof fn lemma_setup_keeps_consistent(
    report: ServerInfoView,
    version: Option<BackendVersionView>,
    echo_cancel: bool,
    audio: AudioSupportView,
    outcome: OutcomeView,
)
    requires
        consistent(audio),
    ensures
        consistent(probed(report, version, echo_cancel)),
        after_step(audio, outcome) matches Ok(next) ==> consistent(next),
{
}

/// Where no echo cancelling module is loaded, be it that echo is not
/// cancelled or that the set-up did not get that far, taking down the
/// devices never asks to unload one: the defaults are put back where they
/// were changed, and the virtual sink is unloaded where it was loaded.
pub proof fn lemma_teardown_without_echo_module(audio: AudioSupportView)
    requires
        loaded_echo_module(audio) is None,
    ensures
        teardown_commands(audio) == if audio.stage is Probed {
            Seq::<CommandView>::empty()
        } else if defaults_changed(audio.stage) {
            seq![
                set_source_command(audio.default_source),
                set_sink_command(audio.default_sink),
                unload_command(audio.sink_id),
            ]
        } else {
            seq![unload_command(audio.sink_id)]
        },
        audio.echo_cancel is Disabled ==> loaded_echo_module(audio) is None,
{
    assert(teardown_commands(audio) =~= if audio.stage is Probed {
        Seq::<CommandView>::empty()
    } else if defaults_changed(audio.stage) {
        seq![
            set_source_command(audio.default_source),
            set_sink_command(audio.default_sink),
            unload_command(audio.sink_id),
        ]
    } else {
        seq![unload_command(audio.sink_id)]
    });
}

/// A server that runs a PipeWire before 0.3.30 never gets echo cancelled,
/// asked for or not.
pub proof fn lemma_old_pipewire_disables_echo_cancel(
    report: ServerInfoView,
    version: BackendVersionView,
    echo_cancel: bool,
)
    requires
        precedes_release(version, 0, 3, 30),
    ensures
        probed(report, Some(version), echo_cancel).echo_cancel == EchoCancel::Disabled,
{
}

/// A call of the audio server's control program with one word.
fn pactl_command(word: &str) -> (command: ExternalCommand)
    ensures
        command@ == pactl(seq![word@]),
{
    let mut command = ExternalCommand::new("pactl");
    command.arg(word);
    assert(command@.args =~= seq![word@]);
    command
}

/// A call of the audio server's control program with two words.
fn pactl_command2(word: &str, name: &str) -> (command: ExternalCommand)
    ensures
        command@ == pactl(seq![word@, name@]),
{
    let mut command = ExternalCommand::new("pactl");
    command.arg(word);
    command.arg(name);
    assert(command@.args =~= seq![word@, name@]);
    command
}

/// The command that tells whether the audio server's control program is
/// there.
pub fn version_command() -> (command: ExternalCommand)
    ensures
        command@ == pactl(seq!["--version"@]),
{
    pactl_command("--version")
}

/// The command that asks the audio server for a report of itself.
pub fn info_command() -> (command: ExternalCommand)
    ensures
        command@ == pactl(seq!["info"@]),
{
    pactl_command("info")
}

/// The command that unloads the module with the given id.
pub fn unload_module(id: u32) -> (command: ExternalCommand)
    ensures
        command@ == unload_command(id),
{
    let text = decimal_string(id as u64);
    pactl_command2("unload-module", text.as_str())
}

/// Reads the id that the audio server printed for a module it loaded: a
/// number, with white space around it.
pub fn parse_module_id(output: &str) -> (id: Option<u32>)
    ensures
        match module_id(output@) {
            Some(v) => id == Some(v as u32),
            None => id is None,
        },
{
    parse_number(trim(output), 0xffff_ffff)
}

/// Tells from the outcome of `version_command` whether the audio server's
/// control program is there.
pub fn require_control_program(outcome: &CommandOutcome) -> (found: Result<(), AudioError>)
    ensures
        outcome@ is Succeeded ==> found is Ok,
        !(outcome@ is Succeeded) ==> found == Err::<(), AudioError>(AudioError::NoControlProgram),
{
    if outcome.succeeded() {
        Ok(())
    } else {
        Err(AudioError::NoControlProgram)
    }
}

impl EchoCancel {
    /// The command that loads the echo cancelling module; `None` where echo
    /// is not cancelled.
    pub fn load_command(&self, default_sink: &str) -> (command: Option<ExternalCommand>)
        ensures
            match self {
                EchoCancel::Pulseaudio { .. } => command matches Some(c) && c@
                    == load_echo_command(default_sink@),
                EchoCancel::Disabled => command is None,
            },
    {
        match self {
            EchoCancel::Disabled => None,
            EchoCancel::Pulseaudio { .. } => {
                let mut master = String::from_str("sink_master=");
                master.append(default_sink);
                let mut command = ExternalCommand::new("pactl");
                command.arg("load-module");
                command.arg("module-echo-cancel");
                command.arg("source_master=dcamctl_webcam.monitor");
                command.arg("source_name=dcamctl_webcam_ec_src");
                command.arg(
                    "source_properties=\"device.description='Webcam Virtual Microphone (EC-cancelled)'\"",
                );
                command.arg(master.as_str());
                command.arg("sink_name=dcamctl_webcam_ec_aout");
                command.arg(
                    "sink_properties=\"device.description='Default Audio Out (EC-cancelled with Webcam Virtual Microphone)'\"",
                );
                command.arg("format=S16LE rate=44100 channels=1");
                command.arg("aec_method=\"webrtc\"");
                command.arg("save_aec=true");
                command.arg("use_volume_sharing=true");
                assert(command@.args =~= load_echo_command(default_sink@).args);
                Some(command)
            },
        }
    }

    /// Takes over the id that the audio server printed for the echo
    /// cancelling module.
    pub fn setup(&mut self, output: &str) -> (done: Result<(), AudioError>)
        ensures
            match *old(self) {
                EchoCancel::Pulseaudio { .. } => match module_id(output@) {
                    Some(id) => done is Ok && *final(self) == (EchoCancel::Pulseaudio {
                        cancel_sink_id: id as u32,
                    }),
                    None => done == Err::<(), AudioError>(AudioError::CancelSinkId) && *final(self)
                        == *old(self),
                },
                EchoCancel::Disabled => done is Ok && *final(self) == *old(self),
            },
    {
        match self {
            EchoCancel::Disabled => Ok(()),
            EchoCancel::Pulseaudio { .. } => match parse_module_id(output) {
                Some(id) => {
                    *self = EchoCancel::Pulseaudio { cancel_sink_id: id };
                    Ok(())
                },
                None => Err(AudioError::CancelSinkId),
            },
        }
    }
}

impl AudioSupport {
    /// The devices of a session before anything is set up, for a server
    /// that gave `report` and runs in `version`; `None` stands for a server
    /// that names no PipeWire version.
    pub fn with_backend(report: ServerInfo, version: &Option<BackendVersion>, echo_cancel: bool) -> (audio: AudioSupport)
        ensures
            audio@ == probed(
                report@,
                match version {
                    Some(v) => Some(v@),
                    None => None,
                },
                echo_cancel,
            ),
    {
        let supported = supports_echo_cancel(version);
        AudioSupport {
            default_source: report.default_source,
            default_sink: report.default_sink,
            sink_id: 0,
            echo_cancel: if echo_cancel && supported {
                EchoCancel::Pulseaudio { cancel_sink_id: 0 }
            } else {
                EchoCancel::Disabled
            },
            stage: AudioStage::Probed,
        }
    }

    /// Reads the report that `info_command` gave and decides how the sound
    /// of the session is routed. A report that names no server means that
    /// no audio server is known: the session then runs without sound. Echo
    /// is cancelled only where `echo_cancel` asks for it and the server can
    /// do it.
    pub fn new(echo_cancel: bool, info: &CommandOutcome) -> (made: Result<
        Option<AudioSupport>,
        AudioError,
    >)
        ensures
            match info@ {
                OutcomeView::Succeeded { output } => match report_of(output).server_name {
                    None => made matches Ok(None),
                    Some(name) => if regex_compiles(PIPEWIRE_PATTERN@) {
                        made matches Ok(Some(audio)) && audio@ == probed(
                            report_of(output),
                            server_version(name),
                            echo_cancel,
                        )
                    } else {
                        made == Err::<Option<AudioSupport>, AudioError>(AudioError::Pattern)
                    },
                },
                _ => made == Err::<Option<AudioSupport>, AudioError>(AudioError::NoReport),
            },
    {
        let output = match info {
            CommandOutcome::Succeeded { output } => output,
            _ => {
                return Err(AudioError::NoReport);
            },
        };
        let report = ServerInfo::parse(output.as_str());
        let version = match &report.server_name {
            None => {
                return Ok(None);
            },
            Some(name) => match detect_version(PIPEWIRE_PATTERN, name.as_str()) {
                Err(_) => {
                    return Err(AudioError::Pattern);
                },
                Ok(found) => found,
            },
        };
        Ok(Some(AudioSupport::with_backend(report, &version, echo_cancel)))
    }

    /// The command that takes the set-up one step further; `None` when all
    /// is set up.
    pub fn setup_command(&self) -> (command: Option<ExternalCommand>)
        ensures
            match setup_step(self@) {
                Some(expected) => command matches Some(c) && c@ == expected,
                None => command is None,
            },
    {
        match self.stage {
            AudioStage::Probed => {
                let mut command = ExternalCommand::new("pactl");
                command.arg("load-module");
                command.arg("module-null-sink");
                command.arg("sink_name=dcamctl_webcam");
                command.arg("format=S16LE rate=44100 channels=1");
                command.arg("sink_properties=\"device.description='dcamctl (raw)'\"");
                assert(command@.args =~= load_sink_command().args);
                Some(command)
            },
            AudioStage::SinkLoaded => match self.echo_cancel {
                EchoCancel::Pulseaudio { .. } => self.echo_cancel.load_command(
                    self.default_sink.as_str(),
                ),
                EchoCancel::Disabled => Some(
                    pactl_command2("set-default-source", "dcamctl_webcam.monitor"),
                ),
            },
            AudioStage::EchoLoaded => Some(
                pactl_command2("set-default-source", "dcamctl_webcam_ec_src"),
            ),
            AudioStage::SourceSet => Some(
                pactl_command2("set-default-sink", "dcamctl_webcam_ec_aout"),
            ),
            AudioStage::Ready => None,
        }
    }

    /// Takes the set-up one step further, given how the command of
    /// `setup_command` ended. Where the command failed, or printed no id
    /// for a module it loaded, the set-up has failed and stays where it was.
    pub fn setup(&mut self, outcome: &CommandOutcome) -> (done: Result<(), AudioError>)
        ensures
            match after_step(old(self)@, outcome@) {
                Ok(next) => done is Ok && final(self)@ == next,
                Err(e) => done == Err::<(), AudioError>(e) && final(self)@ == old(self)@,
            },
    {
        match self.stage {
            AudioStage::Probed => match outcome {
                CommandOutcome::Succeeded { output } => match parse_module_id(output.as_str()) {
                    Some(id) => {
                        self.sink_id = id;
                        self.stage = AudioStage::SinkLoaded;
                        Ok(())
                    },
                    None => Err(AudioError::SinkId),
                },
                _ => Err(AudioError::LoadSink),
            },
            AudioStage::SinkLoaded => match self.echo_cancel {
                EchoCancel::Pulseaudio { .. } => match outcome {
                    CommandOutcome::Succeeded { output } => {
                        match self.echo_cancel.setup(output.as_str()) {
                            Ok(()) => {
                                self.stage = AudioStage::EchoLoaded;
                                Ok(())
                            },
                            Err(e) => Err(e),
                        }
                    },
                    _ => Err(AudioError::LoadEchoCancel),
                },
                EchoCancel::Disabled => {
                    if outcome.succeeded() {
                        self.stage = AudioStage::Ready;
                        Ok(())
                    } else {
                        Err(AudioError::SetDefaultSource)
                    }
                },
            },
            AudioStage::EchoLoaded => {
                if outcome.succeeded() {
                    self.stage = AudioStage::SourceSet;
                    Ok(())
                } else {
                    Err(AudioError::SetDefaultSource)
                }
            },
            AudioStage::SourceSet => {
                if outcome.succeeded() {
                    self.stage = AudioStage::Ready;
                    Ok(())
                } else {
                    Err(AudioError::SetDefaultSink)
                }
            },
            AudioStage::Ready => Ok(()),
        }
    }

    /// The commands that take down what was set up, in their order. Each of
    /// them is to be run whether or not the ones before it succeeded.
    pub fn teardown(&self) -> (commands: Vec<ExternalCommand>)
        ensures
            command_views(commands@) == teardown_commands(self@),
    {
        let mut commands: Vec<ExternalCommand> = Vec::new();
        assert(command_views(commands@) =~= Seq::<CommandView>::empty());
        let changed = match self.stage {
            AudioStage::SourceSet | AudioStage::Ready => true,
            _ => false,
        };
        if changed {
            push_command(
                &mut commands,
                pactl_command2("set-default-source", self.default_source.as_str()),
            );
            push_command(
                &mut commands,
                pactl_command2("set-default-sink", self.default_sink.as_str()),
            );
        }
        match self.echo_cancel {
            EchoCancel::Pulseaudio { cancel_sink_id } => {
                match self.stage {
                    AudioStage::EchoLoaded | AudioStage::SourceSet | AudioStage::Ready => {
                        push_command(&mut commands, unload_module(cancel_sink_id));
                    },
                    _ => {},
                }
            },
            EchoCancel::Disabled => {},
        }
        match self.stage {
            AudioStage::Probed => {},
            _ => {
                push_command(&mut commands, unload_module(self.sink_id));
            },
        }
        assert(command_views(commands@) =~= teardown_commands(self@));
        commands
    }
}

} // verus!
