//! PulseAudio-compatible mixer vocabulary, capability rules and service state.

use vstd::prelude::*;

use crate::capability::{CapabilityEvidence, CapabilityReport, CapabilityStatus};
use crate::text::{decimal, decimal_text, owned};

verus! {

/// The stable feature ID of the audio mixer.
pub const FEATURE_ID: &'static str = "audio.mixer";

/// The raw volume that stands for one hundred percent.
pub const NORMAL_VOLUME: u32 = 65536;

/// The lowest volume a stream can be set to.
pub const MIN_VOLUME_PERCENT: u8 = 0;

/// The highest volume a stream can be set to; amplification is refused.
pub const MAX_VOLUME_PERCENT: u8 = 100;

/// The audio server a discovery reached.
#[derive(Debug, Clone, PartialEq, Eq)]
pub struct AudioServer {
    pub name: Option<String>,
    pub version: Option<String>,
    pub protocol_version: Option<u32>,
    pub default_output_name: Option<String>,
}

/// One output device.
#[derive(Debug, Clone, PartialEq, Eq)]
pub struct OutputDevice {
    pub id: u32,
    pub name: String,
    pub description: String,
    pub volume_percent: u8,
    pub muted: bool,
}

/// One playback stream.
#[derive(Debug, Clone, PartialEq, Eq)]
pub struct PlaybackStream {
    pub id: u32,
    pub name: String,
    pub application_name: Option<String>,
    pub media_name: Option<String>,
    pub media_role: Option<String>,
    pub output_id: u32,
    pub volume_percent: Option<u8>,
    pub volume_writable: bool,
    pub muted: bool,
}

/// Everything one discovery found.
#[derive(Debug, Clone, PartialEq, Eq)]
pub struct AudioDiscovery {
    pub server: AudioServer,
    pub outputs: Vec<OutputDevice>,
    pub streams: Vec<PlaybackStream>,
}

/// The category of an audio failure.
#[derive(Debug, Clone, Copy, PartialEq, Eq, Structural)]
pub enum AudioErrorKind {
    Unavailable,
    TimedOut,
    Protocol,
    Rejected,
}

/// An audio failure with a user-facing message.
#[derive(Debug, Clone, PartialEq, Eq)]
pub struct AudioError {
    pub kind: AudioErrorKind,
    pub message: String,
}

/// Domain-shaped PulseAudio operations used by the audio service.
pub trait AudioBackend {
    fn discover(&mut self) -> Result<AudioDiscovery, AudioError>;

    fn set_stream_volume(&mut self, stream_id: u32, volume_percent: u8) -> Result<(), AudioError>;

    fn set_stream_mute(&mut self, stream_id: u32, muted: bool) -> Result<(), AudioError>;

    fn move_stream(&mut self, stream_id: u32, output_id: u32) -> Result<(), AudioError>;
}

fn copy_optional(value: &Option<String>) -> (copy: Option<String>)
    ensures
        copy == *value,
{
    match value {
        Some(text) => Some(text.clone()),
        None => None,
    }
}

impl AudioError {
    /// Builds an error of the given kind.
    pub fn new(kind: AudioErrorKind, message: &str) -> (error: Self)
        ensures
            error.kind == kind,
            error.message@ == message@,
    {
        AudioError { kind, message: owned(message) }
    }

    /// An identical copy.
    pub fn duplicate(&self) -> (copy: Self)
        ensures
            copy == *self,
    {
        AudioError { kind: self.kind, message: self.message.clone() }
    }
}

impl AudioServer {
    /// An identical copy.
    pub fn duplicate(&self) -> (copy: Self)
        ensures
            copy == *self,
    {
        AudioServer {
            name: copy_optional(&self.name),
            version: copy_optional(&self.version),
            protocol_version: self.protocol_version,
            default_output_name: copy_optional(&self.default_output_name),
        }
    }
}

impl OutputDevice {
    /// An identical copy.
    pub fn duplicate(&self) -> (copy: Self)
        ensures
            copy == *self,
    {
        OutputDevice {
            id: self.id,
            name: self.name.clone(),
            description: self.description.clone(),
            volume_percent: self.volume_percent,
            muted: self.muted,
        }
    }
}

impl PlaybackStream {
    /// An identical copy.
    pub fn duplicate(&self) -> (copy: Self)
        ensures
            copy == *self,
    {
        PlaybackStream {
            id: self.id,
            name: self.name.clone(),
            application_name: copy_optional(&self.application_name),
            media_name: copy_optional(&self.media_name),
            media_role: copy_optional(&self.media_role),
            output_id: self.output_id,
            volume_percent: self.volume_percent,
            volume_writable: self.volume_writable,
            muted: self.muted,
        }
    }
}

fn copy_outputs(outputs: &Vec<OutputDevice>) -> (copy: Vec<OutputDevice>)
    ensures
        copy@ == outputs@,
{
    let mut copy: Vec<OutputDevice> = Vec::new();
    let mut index: usize = 0;
    while index < outputs.len()
        invariant
            index <= outputs@.len(),
            copy@ == outputs@.subrange(0, index as int),
        decreases outputs@.len() - index,
    {
        copy.push(outputs[index].duplicate());
        assert(copy@ =~= outputs@.subrange(0, index + 1));
        index += 1;
    }
    assert(outputs@.subrange(0, outputs@.len() as int) =~= outputs@);
    copy
}

fn copy_streams(streams: &Vec<PlaybackStream>) -> (copy: Vec<PlaybackStream>)
    ensures
        copy@ == streams@,
{
    let mut copy: Vec<PlaybackStream> = Vec::new();
    let mut index: usize = 0;
    while index < streams.len()
        invariant
            index <= streams@.len(),
            copy@ == streams@.subrange(0, index as int),
        decreases streams@.len() - index,
    {
        copy.push(streams[index].duplicate());
        assert(copy@ =~= streams@.subrange(0, index + 1));
        index += 1;
    }
    assert(streams@.subrange(0, streams@.len() as int) =~= streams@);
    copy
}

/// The percentage a raw volume stands for, capped at one hundred.
pub open spec fn percent_of_raw(raw: u32) -> u8 {
    let percent = raw as int * 100 / NORMAL_VOLUME as int;
    if percent > 100 {
        100u8
    } else {
        percent as u8
    }
}

/// Converts a raw volume to a percentage, capped at one hundred.
pub fn volume_percent(raw: u32) -> (percent: u8)
    ensures
        percent == percent_of_raw(raw),
        percent <= 100,
{
    let percent: u64 = (raw as u64) * 100 / (NORMAL_VOLUME as u64);
    if percent > 100 {
        100
    } else {
        percent as u8
    }
}

/// Converts a percentage to the raw volume written to the server.
pub fn raw_volume(percent: u8) -> (raw: u32)
    requires
        percent <= MAX_VOLUME_PERCENT,
    ensures
        raw == NORMAL_VOLUME as int * percent as int / 100,
{
    let raw: u64 = (NORMAL_VOLUME as u64) * (percent as u64) / 100;
    assert(raw <= NORMAL_VOLUME) by (nonlinear_arith)
        requires
            raw == NORMAL_VOLUME as int * percent as int / 100,
            percent <= 100,
    ;
    raw as u32
}

/// Refuses a requested stream volume above one hundred percent before any
/// connection is made.
pub fn check_requested_volume(volume_percent: u8) -> (result: Result<(), AudioError>)
    ensures
        result is Ok <==> volume_percent <= MAX_VOLUME_PERCENT,
        result matches Err(error) ==> error.kind == AudioErrorKind::Rejected && error.message@ == seq!['v', 'o', 'l', 'u', 'm', 'e', ' '] + decimal(volume_percent as nat) + "% is outside the supported 0..=100% range"@,
{
    if volume_percent > MAX_VOLUME_PERCENT {
        let mut message = owned("volume ");
        let digits = decimal_text(volume_percent as u64);
        message.append(digits.as_str());
        message.append("% is outside the supported 0..=100% range");
        proof {
            reveal_strlit("volume ");
        }
        return Err(AudioError { kind: AudioErrorKind::Rejected, message });
    }
    Ok(())
}

/// A small, reversible step away from a raw volume that stays within zero
/// and the normal volume.
pub open spec fn changed_volume(current: int) -> int {
    if current < 65_536 {
        if current + 655 < 65_536 {
            current + 655
        } else {
            65_536
        }
    } else if current - 655 > 0 {
        current - 655
    } else {
        0
    }
}

/// Chooses a small different volume for a reversible mutation check.
pub fn choose_changed_volume(current: i64) -> (target: i64)
    ensures
        target == changed_volume(current as int),
{
    let step: i64 = 655;
    if current < 65_536 {
        let raised = current + step;
        if raised < 65_536 {
            raised
        } else {
            65_536
        }
    } else {
        let lowered = current - step;
        if lowered > 0 {
            lowered
        } else {
            0
        }
    }
}

/// The text `std` gives a kind through `Debug`.
pub open spec fn error_kind_name(kind: AudioErrorKind) -> Seq<char> {
    match kind {
        AudioErrorKind::Unavailable => "Unavailable"@,
        AudioErrorKind::TimedOut => "TimedOut"@,
        AudioErrorKind::Protocol => "Protocol"@,
        AudioErrorKind::Rejected => "Rejected"@,
    }
}

fn error_kind_text(kind: AudioErrorKind) -> (text: &'static str)
    ensures
        text@ == error_kind_name(kind),
{
    match kind {
        AudioErrorKind::Unavailable => "Unavailable",
        AudioErrorKind::TimedOut => "TimedOut",
        AudioErrorKind::Protocol => "Protocol",
        AudioErrorKind::Rejected => "Rejected",
    }
}

/// The selected adapter named in every audio report.
pub open spec fn audio_backend_name() -> Seq<char> {
    "PulseAudio-compatible protocol via libpulse"@
}

/// The alternative named in every audio report.
pub open spec fn audio_alternative_name() -> Seq<char> {
    "Native PipeWire/WirePlumber graph adapter"@
}

/// The status a successful discovery gives: limited without outputs or
/// without streams, else supported.
pub open spec fn discovery_status(output_count: nat, stream_count: nat) -> crate::capability::StatusModel {
    if output_count == 0 {
        crate::capability::StatusModel::Limited("The audio server has no output devices."@)
    } else if stream_count == 0 {
        crate::capability::StatusModel::Limited("There are no active playback streams."@)
    } else {
        crate::capability::StatusModel::Supported
    }
}

/// Whether `report` is the audio capability report for the outcome of a
/// discovery: always the libpulse adapter with the native graph adapter as
/// alternative; on success, the output and stream counts decide status,
/// summary, evidence and remediation; on failure, the error's message and
/// kind are reported with a remediation to start a server.
pub open spec fn describes_discovery(report: CapabilityReport, discovery: Result<AudioDiscovery, AudioError>) -> bool {
    &&& report.feature_id == FEATURE_ID
    &&& report.selected_backend matches Some(backend) && backend@ == audio_backend_name()
    &&& report.alternatives_considered@.len() == 1
    &&& report.alternatives_considered@[0]@ == audio_alternative_name()
    &&& match discovery {
        Ok(found) => {
            &&& report.status@ == discovery_status(found.outputs@.len(), found.streams@.len())
            &&& report.summary@ == "PulseAudio-compatible server exposes "@ + decimal(found.outputs@.len()) + " outputs and "@ + decimal(found.streams@.len()) + " active streams."@
            &&& report.evidence@.len() == 2
            &&& report.evidence@[0].key@ == "output_count"@
            &&& report.evidence@[0].value@ == decimal(found.outputs@.len())
            &&& report.evidence@[1].key@ == "active_stream_count"@
            &&& report.evidence@[1].value@ == decimal(found.streams@.len())
            &&& if found.outputs@.len() == 0 {
                report.remediation matches Some(text) && text@ == "Connect or enable an audio output device."@
            } else if found.streams@.len() == 0 {
                report.remediation matches Some(text) && text@ == "Start playback in an application to expose a controllable stream."@
            } else {
                report.remediation is None
            }
        },
        Err(error) => {
            &&& report.status@ == crate::capability::StatusModel::Unsupported(error.message@)
            &&& report.summary@ == "PulseAudio-compatible audio service is unavailable."@
            &&& report.remediation matches Some(text) && text@ == "Start PulseAudio or PipeWire's PulseAudio compatibility service for this user session."@
            &&& report.evidence@.len() == 1
            &&& report.evidence@[0].key@ == "error_kind"@
            &&& report.evidence@[0].value@ == error_kind_name(error.kind)
        },
    }
}

/// Builds the audio capability report from the outcome of a discovery.
pub fn capability_for_discovery(discovery: &Result<AudioDiscovery, AudioError>) -> (report: CapabilityReport)
    ensures
        describes_discovery(report, *discovery),
{
    match discovery {
        Ok(found) => {
            let output_count = found.outputs.len();
            let stream_count = found.streams.len();
            let status = if output_count == 0 {
                CapabilityStatus::Limited { reason: owned("The audio server has no output devices.") }
            } else if stream_count == 0 {
                CapabilityStatus::Limited { reason: owned("There are no active playback streams.") }
            } else {
                CapabilityStatus::Supported
            };
            let outputs_text = decimal_text(output_count as u64);
            let streams_text = decimal_text(stream_count as u64);
            let mut summary = owned("PulseAudio-compatible server exposes ");
            summary.append(outputs_text.as_str());
            summary.append(" outputs and ");
            summary.append(streams_text.as_str());
            summary.append(" active streams.");
            let mut report = CapabilityReport::new(FEATURE_ID, status, summary.as_str())
                .with_selected_backend("PulseAudio-compatible protocol via libpulse")
                .with_alternative("Native PipeWire/WirePlumber graph adapter")
                .with_evidence(CapabilityEvidence::new("output_count", outputs_text.as_str()))
                .with_evidence(CapabilityEvidence::new("active_stream_count", streams_text.as_str()));
            if output_count == 0 {
                report = report.with_remediation("Connect or enable an audio output device.");
            } else if stream_count == 0 {
                report = report.with_remediation(
                    "Start playback in an application to expose a controllable stream.",
                );
            }
            report
        },
        Err(error) => {
            CapabilityReport::new(
                FEATURE_ID,
                CapabilityStatus::Unsupported { reason: error.message.clone() },
                "PulseAudio-compatible audio service is unavailable.",
            ).with_selected_backend("PulseAudio-compatible protocol via libpulse").with_alternative(
                "Native PipeWire/WirePlumber graph adapter",
            ).with_remediation(
                "Start PulseAudio or PipeWire's PulseAudio compatibility service for this user session.",
            ).with_evidence(CapabilityEvidence::new("error_kind", error_kind_text(error.kind)))
        },
    }
}

/// How far the mixer can be used right now.
#[derive(Debug, Clone, Copy, PartialEq, Eq, Structural)]
pub enum AudioAvailability {
    Unavailable,
    NoOutputDevices,
    NoActiveStreams,
    Ready,
}

/// The latest mixer state.
#[derive(Debug, Clone, PartialEq, Eq)]
pub struct AudioSnapshot {
    pub availability: AudioAvailability,
    pub server: Option<AudioServer>,
    pub outputs: Vec<OutputDevice>,
    pub streams: Vec<PlaybackStream>,
}

/// Whether `snapshot` is the state with no reachable server.
pub open spec fn is_unavailable_snapshot(snapshot: AudioSnapshot) -> bool {
    &&& snapshot.availability == AudioAvailability::Unavailable
    &&& snapshot.server is None
    &&& snapshot.outputs@.len() == 0
    &&& snapshot.streams@.len() == 0
}

/// Whether `snapshot` holds exactly what `discovery` found, with the
/// availability that follows from it.
pub open spec fn snapshot_of_discovery(snapshot: AudioSnapshot, discovery: AudioDiscovery) -> bool {
    &&& snapshot.availability == if discovery.outputs@.len() == 0 {
        AudioAvailability::NoOutputDevices
    } else if discovery.streams@.len() == 0 {
        AudioAvailability::NoActiveStreams
    } else {
        AudioAvailability::Ready
    }
    &&& snapshot.server == Some(discovery.server)
    &&& snapshot.outputs@ == discovery.outputs@
    &&& snapshot.streams@ == discovery.streams@
}

/// Whether two snapshots hold the same state.
pub open spec fn same_snapshot(left: AudioSnapshot, right: AudioSnapshot) -> bool {
    &&& left.availability == right.availability
    &&& left.server == right.server
    &&& left.outputs@ == right.outputs@
    &&& left.streams@ == right.streams@
}

impl AudioSnapshot {
    /// The state with no reachable server.
    pub fn unavailable() -> (snapshot: Self)
        ensures
            is_unavailable_snapshot(snapshot),
    {
        AudioSnapshot {
            availability: AudioAvailability::Unavailable,
            server: None,
            outputs: Vec::new(),
            streams: Vec::new(),
        }
    }

    /// The state a successful discovery describes.
    pub fn from_discovery(discovery: AudioDiscovery) -> (snapshot: Self)
        ensures
            snapshot_of_discovery(snapshot, discovery),
    {
        let availability = if discovery.outputs.len() == 0 {
            AudioAvailability::NoOutputDevices
        } else if discovery.streams.len() == 0 {
            AudioAvailability::NoActiveStreams
        } else {
            AudioAvailability::Ready
        };
        AudioSnapshot {
            availability,
            server: Some(discovery.server),
            outputs: discovery.outputs,
            streams: discovery.streams,
        }
    }

    /// A copy holding the same state.
    pub fn duplicate(&self) -> (copy: Self)
        ensures
            same_snapshot(copy, *self),
    {
        AudioSnapshot {
            availability: self.availability,
            server: match &self.server {
                Some(server) => Some(server.duplicate()),
                None => None,
            },
            outputs: copy_outputs(&self.outputs),
            streams: copy_streams(&self.streams),
        }
    }
}

/// A change a user asked the mixer for.
#[derive(Debug, Clone, Copy, PartialEq, Eq, Structural)]
pub enum AudioCommand {
    SetStreamVolume { stream_id: u32, volume_percent: u8 },
    SetStreamMute { stream_id: u32, muted: bool },
    MoveStream { stream_id: u32, output_id: u32 },
}

/// Why a mixer command failed.
#[derive(Debug, Clone, PartialEq, Eq)]
pub enum AudioCommandError {
    VolumeOutOfRange { requested: u8 },
    UnknownStream { stream_id: u32 },
    ReadOnlyStream { stream_id: u32 },
    UnknownOutput { output_id: u32 },
    Backend(AudioError),
    Refresh(AudioError),
}

/// A failed command, with the refreshed state and capability beside it.
#[derive(Debug, Clone)]
pub struct AudioCommandFailure {
    pub error: AudioCommandError,
    pub capability: CapabilityReport,
    pub snapshot: AudioSnapshot,
}

/// The outcome of a mixer command.
pub type AudioCommandResult = Result<AudioSnapshot, Box<AudioCommandFailure>>;

/// The position of the stream with `stream_id` in `streams`, if any.
pub open spec fn has_stream(streams: Seq<PlaybackStream>, stream_id: u32) -> bool {
    exists|i: int| 0 <= i < streams.len() && streams[i].id == stream_id
}

/// The first stream with `stream_id`.
pub open spec fn first_stream(streams: Seq<PlaybackStream>, stream_id: u32) -> PlaybackStream
    recommends
        has_stream(streams, stream_id),
    decreases streams.len(),
{
    if streams.len() == 0 {
        streams[0]
    } else if streams[0].id == stream_id {
        streams[0]
    } else {
        first_stream(streams.drop_first(), stream_id)
    }
}

/// Whether an output with `output_id` is known.
pub open spec fn has_output(outputs: Seq<OutputDevice>, output_id: u32) -> bool {
    exists|i: int| 0 <= i < outputs.len() && outputs[i].id == output_id
}

/// The outcome of checking a command against the latest state: the volume
/// must lie in range, the stream must be known (and writable for a volume
/// change), and a routing target must be a known output.
pub open spec fn command_validation(snapshot: AudioSnapshot, command: AudioCommand) -> Result<(), AudioCommandError> {
    match command {
        AudioCommand::SetStreamVolume { stream_id, volume_percent } => {
            if volume_percent > MAX_VOLUME_PERCENT {
                Err(AudioCommandError::VolumeOutOfRange { requested: volume_percent })
            } else if !has_stream(snapshot.streams@, stream_id) {
                Err(AudioCommandError::UnknownStream { stream_id })
            } else if !first_stream(snapshot.streams@, stream_id).volume_writable {
                Err(AudioCommandError::ReadOnlyStream { stream_id })
            } else {
                Ok(())
            }
        },
        AudioCommand::SetStreamMute { stream_id, .. } => {
            if !has_stream(snapshot.streams@, stream_id) {
                Err(AudioCommandError::UnknownStream { stream_id })
            } else {
                Ok(())
            }
        },
        AudioCommand::MoveStream { stream_id, output_id } => {
            if !has_stream(snapshot.streams@, stream_id) {
                Err(AudioCommandError::UnknownStream { stream_id })
            } else if !has_output(snapshot.outputs@, output_id) {
                Err(AudioCommandError::UnknownOutput { output_id })
            } else {
                Ok(())
            }
        },
    }
}

fn find_stream(streams: &Vec<PlaybackStream>, stream_id: u32) -> (found: Option<usize>)
    ensures
        found matches Some(index) ==> index < streams@.len() && streams@[index as int] == first_stream(streams@, stream_id) && has_stream(streams@, stream_id),
        found is None ==> !has_stream(streams@, stream_id),
{
    let mut index: usize = 0;
    assert(streams@.subrange(0, streams@.len() as int) =~= streams@);
    while index < streams.len()
        invariant
            index <= streams@.len(),
            forall|j: int| 0 <= j < index ==> streams@[j].id != stream_id,
            has_stream(streams@, stream_id) ==> first_stream(streams@, stream_id) == first_stream(streams@.subrange(index as int, streams@.len() as int), stream_id),
        decreases streams@.len() - index,
    {
        let ghost rest = streams@.subrange(index as int, streams@.len() as int);
        assert(rest.drop_first() =~= streams@.subrange(index + 1, streams@.len() as int));
        assert(rest[0] == streams@[index as int]);
        if streams[index].id == stream_id {
            return Some(index);
        }
        index += 1;
    }
    None
}

fn find_output(outputs: &Vec<OutputDevice>, output_id: u32) -> (found: bool)
    ensures
        found == has_output(outputs@, output_id),
{
    let mut index: usize = 0;
    while index < outputs.len()
        invariant
            index <= outputs@.len(),
            forall|j: int| 0 <= j < index ==> outputs@[j].id != output_id,
        decreases outputs@.len() - index,
    {
        if outputs[index].id == output_id {
            return true;
        }
        index += 1;
    }
    false
}

/// Checks a command against the latest state.
pub fn validate_command(snapshot: &AudioSnapshot, command: AudioCommand) -> (result: Result<(), AudioCommandError>)
    ensures
        result == command_validation(*snapshot, command),
{
    match command {
        AudioCommand::SetStreamVolume { stream_id, volume_percent } => {
            if volume_percent > MAX_VOLUME_PERCENT {
                return Err(AudioCommandError::VolumeOutOfRange { requested: volume_percent });
            }
            match find_stream(&snapshot.streams, stream_id) {
                None => Err(AudioCommandError::UnknownStream { stream_id }),
                Some(index) => if !snapshot.streams[index].volume_writable {
                    Err(AudioCommandError::ReadOnlyStream { stream_id })
                } else {
                    Ok(())
                },
            }
        },
        AudioCommand::SetStreamMute { stream_id, .. } => {
            match find_stream(&snapshot.streams, stream_id) {
                None => Err(AudioCommandError::UnknownStream { stream_id }),
                Some(_) => Ok(()),
            }
        },
        AudioCommand::MoveStream { stream_id, output_id } => {
            match find_stream(&snapshot.streams, stream_id) {
                None => Err(AudioCommandError::UnknownStream { stream_id }),
                Some(_) => if !find_output(&snapshot.outputs, output_id) {
                    Err(AudioCommandError::UnknownOutput { output_id })
                } else {
                    Ok(())
                },
            }
        },
    }
}

/// What the backend's answer to a mutation makes of a validated command.
pub fn backend_outcome(outcome: Result<(), AudioError>) -> (mutation: Result<(), AudioCommandError>)
    ensures
        match outcome {
            Ok(()) => mutation == Ok::<(), AudioCommandError>(()),
            Err(error) => mutation == Err::<(), AudioCommandError>(AudioCommandError::Backend(error)),
        },
{
    match outcome {
        Ok(()) => Ok(()),
        Err(error) => Err(AudioCommandError::Backend(error)),
    }
}

/// The outcome of a command: a failed mutation (refused or failed in the
/// backend) is reported as it is; after a good mutation a failed refresh is
/// reported as a refresh failure; otherwise the refreshed snapshot.
pub fn command_outcome(
    mutation: Result<(), AudioCommandError>,
    refreshed: Result<AudioSnapshot, AudioError>,
) -> (outcome: Result<AudioSnapshot, AudioCommandError>)
    ensures
        match mutation {
            Err(error) => outcome == Err::<AudioSnapshot, AudioCommandError>(error),
            Ok(()) => match refreshed {
                Ok(snapshot) => outcome == Ok::<AudioSnapshot, AudioCommandError>(snapshot),
                Err(error) => outcome == Err::<AudioSnapshot, AudioCommandError>(AudioCommandError::Refresh(error)),
            },
        },
{
    match (mutation, refreshed) {
        (Err(error), _) => Err(error),
        (Ok(()), Ok(snapshot)) => Ok(snapshot),
        (Ok(()), Err(error)) => Err(AudioCommandError::Refresh(error)),
    }
}

/// Mixer state: the backend, the latest snapshot and the latest capability.
pub struct AudioMixerService<B> {
    backend: B,
    latest: AudioSnapshot,
    capability: CapabilityReport,
}

impl<B: AudioBackend> AudioMixerService<B> {
    /// The latest snapshot.
    pub closed spec fn latest_state(&self) -> AudioSnapshot {
        self.latest
    }

    /// The latest capability report.
    pub closed spec fn capability_state(&self) -> CapabilityReport {
        self.capability
    }

    /// A service that has not discovered anything yet.
    pub fn new(backend: B) -> (service: Self)
        ensures
            is_unavailable_snapshot(service.latest_state()),
            service.capability_state().feature_id == FEATURE_ID,
            service.capability_state().status@ == crate::capability::StatusModel::Unsupported("Audio discovery has not started."@),
            service.capability_state().summary@ == "Audio mixer has not been started."@,
    {
        AudioMixerService {
            backend,
            latest: AudioSnapshot::unavailable(),
            capability: CapabilityReport::new(
                FEATURE_ID,
                CapabilityStatus::Unsupported { reason: owned("Audio discovery has not started.") },
                "Audio mixer has not been started.",
            ),
        }
    }

    /// The latest snapshot.
    pub fn latest(&self) -> (snapshot: &AudioSnapshot)
        ensures
            *snapshot == self.latest_state(),
    {
        &self.latest
    }

    /// The latest capability report.
    pub fn capability(&self) -> (report: &CapabilityReport)
        ensures
            *report == self.capability_state(),
    {
        &self.capability
    }

    /// Records the outcome of a discovery: the capability follows it, and the
    /// snapshot becomes what was found, or unavailable.
    pub fn apply_discovery(&mut self, discovery: Result<AudioDiscovery, AudioError>) -> (result: Result<&AudioSnapshot, AudioError>)
        ensures
            describes_discovery(final(self).capability_state(), discovery),
            final(self).capability_state().feature_id == FEATURE_ID,
            match discovery {
                Ok(found) => snapshot_of_discovery(final(self).latest_state(), found) && (result matches Ok(snapshot) && *snapshot == final(self).latest_state()),
                Err(error) => is_unavailable_snapshot(final(self).latest_state()) && result == Err::<&AudioSnapshot, AudioError>(error),
            },
    {
        self.capability = capability_for_discovery(&discovery);
        match discovery {
            Ok(found) => {
                self.latest = AudioSnapshot::from_discovery(found);
                Ok(&self.latest)
            },
            Err(error) => {
                self.latest = AudioSnapshot::unavailable();
                Err(error)
            },
        }
    }

    /// Discovers the mixer state through the backend and records it.
    pub fn refresh(&mut self) -> (result: Result<&AudioSnapshot, AudioError>)
        ensures
            final(self).capability_state().feature_id == FEATURE_ID,
            result matches Ok(snapshot) ==> (*snapshot == final(self).latest_state() && final(self).latest_state().server is Some),
            result is Err ==> is_unavailable_snapshot(final(self).latest_state()),
    {
        let discovery = self.backend.discover();
        self.apply_discovery(discovery)
    }

    fn failure(&self, error: AudioCommandError) -> (failure: Box<AudioCommandFailure>)
        ensures
            failure.error == error,
            failure.capability@ == self.capability@,
            failure.capability.feature_id == self.capability.feature_id,
            same_snapshot(failure.snapshot, self.latest),
    {
        Box::new(AudioCommandFailure {
            error,
            capability: self.capability.duplicate(),
            snapshot: self.latest.duplicate(),
        })
    }

    /// Validates and applies a command, then refreshes; a failure carries the
    /// refreshed state and capability.
    pub fn execute(&mut self, command: AudioCommand) -> (result: AudioCommandResult)
        ensures
            final(self).capability_state().feature_id == FEATURE_ID,
            command_validation(old(self).latest_state(), command) matches Err(error) ==> (result matches Err(failure) && failure.error == error),
            result matches Ok(snapshot) ==> (command_validation(old(self).latest_state(), command) is Ok && same_snapshot(snapshot, final(self).latest_state())),
            result matches Err(failure) ==> (same_snapshot(failure.snapshot, final(self).latest_state()) && failure.capability@ == final(self).capability_state()@),
            command_validation(old(self).latest_state(), command) is Ok ==> (result matches Err(failure)
                ==> failure.error is Backend || failure.error is Refresh),
            result matches Err(failure) && failure.error is Refresh ==> is_unavailable_snapshot(final(self).latest_state()),
            result is Ok ==> final(self).latest_state().server is Some,
    {
        let validation = validate_command(&self.latest, command);
        let mutation: Result<(), AudioCommandError> = match validation {
            Err(error) => Err(error),
            Ok(()) => {
                let outcome = match command {
                    AudioCommand::SetStreamVolume { stream_id, volume_percent } => self.backend.set_stream_volume(stream_id, volume_percent),
                    AudioCommand::SetStreamMute { stream_id, muted } => self.backend.set_stream_mute(stream_id, muted),
                    AudioCommand::MoveStream { stream_id, output_id } => self.backend.move_stream(stream_id, output_id),
                };
                backend_outcome(outcome)
            },
        };
        let refreshed: Result<AudioSnapshot, AudioError> = match self.refresh() {
            Ok(snapshot) => Ok(snapshot.duplicate()),
            Err(error) => Err(error),
        };
        match command_outcome(mutation, refreshed) {
            Ok(snapshot) => Ok(snapshot),
            Err(error) => Err(self.failure(error)),
        }
    }
}

} // verus!
