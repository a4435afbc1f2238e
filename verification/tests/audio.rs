use kestrel::audio::{backend_outcome, command_outcome, AudioSnapshot};
use std::collections::VecDeque;

use kestrel::audio::{
    capability_for_discovery, check_requested_volume, choose_changed_volume, raw_volume,
    volume_percent, AudioAvailability, AudioBackend, AudioCommand, AudioCommandError,
    AudioDiscovery, AudioError, AudioErrorKind, AudioMixerService, AudioServer, OutputDevice,
    PlaybackStream, FEATURE_ID, MAX_VOLUME_PERCENT, NORMAL_VOLUME,
};
use kestrel::capability::CapabilityStatus;

struct FakeBackend {
    discoveries: VecDeque<Result<AudioDiscovery, AudioError>>,
    mutation_error: Option<AudioError>,
    volume_calls: Vec<(u32, u8)>,
}

impl FakeBackend {
    fn new(discoveries: impl IntoIterator<Item = Result<AudioDiscovery, AudioError>>) -> Self {
        Self {
            discoveries: discoveries.into_iter().collect(),
            mutation_error: None,
            volume_calls: Vec::new(),
        }
    }
}

impl AudioBackend for FakeBackend {
    fn discover(&mut self) -> Result<AudioDiscovery, AudioError> {
        self.discoveries
            .pop_front()
            .expect("fake discovery must be available")
    }

    fn set_stream_volume(&mut self, stream_id: u32, volume_percent: u8) -> Result<(), AudioError> {
        self.volume_calls.push((stream_id, volume_percent));
        self.mutation_error.clone().map_or(Ok(()), Err)
    }

    fn set_stream_mute(&mut self, _stream_id: u32, _muted: bool) -> Result<(), AudioError> {
        self.mutation_error.clone().map_or(Ok(()), Err)
    }

    fn move_stream(&mut self, _stream_id: u32, _output_id: u32) -> Result<(), AudioError> {
        self.mutation_error.clone().map_or(Ok(()), Err)
    }
}

fn discovery(volume_percent: u8) -> AudioDiscovery {
    AudioDiscovery {
        server: AudioServer {
            name: Some("PulseAudio (on PipeWire)".to_string()),
            version: Some("1".to_string()),
            protocol_version: Some(35),
            default_output_name: Some("speaker".to_string()),
        },
        outputs: vec![OutputDevice {
            id: 3,
            name: "speaker".to_string(),
            description: "Speakers".to_string(),
            volume_percent: 50,
            muted: false,
        }],
        streams: vec![PlaybackStream {
            id: 7,
            name: "Playback".to_string(),
            application_name: Some("Player".to_string()),
            media_name: None,
            media_role: Some("music".to_string()),
            output_id: 3,
            volume_percent: Some(volume_percent),
            volume_writable: true,
            muted: false,
        }],
    }
}

#[test]
fn refresh_represents_no_active_streams_explicitly() {
    let mut empty = discovery(50);
    empty.streams.clear();
    let mut service = AudioMixerService::new(FakeBackend::new([Ok(empty)]));

    let snapshot = service.refresh().expect("discovery succeeds");

    assert_eq!(snapshot.availability, AudioAvailability::NoActiveStreams);
    assert!(snapshot.streams.is_empty());
}

#[test]
fn successful_mutation_returns_refreshed_state() {
    let backend = FakeBackend::new([Ok(discovery(20)), Ok(discovery(70))]);
    let mut service = AudioMixerService::new(backend);
    service.refresh().expect("initial discovery");

    let snapshot = service
        .execute(AudioCommand::SetStreamVolume {
            stream_id: 7,
            volume_percent: 70,
        })
        .expect("mutation succeeds");

    assert_eq!(snapshot.streams[0].volume_percent, Some(70));
}

#[test]
fn rejected_mutation_still_returns_refreshed_state_and_capability() {
    let error = AudioError {
        kind: AudioErrorKind::Rejected,
        message: "rejected".to_string(),
    };
    let mut backend = FakeBackend::new([Ok(discovery(20)), Ok(discovery(20))]);
    backend.mutation_error = Some(error.clone());
    let mut service = AudioMixerService::new(backend);
    service.refresh().expect("initial discovery");

    let failure = service
        .execute(AudioCommand::SetStreamMute {
            stream_id: 7,
            muted: true,
        })
        .expect_err("mutation is rejected");

    assert_eq!(failure.error, AudioCommandError::Backend(error));
    assert_eq!(failure.snapshot.streams[0].volume_percent, Some(20));
    assert_eq!(failure.capability.feature_id, FEATURE_ID);
}

#[test]
fn volume_above_one_hundred_is_rejected_without_mutation() {
    let backend = FakeBackend::new([Ok(discovery(20)), Ok(discovery(20))]);
    let mut service = AudioMixerService::new(backend);
    service.refresh().expect("initial discovery");

    let failure = service
        .execute(AudioCommand::SetStreamVolume {
            stream_id: 7,
            volume_percent: MAX_VOLUME_PERCENT + 1,
        })
        .expect_err("out of range volume is rejected");

    assert_eq!(
        failure.error,
        AudioCommandError::VolumeOutOfRange { requested: 101 }
    );
}

#[test]
fn routing_requires_a_discovered_output() {
    let backend = FakeBackend::new([Ok(discovery(20)), Ok(discovery(20))]);
    let mut service = AudioMixerService::new(backend);
    service.refresh().expect("initial discovery");

    let failure = service
        .execute(AudioCommand::MoveStream {
            stream_id: 7,
            output_id: 99,
        })
        .expect_err("unknown output is rejected");

    assert_eq!(
        failure.error,
        AudioCommandError::UnknownOutput { output_id: 99 }
    );
}

#[test]
fn unknown_and_read_only_streams_are_rejected() {
    let mut read_only = discovery(20);
    read_only.streams[0].volume_writable = false;
    let backend = FakeBackend::new([Ok(read_only.clone()), Ok(read_only)]);
    let mut service = AudioMixerService::new(backend);
    service.refresh().expect("initial discovery");
    let failure = service
        .execute(AudioCommand::SetStreamVolume {
            stream_id: 7,
            volume_percent: 10,
        })
        .expect_err("read-only stream");
    assert_eq!(failure.error, AudioCommandError::ReadOnlyStream { stream_id: 7 });

    let backend = FakeBackend::new([Ok(discovery(20)), Ok(discovery(20))]);
    let mut service = AudioMixerService::new(backend);
    service.refresh().expect("initial discovery");
    let failure = service
        .execute(AudioCommand::SetStreamMute {
            stream_id: 8,
            muted: true,
        })
        .expect_err("unknown stream");
    assert_eq!(failure.error, AudioCommandError::UnknownStream { stream_id: 8 });
}

#[test]
fn failed_discovery_makes_the_mixer_unavailable() {
    let error = AudioError::new(AudioErrorKind::Unavailable, "no server");
    let mut service = AudioMixerService::new(FakeBackend::new([Err(error.clone())]));
    assert_eq!(service.refresh().err(), Some(error));
    assert_eq!(service.latest().availability, AudioAvailability::Unavailable);
    assert!(matches!(
        service.capability().status,
        CapabilityStatus::Unsupported { .. }
    ));
    assert_eq!(service.capability().evidence[0].value, "Unavailable");
}

#[test]
fn volume_conversion_is_bounded_to_one_hundred_percent() {
    assert_eq!(volume_percent(0), 0);
    assert_eq!(volume_percent(NORMAL_VOLUME), 100);
    assert_eq!(volume_percent(NORMAL_VOLUME * 2), 100);
    assert_eq!(volume_percent(32768), 50);
    assert_eq!(raw_volume(50), 32768);
    assert_eq!(raw_volume(100), 65536);
}

#[test]
fn adapter_rejects_amplified_volume_before_connecting() {
    let error = check_requested_volume(101).expect_err("volume above the service bound is rejected");
    assert_eq!(error.kind, AudioErrorKind::Rejected);
    assert_eq!(error.message, "volume 101% is outside the supported 0..=100% range");
    assert!(check_requested_volume(100).is_ok());
}

#[test]
fn reachable_server_without_streams_is_limited_not_unavailable() {
    let report = capability_for_discovery(&Ok(AudioDiscovery {
        server: AudioServer {
            name: Some("PulseAudio (on PipeWire)".to_string()),
            version: Some("1".to_string()),
            protocol_version: Some(35),
            default_output_name: Some("default".to_string()),
        },
        outputs: vec![OutputDevice {
            id: 1,
            name: "default".to_string(),
            description: "Default output".to_string(),
            volume_percent: 50,
            muted: false,
        }],
        streams: Vec::new(),
    }));

    assert!(matches!(report.status, CapabilityStatus::Limited { .. }));
    assert_eq!(report.evidence[1].value, "0");
    assert_eq!(
        report.summary,
        "PulseAudio-compatible server exposes 1 outputs and 0 active streams."
    );
}

#[test]
fn chooses_a_small_different_volume() {
    assert_eq!(choose_changed_volume(0), 655);
    assert_eq!(choose_changed_volume(65_536), 64_881);
}

#[test]
fn changed_volume_stays_in_range() {
    assert_eq!(choose_changed_volume(65_000), 65_536);
    assert_eq!(choose_changed_volume(70_000), 69_345);
}

#[test]
fn command_outcomes_name_the_step_that_failed() {
    let backend = AudioError::new(AudioErrorKind::Unavailable, "server went away");
    assert_eq!(backend_outcome(Ok(())), Ok(()));
    assert_eq!(
        backend_outcome(Err(backend.clone())),
        Err(AudioCommandError::Backend(backend.clone()))
    );
    assert_eq!(
        command_outcome(Err(AudioCommandError::Backend(backend.clone())), Ok(AudioSnapshot::unavailable())),
        Err(AudioCommandError::Backend(backend.clone()))
    );
    assert_eq!(
        command_outcome(Ok(()), Err(backend.clone())),
        Err(AudioCommandError::Refresh(backend.clone()))
    );
    assert_eq!(
        command_outcome(Ok(()), Ok(AudioSnapshot::unavailable())),
        Ok(AudioSnapshot::unavailable())
    );
}
