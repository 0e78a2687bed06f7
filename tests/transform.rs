use coquitts::audio::encode_samples;
use coquitts::config::Settings;
use coquitts::session::{BackendInfo, BackendSession, ConfigError, SessionState};
use coquitts::transform::{complete, next_step, synthesis_request, FlowError, Step, TransformResult};

fn ready_session(settings: &Settings) -> BackendSession {
    let mut s = BackendSession::new();
    s.ensure_ready();
    let info = BackendInfo { multi_lingual: false, multi_speaker: false, output_sample_rate: 22050 };
    s.finish_construction(Some(info), settings).unwrap();
    s
}

fn bits(samples: &[f32]) -> Vec<u32> {
    samples.iter().map(|x| x.to_bits()).collect()
}

#[test]
fn empty_queue_gives_no_output_and_leaves_backend_alone() {
    let settings = Settings::new();
    let mut s = BackendSession::new();
    assert!(matches!(next_step(None, &mut s, &settings), Step::Done(TransformResult::NoOutput)));
    assert_eq!(s.state(), SessionState::Uninitialized);
    assert_eq!(s.construction_count(), 0);
}

#[test]
fn hello_is_encoded_little_endian() {
    let settings = Settings::new();
    let mut s = ready_session(&settings);
    let req = match next_step(Some("hello".as_bytes()), &mut s, &settings) {
        Step::Synthesize(r) => r,
        _ => panic!("expected a synthesis request"),
    };
    assert_eq!(req.text, "hello");
    let samples = [0.1f32, -0.2f32, 0.05f32];
    let mut expected = Vec::new();
    for x in samples {
        expected.extend_from_slice(&x.to_le_bytes());
    }
    match complete(Some(bits(&samples))) {
        TransformResult::Output(b) => {
            assert_eq!(b.len(), 12);
            assert_eq!(b, expected);
        },
        _ => panic!("expected output"),
    }
}

#[test]
fn stray_ff_is_invalid_encoding() {
    let settings = Settings::new();
    let mut s = BackendSession::new();
    let r = next_step(Some(&[b'h', 0xFF, b'i'][..]), &mut s, &settings);
    assert!(matches!(r, Step::Done(TransformResult::Error(FlowError::InvalidEncoding))));
    assert_eq!(s.state(), SessionState::Uninitialized);
    let mut ready = ready_session(&settings);
    let r = next_step(Some(&[0xFF][..]), &mut ready, &settings);
    assert!(matches!(r, Step::Done(TransformResult::Error(FlowError::InvalidEncoding))));
}

#[test]
fn truncated_multibyte_is_invalid_encoding() {
    let settings = Settings::new();
    let mut s = ready_session(&settings);
    let r = next_step(Some(&[0xC3][..]), &mut s, &settings);
    assert!(matches!(r, Step::Done(TransformResult::Error(FlowError::InvalidEncoding))));
}

#[test]
fn multibyte_text_is_decoded() {
    let settings = Settings::new();
    let mut s = ready_session(&settings);
    match next_step(Some("günaydın".as_bytes()), &mut s, &settings) {
        Step::Synthesize(r) => assert_eq!(r.text, "günaydın"),
        _ => panic!("expected a synthesis request"),
    }
}

#[test]
fn synthesis_failure_does_not_poison_session() {
    let settings = Settings::new();
    let mut s = ready_session(&settings);
    assert!(matches!(next_step(Some("bad".as_bytes()), &mut s, &settings), Step::Synthesize(_)));
    assert!(matches!(complete(None), TransformResult::NoOutput));
    assert!(matches!(next_step(Some("good".as_bytes()), &mut s, &settings), Step::Synthesize(_)));
    match complete(Some(bits(&[1.0f32]))) {
        TransformResult::Output(b) => assert_eq!(b, vec![0x00, 0x00, 0x80, 0x3F]),
        _ => panic!("expected output"),
    }
}

#[test]
fn first_unit_asks_for_construction() {
    let settings = Settings::new();
    let mut s = BackendSession::new();
    assert!(matches!(next_step(Some("hi".as_bytes()), &mut s, &settings), Step::Construct));
    assert!(matches!(next_step(Some("hi".as_bytes()), &mut s, &settings), Step::Wait));
    assert_eq!(s.construction_count(), 1);
}

#[test]
fn configuration_error_is_surfaced() {
    let settings = Settings::new();
    let mut s = BackendSession::new();
    s.ensure_ready();
    let info = BackendInfo { multi_lingual: false, multi_speaker: true, output_sample_rate: 22050 };
    assert_eq!(s.finish_construction(Some(info), &settings), Err(ConfigError::MissingSpeaker));
    for _ in 0..2 {
        let r = next_step(Some("hi".as_bytes()), &mut s, &settings);
        assert!(matches!(r, Step::Done(TransformResult::Error(FlowError::Configuration(ConfigError::MissingSpeaker)))));
    }
}

#[test]
fn request_passes_only_configured_fields() {
    let mut settings = Settings::new();
    settings.language = Some("en".to_string());
    settings.voice_cloning_input_file = Some("/tmp/ref.wav".to_string());
    let r = synthesis_request("hello".to_string(), &settings);
    assert_eq!(r.text, "hello");
    assert_eq!(r.speaker, None);
    assert_eq!(r.language, Some("en".to_string()));
    assert_eq!(r.speaker_wav, Some("/tmp/ref.wav".to_string()));
}

#[test]
fn encoding_of_words_is_little_endian() {
    assert_eq!(encode_samples(&[0x01020304, 0xA0B0C0D0]), vec![4, 3, 2, 1, 0xD0, 0xC0, 0xB0, 0xA0]);
    assert_eq!(encode_samples(&[]), Vec::<u8>::new());
}
