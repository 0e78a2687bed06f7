use coquitts::config::{Property, PropertyError, PropertyValue, Settings, DEFAULT_GPU, DEFAULT_MODEL};

fn str_of(v: PropertyValue) -> Option<String> {
    match v {
        PropertyValue::Str(o) => o,
        PropertyValue::Bool(_) => panic!("expected a string value"),
    }
}

#[test]
fn defaults() {
    let s = Settings::new();
    assert_eq!(s.model, "tts_models/tr/common-voice/glow-tts");
    assert_eq!(s.model, DEFAULT_MODEL);
    assert_eq!(s.speaker, None);
    assert_eq!(s.language, None);
    assert_eq!(s.voice_cloning_input_file, None);
    assert_eq!(s.gpu, false);
    assert_eq!(DEFAULT_GPU, false);
}

#[test]
fn set_and_get_each_property() {
    let mut s = Settings::new();
    assert_eq!(s.set_property(Property::Model, PropertyValue::Str(Some("tts_models/en/vctk/vits".to_string()))), Ok(()));
    assert_eq!(s.set_property(Property::Speaker, PropertyValue::Str(Some("p225".to_string()))), Ok(()));
    assert_eq!(s.set_property(Property::Language, PropertyValue::Str(Some("en".to_string()))), Ok(()));
    assert_eq!(s.set_property(Property::VoiceCloningInputFile, PropertyValue::Str(Some("/tmp/v.wav".to_string()))), Ok(()));
    assert_eq!(s.set_property(Property::UseGpu, PropertyValue::Bool(true)), Ok(()));
    assert_eq!(str_of(s.property(Property::Model)), Some("tts_models/en/vctk/vits".to_string()));
    assert_eq!(str_of(s.property(Property::Speaker)), Some("p225".to_string()));
    assert_eq!(str_of(s.property(Property::Language)), Some("en".to_string()));
    assert_eq!(str_of(s.property(Property::VoiceCloningInputFile)), Some("/tmp/v.wav".to_string()));
    assert!(matches!(s.property(Property::UseGpu), PropertyValue::Bool(true)));
    assert_eq!(s.set_property(Property::Speaker, PropertyValue::Str(None)), Ok(()));
    assert_eq!(s.speaker, None);
    assert_eq!(s.language, Some("en".to_string()));
}

#[test]
fn wrong_type_is_refused_and_changes_nothing() {
    let mut s = Settings::new();
    assert_eq!(s.set_property(Property::UseGpu, PropertyValue::Str(Some("yes".to_string()))), Err(PropertyError::WrongType));
    assert_eq!(s.set_property(Property::Speaker, PropertyValue::Bool(true)), Err(PropertyError::WrongType));
    assert_eq!(s.set_property(Property::Model, PropertyValue::Str(None)), Err(PropertyError::WrongType));
    assert_eq!(s.model, DEFAULT_MODEL);
    assert_eq!(s.speaker, None);
    assert_eq!(s.gpu, false);
}

#[test]
fn property_names_round_trip() {
    let all = [
        Property::Model,
        Property::Speaker,
        Property::Language,
        Property::VoiceCloningInputFile,
        Property::UseGpu,
    ];
    for p in all {
        assert_eq!(Property::from_name(p.name()), Some(p));
    }
    assert_eq!(Property::VoiceCloningInputFile.name(), "voice-cloning-input-file");
    assert_eq!(Property::UseGpu.name(), "use-gpu");
    assert_eq!(Property::from_name("language"), Some(Property::Language));
    assert_eq!(Property::from_name("volume"), None);
    assert_eq!(Property::from_name(""), None);
}

#[test]
fn snapshot_is_independent() {
    let mut s = Settings::new();
    s.language = Some("en".to_string());
    let snap = s.snapshot();
    s.language = None;
    s.gpu = true;
    assert_eq!(snap.language, Some("en".to_string()));
    assert_eq!(snap.model, DEFAULT_MODEL);
    assert_eq!(snap.gpu, false);
}
