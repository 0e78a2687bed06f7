//! Configuration store: the synthesis parameters, stored without
//! validation. What they must hold is checked against the live backend by
//! the session, once it is constructed.
use vstd::prelude::*;

verus! {

/// The model used when none is configured.
pub const DEFAULT_MODEL: &'static str = "tts_models/tr/common-voice/glow-tts";

/// Whether hardware acceleration is used when not configured.
pub const DEFAULT_GPU: bool = false;

/// The synthesis parameters.
#[derive(Clone, Debug)]
pub struct Settings {
    pub model: String,
    pub speaker: Option<String>,
    pub language: Option<String>,
    pub voice_cloning_input_file: Option<String>,
    pub gpu: bool,
}

/// The configurable properties, by the names under which a host sets them.
#[derive(Clone, Copy, Debug, PartialEq, Eq, Structural)]
pub enum Property {
    Model,
    Speaker,
    Language,
    VoiceCloningInputFile,
    UseGpu,
}

/// A property value as a host hands it over: an optional string or a flag.
#[derive(Clone, Debug)]
pub enum PropertyValue {
    Str(Option<String>),
    Bool(bool),
}

/// Why a property could not be set.
#[derive(Clone, Copy, Debug, PartialEq, Eq, Structural)]
pub enum PropertyError {
    /// The value is not of the property's type (a flag for a string
    /// property, a string for the flag, or no string for the model).
    WrongType,
}

/// The name under which a property is set.
pub open spec fn property_name(p: Property) -> Seq<char> {
    match p {
        Property::Model => "model"@,
        Property::Speaker => "speaker"@,
        Property::Language => "language"@,
        Property::VoiceCloningInputFile => "voice-cloning-input-file"@,
        Property::UseGpu => "use-gpu"@,
    }
}

/// An optional string, seen as an optional character sequence.
pub open spec fn opt_view(o: Option<String>) -> Option<Seq<char>> {
    match o {
        Some(s) => Some(s@),
        None => None,
    }
}

/// A property value, seen through the views of its strings.
pub enum ValueModel {
    Str(Option<Seq<char>>),
    Bool(bool),
}

pub open spec fn value_model(v: PropertyValue) -> ValueModel {
    match v {
        PropertyValue::Str(o) => ValueModel::Str(opt_view(o)),
        PropertyValue::Bool(b) => ValueModel::Bool(b),
    }
}

/// A snapshot of the configuration, over plain character sequences.
pub struct SettingsModel {
    pub model: Seq<char>,
    pub speaker: Option<Seq<char>>,
    pub language: Option<Seq<char>>,
    pub voice_cloning_input_file: Option<Seq<char>>,
    pub gpu: bool,
}

impl View for Settings {
    type V = SettingsModel;

    open spec fn view(&self) -> SettingsModel {
        SettingsModel {
            model: self.model@,
            speaker: opt_view(self.speaker),
            language: opt_view(self.language),
            voice_cloning_input_file: opt_view(self.voice_cloning_input_file),
            gpu: self.gpu,
        }
    }
}

/// The value a property holds in a configuration.
pub open spec fn property_of(s: SettingsModel, p: Property) -> ValueModel {
    match p {
        Property::Model => ValueModel::Str(Some(s.model)),
        Property::Speaker => ValueModel::Str(s.speaker),
        Property::Language => ValueModel::Str(s.language),
        Property::VoiceCloningInputFile => ValueModel::Str(s.voice_cloning_input_file),
        Property::UseGpu => ValueModel::Bool(s.gpu),
    }
}

/// Whether a value has the property's type.
pub open spec fn accepts(p: Property, v: ValueModel) -> bool {
    match p {
        Property::Model => v matches ValueModel::Str(Some(_)),
        Property::UseGpu => v is Bool,
        _ => v is Str,
    }
}

/// The configuration after a value of the right type was stored in one
/// property; the other properties keep theirs.
pub open spec fn with_property(s: SettingsModel, p: Property, v: ValueModel) -> SettingsModel
    recommends
        accepts(p, v),
{
    match (p, v) {
        (Property::Model, ValueModel::Str(Some(m))) => SettingsModel { model: m, ..s },
        (Property::Speaker, ValueModel::Str(o)) => SettingsModel { speaker: o, ..s },
        (Property::Language, ValueModel::Str(o)) => SettingsModel { language: o, ..s },
        (Property::VoiceCloningInputFile, ValueModel::Str(o)) => SettingsModel {
            voice_cloning_input_file: o,
            ..s
        },
        (Property::UseGpu, ValueModel::Bool(b)) => SettingsModel { gpu: b, ..s },
        _ => s,
    }
}

impl Property {
    /// The name under which the property is set.
    pub fn name(&self) -> (r: &'static str)
        ensures
            r@ == property_name(*self),
    {
        match self {
            Property::Model => "model",
            Property::Speaker => "speaker",
            Property::Language => "language",
            Property::VoiceCloningInputFile => "voice-cloning-input-file",
            Property::UseGpu => "use-gpu",
        }
    }

    /// The property with the given name, if there is one.
    pub fn from_name(name: &str) -> (r: Option<Property>)
        ensures
            r matches Some(p) ==> property_name(p) == name@,
            r is None ==> forall|p: Property| property_name(p) != name@,
    {
        let all = [
            Property::Model,
            Property::Speaker,
            Property::Language,
            Property::VoiceCloningInputFile,
            Property::UseGpu,
        ];
        let wanted = name.to_owned();
        let mut i: usize = 0;
        while i < 5
            invariant
                i <= 5,
                wanted@ == name@,
                all@ == seq![
                    Property::Model,
                    Property::Speaker,
                    Property::Language,
                    Property::VoiceCloningInputFile,
                    Property::UseGpu,
                ],
                forall|k: int| 0 <= k < i ==> property_name(#[trigger] all@[k]) != name@,
            decreases 5 - i,
        {
            let p = all[i];
            let candidate = p.name().to_owned();
            if candidate == wanted {
                return Some(p);
            }
            i = i + 1;
        }
        proof {
            assert forall|p: Property| property_name(p) != name@ by {
                match p {
                    Property::Model => assert(all@[0] == p),
                    Property::Speaker => assert(all@[1] == p),
                    Property::Language => assert(all@[2] == p),
                    Property::VoiceCloningInputFile => assert(all@[3] == p),
                    Property::UseGpu => assert(all@[4] == p),
                }
            }
        }
        None
    }
}

impl Settings {
    /// The configuration before anything is set: the default model, no
    /// speaker, language or voice reference, no acceleration.
    pub fn new() -> (r: Settings)
        ensures
            r@.model == DEFAULT_MODEL@,
            r@.speaker is None,
            r@.language is None,
            r@.voice_cloning_input_file is None,
            r@.gpu == DEFAULT_GPU,
    {
        Settings {
            model: DEFAULT_MODEL.to_owned(),
            speaker: None,
            language: None,
            voice_cloning_input_file: None,
            gpu: DEFAULT_GPU,
        }
    }

    /// An independent copy of the current configuration.
    pub fn snapshot(&self) -> (r: Settings)
        ensures
            r@ == self@,
    {
        Settings {
            model: self.model.clone(),
            speaker: self.speaker.clone(),
            language: self.language.clone(),
            voice_cloning_input_file: self.voice_cloning_input_file.clone(),
            gpu: self.gpu,
        }
    }

    /// Stores a value in one property. A value of the wrong type is
    /// refused, and the configuration is left as it was.
    pub fn set_property(&mut self, p: Property, value: PropertyValue) -> (r: Result<
        (),
        PropertyError,
    >)
        ensures
            r is Ok <==> accepts(p, value_model(value)),
            r is Ok ==> final(self)@ == with_property(old(self)@, p, value_model(value)),
            r is Err ==> final(self)@ == old(self)@,
    {
        match (p, value) {
            (Property::Model, PropertyValue::Str(Some(m))) => {
                self.model = m;
                Ok(())
            },
            (Property::Speaker, PropertyValue::Str(o)) => {
                self.speaker = o;
                Ok(())
            },
            (Property::Language, PropertyValue::Str(o)) => {
                self.language = o;
                Ok(())
            },
            (Property::VoiceCloningInputFile, PropertyValue::Str(o)) => {
                self.voice_cloning_input_file = o;
                Ok(())
            },
            (Property::UseGpu, PropertyValue::Bool(b)) => {
                self.gpu = b;
                Ok(())
            },
            _ => Err(PropertyError::WrongType),
        }
    }

    /// The value a property holds.
    pub fn property(&self, p: Property) -> (r: PropertyValue)
        ensures
            value_model(r) == property_of(self@, p),
    {
        match p {
            Property::Model => PropertyValue::Str(Some(self.model.clone())),
            Property::Speaker => PropertyValue::Str(self.speaker.clone()),
            Property::Language => PropertyValue::Str(self.language.clone()),
            Property::VoiceCloningInputFile => PropertyValue::Str(
                self.voice_cloning_input_file.clone(),
            ),
            Property::UseGpu => PropertyValue::Bool(self.gpu),
        }
    }
}

} // verus!
