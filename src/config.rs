use vstd::prelude::*;

use crate::data_type::DataType;

verus! {

/// The format a component's deserializer reads.
#[derive(PartialEq, Eq, Structural, Clone, Copy, Debug)]
pub enum DeserializerConfig {
    Avro,
    Bytes,
    Gelf,
    Json,
    Native,
    NativeJson,
    Syslog,
}

/// The format a component's serializer writes.
#[derive(PartialEq, Eq, Structural, Clone, Copy, Debug)]
pub enum SerializerConfig {
    Avro,
    Csv,
    Gelf,
    Json,
    Logfmt,
    Native,
    NativeJson,
    RawMessage,
    Text,
}

/// How a decoder splits a byte stream into records.
#[derive(PartialEq, Eq, Structural, Clone, Copy, Debug)]
pub enum DecodingFramingConfig {
    Bytes,
    CharacterDelimited { delimiter: u8, max_length: Option<usize> },
    LengthDelimited,
    NewlineDelimited { max_length: Option<usize> },
    OctetCounting { max_length: Option<usize> },
}

/// How an encoder delimits the records it writes into a byte stream.
#[derive(PartialEq, Eq, Structural, Clone, Copy, Debug)]
pub enum FramingConfig {
    Bytes,
    CharacterDelimited { delimiter: u8 },
    LengthDelimited,
    NewlineDelimited,
}

/// The event shapes a serializer accepts.
pub open spec fn serializer_input_type(s: SerializerConfig) -> DataType {
    match s {
        SerializerConfig::Json | SerializerConfig::Native | SerializerConfig::NativeJson => {
            DataType::spec_all()
        },
        _ => DataType::spec_log(),
    }
}

/// The event shapes a deserializer produces.
pub open spec fn deserializer_output_type(d: DeserializerConfig) -> DataType {
    match d {
        DeserializerConfig::Native | DeserializerConfig::NativeJson => DataType::spec_all(),
        _ => DataType::spec_log(),
    }
}

/// The framing a deserializer uses on a stream when none is configured.
pub open spec fn spec_default_stream_framing(d: DeserializerConfig) -> DecodingFramingConfig {
    match d {
        DeserializerConfig::Avro => DecodingFramingConfig::Bytes,
        DeserializerConfig::Native => DecodingFramingConfig::LengthDelimited,
        DeserializerConfig::Gelf => DecodingFramingConfig::CharacterDelimited {
            delimiter: 0u8,
            max_length: None,
        },
        _ => DecodingFramingConfig::NewlineDelimited { max_length: None },
    }
}

impl SerializerConfig {
    /// Gets the event shapes this serializer accepts.
    pub fn input_type(&self) -> (r: DataType)
        ensures
            r == serializer_input_type(*self),
    {
        match self {
            SerializerConfig::Json | SerializerConfig::Native | SerializerConfig::NativeJson => {
                DataType::all()
            },
            _ => DataType::log(),
        }
    }
}

impl DeserializerConfig {
    /// Gets the event shapes this deserializer produces.
    pub fn output_type(&self) -> (r: DataType)
        ensures
            r == deserializer_output_type(*self),
    {
        match self {
            DeserializerConfig::Native | DeserializerConfig::NativeJson => DataType::all(),
            _ => DataType::log(),
        }
    }

    /// Gets the framing this deserializer uses on a stream when none is configured.
    pub fn default_stream_framing(&self) -> (r: DecodingFramingConfig)
        ensures
            r == spec_default_stream_framing(*self),
    {
        match self {
            DeserializerConfig::Avro => DecodingFramingConfig::Bytes,
            DeserializerConfig::Native => DecodingFramingConfig::LengthDelimited,
            DeserializerConfig::Gelf => DecodingFramingConfig::CharacterDelimited {
                delimiter: 0u8,
                max_length: None,
            },
            _ => DecodingFramingConfig::NewlineDelimited { max_length: None },
        }
    }
}

/// Encoding configuration of a component: a serializer with the framing it implies.
#[derive(Clone, Copy, Debug)]
pub struct EncodingConfig {
    pub serializer: SerializerConfig,
}

impl EncodingConfig {
    pub fn new(serializer: SerializerConfig) -> (r: EncodingConfig)
        ensures
            r.serializer == serializer,
    {
        EncodingConfig { serializer }
    }

    pub fn config(&self) -> (r: &SerializerConfig)
        ensures
            *r == self.serializer,
    {
        &self.serializer
    }
}

/// Encoding configuration of a component with an optional explicit framing.
#[derive(Clone, Copy, Debug)]
pub struct EncodingConfigWithFraming {
    pub framing: Option<FramingConfig>,
    pub serializer: SerializerConfig,
}

impl EncodingConfigWithFraming {
    pub fn new(framing: Option<FramingConfig>, serializer: SerializerConfig) -> (r:
        EncodingConfigWithFraming)
        ensures
            r.framing == framing,
            r.serializer == serializer,
    {
        EncodingConfigWithFraming { framing, serializer }
    }

    pub fn config(&self) -> (r: (&Option<FramingConfig>, &SerializerConfig))
        ensures
            *r.0 == self.framing,
            *r.1 == self.serializer,
    {
        (&self.framing, &self.serializer)
    }
}

/// Decoding configuration of a component.
#[derive(Clone, Copy, Debug)]
pub struct DecodingConfig {
    pub deserializer: DeserializerConfig,
}

impl DecodingConfig {
    pub fn new(deserializer: DeserializerConfig) -> (r: DecodingConfig)
        ensures
            r.deserializer == deserializer,
    {
        DecodingConfig { deserializer }
    }

    pub fn config(&self) -> (r: &DeserializerConfig)
        ensures
            *r == self.deserializer,
    {
        &self.deserializer
    }
}

/// An encoder, described by the framer and the serializer it is made of.
#[derive(PartialEq, Eq, Structural, Clone, Copy, Debug)]
pub struct Encoder {
    pub framer: FramingConfig,
    pub serializer: SerializerConfig,
}

impl Encoder {
    pub fn new(framer: FramingConfig, serializer: SerializerConfig) -> (r: Encoder)
        ensures
            r.framer == framer,
            r.serializer == serializer,
    {
        Encoder { framer, serializer }
    }

    pub fn framer(&self) -> (r: FramingConfig)
        ensures
            r == self.framer,
    {
        self.framer
    }

    pub fn serializer(&self) -> (r: SerializerConfig)
        ensures
            r == self.serializer,
    {
        self.serializer
    }
}

} // verus!
