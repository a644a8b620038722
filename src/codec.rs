use vstd::prelude::*;

use crate::config::{
    deserializer_output_type, serializer_input_type, spec_default_stream_framing,
    DecodingConfig, DecodingFramingConfig, DeserializerConfig, Encoder, EncodingConfig,
    EncodingConfigWithFraming, FramingConfig, SerializerConfig,
};
use crate::data_type::DataType;

verus! {

/// The codec used by the external resource.
///
/// A component configures its codec in one direction: "encoding" when it turns events into raw
/// output (generally sinks), and "decoding" when it turns raw input into events (generally
/// sources). Each direction comes with or without an explicit framing.
#[derive(Clone, Copy, Debug)]
pub enum ResourceCodec {
    /// Component encodes events, with the default framing.
    Encoding(EncodingConfig),
    /// Component encodes events, with an optional explicit framer.
    EncodingWithFraming(EncodingConfigWithFraming),
    /// Component decodes events, with the deserializer's default stream framing.
    Decoding(DecodingConfig),
    /// Component decodes events, with an explicit framing.
    DecodingWithFraming(DecodingConfig, DecodingFramingConfig),
}

/// Why no inverse encoder exists for a decoding codec.
#[derive(PartialEq, Eq, Structural, Clone, Copy, Debug)]
pub enum InversionError {
    /// The decoding framing has no encoding counterpart.
    UnsupportedFraming(DecodingFramingConfig),
    /// The deserializer format has no serializer counterpart.
    UnsupportedFormat(DeserializerConfig),
}

/// The serializer paired with each deserializer format, where one exists.
///
/// Bytes pairs with text, and syslog with logfmt: both are approximations rather than exact
/// round trips. Avro has no serializer here.
pub open spec fn paired_serializer(d: DeserializerConfig) -> Option<SerializerConfig> {
    match d {
        DeserializerConfig::Bytes => Some(SerializerConfig::Text),
        DeserializerConfig::Json => Some(SerializerConfig::Json),
        DeserializerConfig::Syslog => Some(SerializerConfig::Logfmt),
        DeserializerConfig::Native => Some(SerializerConfig::Native),
        DeserializerConfig::NativeJson => Some(SerializerConfig::NativeJson),
        DeserializerConfig::Gelf => Some(SerializerConfig::Gelf),
        DeserializerConfig::Avro => None,
    }
}

/// The encoding framer that writes what a decoding framing reads, where one exists.
///
/// The character delimiter is kept; newline limits are dropped; octet counting has no
/// counterpart.
pub open spec fn paired_framer(f: DecodingFramingConfig) -> Option<FramingConfig> {
    match f {
        DecodingFramingConfig::Bytes => Some(FramingConfig::Bytes),
        DecodingFramingConfig::CharacterDelimited { delimiter, .. } => Some(
            FramingConfig::CharacterDelimited { delimiter },
        ),
        DecodingFramingConfig::LengthDelimited => Some(FramingConfig::LengthDelimited),
        DecodingFramingConfig::NewlineDelimited { .. } => Some(FramingConfig::NewlineDelimited),
        DecodingFramingConfig::OctetCounting { .. } => None,
    }
}

/// The encoder that produces what a decoder with framing `f` and format `d` reads.
pub open spec fn inverse_encoder(f: DecodingFramingConfig, d: DeserializerConfig) -> Result<
    Encoder,
    InversionError,
> {
    match paired_framer(f) {
        None => Err(InversionError::UnsupportedFraming(f)),
        Some(framer) => match paired_serializer(d) {
            None => Err(InversionError::UnsupportedFormat(d)),
            Some(serializer) => Ok(Encoder { framer, serializer }),
        },
    }
}

impl ResourceCodec {
    /// The event shapes the codec can carry.
    pub open spec fn spec_allowed_event_data_types(self) -> DataType {
        match self {
            ResourceCodec::Encoding(e) => serializer_input_type(e.serializer),
            ResourceCodec::EncodingWithFraming(e) => serializer_input_type(e.serializer),
            ResourceCodec::Decoding(d) => deserializer_output_type(d.deserializer),
            ResourceCodec::DecodingWithFraming(d, _) => deserializer_output_type(d.deserializer),
        }
    }

    /// The encoder for this codec: the configured one for an encoding codec, the inverse of
    /// the decoder for a decoding codec.
    pub open spec fn spec_encoder(self) -> Result<Encoder, InversionError> {
        match self {
            ResourceCodec::Encoding(e) => Ok(
                Encoder { framer: FramingConfig::Bytes, serializer: e.serializer },
            ),
            ResourceCodec::EncodingWithFraming(e) => Ok(
                Encoder {
                    framer: match e.framing {
                        Some(f) => f,
                        None => FramingConfig::Bytes,
                    },
                    serializer: e.serializer,
                },
            ),
            ResourceCodec::Decoding(d) => inverse_encoder(
                spec_default_stream_framing(d.deserializer),
                d.deserializer,
            ),
            ResourceCodec::DecodingWithFraming(d, f) => inverse_encoder(f, d.deserializer),
        }
    }

    /// Gets the allowed event data types for the configured codec.
    ///
    /// Not every codec can represent every kind of event losslessly, so only payloads of these
    /// types are generated for the component.
    pub fn allowed_event_data_types(self) -> (r: DataType)
        ensures
            r == self.spec_allowed_event_data_types(),
    {
        match self {
            ResourceCodec::Encoding(encoding) => encoding.config().input_type(),
            ResourceCodec::EncodingWithFraming(encoding) => encoding.config().1.input_type(),
            ResourceCodec::Decoding(decoding) | ResourceCodec::DecodingWithFraming(decoding, _) => {
                decoding.config().output_type()
            },
        }
    }

    /// Gets an encoder for this codec, or the framing or format that has no inverse.
    pub fn try_into_encoder(&self) -> (r: Result<Encoder, InversionError>)
        ensures
            r == self.spec_encoder(),
    {
        match self {
            ResourceCodec::Encoding(config) => Ok(
                Encoder::new(FramingConfig::Bytes, *config.config()),
            ),
            ResourceCodec::EncodingWithFraming(config) => {
                let (maybe_framing, serializer) = config.config();
                let framer = match maybe_framing {
                    Some(f) => *f,
                    None => FramingConfig::Bytes,
                };
                Ok(Encoder::new(framer, *serializer))
            },
            ResourceCodec::Decoding(config) => {
                let framing = config.config().default_stream_framing();
                invert(&framing, config.config())
            },
            ResourceCodec::DecodingWithFraming(config, framing) => invert(framing, config.config()),
        }
    }

    /// Gets an encoder for this codec.
    ///
    /// The encoder is the inverse of the codec: for a decoding configuration it writes what that
    /// decoder reads. A decoding framing or format without an inverse is a configuration defect
    /// that the caller rules out; `try_into_encoder` reports it instead.
    pub fn into_encoder(&self) -> (r: Encoder)
        requires
            self.spec_encoder() is Ok,
        ensures
            self.spec_encoder() == Ok::<Encoder, InversionError>(r),
    {
        match self.try_into_encoder() {
            Ok(encoder) => encoder,
            Err(_) => {
                proof {
                    assert(false);
                }
                Encoder::new(FramingConfig::Bytes, SerializerConfig::Text)
            },
        }
    }
}

/// Every deserializer format that has a paired serializer, decoded with its default stream
/// framing, has an inverse encoder, and that encoder's serializer is exactly the pair.
pub proof fn lemma_default_framing_inverse_uses_paired_format(config: DecodingConfig)
    requires
        paired_serializer(config.deserializer) is Some,
    ensures
        ResourceCodec::Decoding(config).spec_encoder() is Ok,
        ResourceCodec::Decoding(config).spec_encoder()->Ok_0.serializer == paired_serializer(
            config.deserializer,
        )->Some_0,
{
}

/// Whenever a decoding codec has an inverse encoder, the encoder's serializer is the one paired
/// with the codec's deserializer format, whatever the framing.
pub proof fn lemma_inverse_uses_paired_format(config: DecodingConfig, framing: DecodingFramingConfig)
    requires
        ResourceCodec::DecodingWithFraming(config, framing).spec_encoder() is Ok,
    ensures
        paired_serializer(config.deserializer) is Some,
        ResourceCodec::DecodingWithFraming(config, framing).spec_encoder()->Ok_0.serializer
            == paired_serializer(config.deserializer)->Some_0,
{
}

/// Inverting a character-delimited decoding framing keeps its delimiter.
pub proof fn lemma_inverse_keeps_delimiter(
    config: DecodingConfig,
    delimiter: u8,
    max_length: Option<usize>,
)
    requires
        paired_serializer(config.deserializer) is Some,
    ensures
        ResourceCodec::DecodingWithFraming(
            config,
            DecodingFramingConfig::CharacterDelimited { delimiter, max_length },
        ).spec_encoder() is Ok,
        ResourceCodec::DecodingWithFraming(
            config,
            DecodingFramingConfig::CharacterDelimited { delimiter, max_length },
        ).spec_encoder()->Ok_0.framer == (FramingConfig::CharacterDelimited { delimiter }),
{
}

/// A decoding codec with octet-counting framing has no inverse encoder, whatever its format: the
/// framing is reported as unsupported.
pub proof fn lemma_octet_counting_has_no_inverse(config: DecodingConfig, max_length: Option<usize>)
    ensures
        ResourceCodec::DecodingWithFraming(
            config,
            DecodingFramingConfig::OctetCounting { max_length },
        ).spec_encoder() == Err::<Encoder, InversionError>(
            InversionError::UnsupportedFraming(DecodingFramingConfig::OctetCounting { max_length }),
        ),
{
}

fn invert(framing: &DecodingFramingConfig, config: &DeserializerConfig) -> (r: Result<
    Encoder,
    InversionError,
>)
    ensures
        r == inverse_encoder(*framing, *config),
{
    let framer = match decoder_framing_to_encoding_framer(framing) {
        Some(f) => f,
        None => {
            return Err(InversionError::UnsupportedFraming(*framing));
        },
    };
    match deserializer_config_to_serializer(config) {
        Some(serializer) => Ok(Encoder::new(framer, serializer)),
        None => Err(InversionError::UnsupportedFormat(*config)),
    }
}

fn deserializer_config_to_serializer(config: &DeserializerConfig) -> (r: Option<
    SerializerConfig,
>)
    ensures
        r == paired_serializer(*config),
{
    match config {
        DeserializerConfig::Bytes => Some(SerializerConfig::Text),
        DeserializerConfig::Json => Some(SerializerConfig::Json),
        DeserializerConfig::Syslog => Some(SerializerConfig::Logfmt),
        DeserializerConfig::Native => Some(SerializerConfig::Native),
        DeserializerConfig::NativeJson => Some(SerializerConfig::NativeJson),
        DeserializerConfig::Gelf => Some(SerializerConfig::Gelf),
        DeserializerConfig::Avro => None,
    }
}

fn decoder_framing_to_encoding_framer(framing: &DecodingFramingConfig) -> (r: Option<
    FramingConfig,
>)
    ensures
        r == paired_framer(*framing),
{
    match framing {
        DecodingFramingConfig::Bytes => Some(FramingConfig::Bytes),
        DecodingFramingConfig::CharacterDelimited { delimiter, .. } => Some(
            FramingConfig::CharacterDelimited { delimiter: *delimiter },
        ),
        DecodingFramingConfig::LengthDelimited => Some(FramingConfig::LengthDelimited),
        DecodingFramingConfig::NewlineDelimited { .. } => Some(FramingConfig::NewlineDelimited),
        DecodingFramingConfig::OctetCounting { .. } => None,
    }
}

impl From<EncodingConfig> for ResourceCodec {
    fn from(config: EncodingConfig) -> (r: ResourceCodec) {
        ResourceCodec::Encoding(config)
    }
}

impl vstd::std_specs::convert::FromSpecImpl<EncodingConfig> for ResourceCodec {
    open spec fn obeys_from_spec() -> bool {
        true
    }

    open spec fn from_spec(config: EncodingConfig) -> ResourceCodec {
        ResourceCodec::Encoding(config)
    }
}

impl From<EncodingConfigWithFraming> for ResourceCodec {
    fn from(config: EncodingConfigWithFraming) -> (r: ResourceCodec) {
        ResourceCodec::EncodingWithFraming(config)
    }
}

impl vstd::std_specs::convert::FromSpecImpl<EncodingConfigWithFraming> for ResourceCodec {
    open spec fn obeys_from_spec() -> bool {
        true
    }

    open spec fn from_spec(config: EncodingConfigWithFraming) -> ResourceCodec {
        ResourceCodec::EncodingWithFraming(config)
    }
}

impl From<DecodingConfig> for ResourceCodec {
    fn from(config: DecodingConfig) -> (r: ResourceCodec) {
        ResourceCodec::Decoding(config)
    }
}

impl vstd::std_specs::convert::FromSpecImpl<DecodingConfig> for ResourceCodec {
    open spec fn obeys_from_spec() -> bool {
        true
    }

    open spec fn from_spec(config: DecodingConfig) -> ResourceCodec {
        ResourceCodec::Decoding(config)
    }
}

} // verus!
