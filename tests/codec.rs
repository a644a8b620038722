use validation_resources::codec::{InversionError, ResourceCodec};
use validation_resources::config::{
    DecodingConfig, DecodingFramingConfig, DeserializerConfig, Encoder, EncodingConfig,
    EncodingConfigWithFraming, FramingConfig, SerializerConfig,
};
use validation_resources::data_type::DataType;

fn decoding(d: DeserializerConfig) -> ResourceCodec {
    ResourceCodec::Decoding(DecodingConfig::new(d))
}

fn decoding_with(d: DeserializerConfig, f: DecodingFramingConfig) -> ResourceCodec {
    ResourceCodec::DecodingWithFraming(DecodingConfig::new(d), f)
}

#[test]
fn every_deserializer_format_maps_or_fails() {
    let newline = DecodingFramingConfig::NewlineDelimited { max_length: None };
    let table = [
        (DeserializerConfig::Bytes, Some(SerializerConfig::Text)),
        (DeserializerConfig::Json, Some(SerializerConfig::Json)),
        (DeserializerConfig::Syslog, Some(SerializerConfig::Logfmt)),
        (DeserializerConfig::Native, Some(SerializerConfig::Native)),
        (DeserializerConfig::NativeJson, Some(SerializerConfig::NativeJson)),
        (DeserializerConfig::Gelf, Some(SerializerConfig::Gelf)),
        (DeserializerConfig::Avro, None),
    ];
    for (d, expected) in table {
        let result = decoding_with(d, newline).try_into_encoder();
        match expected {
            Some(s) => assert_eq!(
                result,
                Ok(Encoder::new(FramingConfig::NewlineDelimited, s))
            ),
            None => assert_eq!(result, Err(InversionError::UnsupportedFormat(d))),
        }
    }
}

#[test]
fn json_deserializer_gives_json_serializer() {
    let encoder = decoding(DeserializerConfig::Json).into_encoder();
    assert_eq!(encoder.serializer(), SerializerConfig::Json);
    assert_eq!(encoder.framer(), FramingConfig::NewlineDelimited);
}

#[test]
fn default_stream_framings_are_inverted() {
    assert_eq!(
        decoding(DeserializerConfig::Native).into_encoder(),
        Encoder::new(FramingConfig::LengthDelimited, SerializerConfig::Native)
    );
    assert_eq!(
        decoding(DeserializerConfig::Gelf).into_encoder(),
        Encoder::new(FramingConfig::CharacterDelimited { delimiter: 0 }, SerializerConfig::Gelf)
    );
    assert_eq!(
        decoding(DeserializerConfig::Bytes).into_encoder(),
        Encoder::new(FramingConfig::NewlineDelimited, SerializerConfig::Text)
    );
    assert_eq!(
        decoding(DeserializerConfig::Avro).try_into_encoder(),
        Err(InversionError::UnsupportedFormat(DeserializerConfig::Avro))
    );
}

#[test]
fn comma_delimiter_is_kept() {
    let codec = decoding_with(
        DeserializerConfig::Json,
        DecodingFramingConfig::CharacterDelimited { delimiter: b',', max_length: Some(64) },
    );
    let encoder = codec.into_encoder();
    assert_eq!(encoder.framer(), FramingConfig::CharacterDelimited { delimiter: b',' });
}

#[test]
fn octet_counting_has_no_inverse() {
    let framing = DecodingFramingConfig::OctetCounting { max_length: None };
    let codec = decoding_with(DeserializerConfig::Syslog, framing);
    assert_eq!(
        codec.try_into_encoder(),
        Err(InversionError::UnsupportedFraming(framing))
    );
}

#[test]
fn unsupported_framing_is_reported_before_format() {
    let framing = DecodingFramingConfig::OctetCounting { max_length: Some(10) };
    let codec = decoding_with(DeserializerConfig::Avro, framing);
    assert_eq!(
        codec.try_into_encoder(),
        Err(InversionError::UnsupportedFraming(framing))
    );
}

#[test]
fn decoding_framings_translate() {
    let cases = [
        (DecodingFramingConfig::Bytes, FramingConfig::Bytes),
        (DecodingFramingConfig::LengthDelimited, FramingConfig::LengthDelimited),
        (
            DecodingFramingConfig::NewlineDelimited { max_length: Some(512) },
            FramingConfig::NewlineDelimited,
        ),
        (
            DecodingFramingConfig::CharacterDelimited { delimiter: b'|', max_length: None },
            FramingConfig::CharacterDelimited { delimiter: b'|' },
        ),
    ];
    for (framing, framer) in cases {
        let encoder = decoding_with(DeserializerConfig::NativeJson, framing).into_encoder();
        assert_eq!(encoder, Encoder::new(framer, SerializerConfig::NativeJson));
    }
}

#[test]
fn encoding_codecs_keep_their_serializer() {
    let plain = ResourceCodec::Encoding(EncodingConfig::new(SerializerConfig::Csv));
    assert_eq!(
        plain.into_encoder(),
        Encoder::new(FramingConfig::Bytes, SerializerConfig::Csv)
    );
    let framed = ResourceCodec::EncodingWithFraming(EncodingConfigWithFraming::new(
        Some(FramingConfig::LengthDelimited),
        SerializerConfig::Logfmt,
    ));
    assert_eq!(
        framed.into_encoder(),
        Encoder::new(FramingConfig::LengthDelimited, SerializerConfig::Logfmt)
    );
    let unframed = ResourceCodec::EncodingWithFraming(EncodingConfigWithFraming::new(
        None,
        SerializerConfig::RawMessage,
    ));
    assert_eq!(
        unframed.into_encoder(),
        Encoder::new(FramingConfig::Bytes, SerializerConfig::RawMessage)
    );
}

#[test]
fn allowed_types_follow_the_stored_config() {
    let log = DataType { log: true, metric: false, trace: false };
    let all = DataType { log: true, metric: true, trace: true };
    let json = ResourceCodec::Encoding(EncodingConfig::new(SerializerConfig::Json));
    assert_eq!(json.allowed_event_data_types(), all);
    assert_eq!(json.allowed_event_data_types(), SerializerConfig::Json.input_type());
    let text = ResourceCodec::EncodingWithFraming(EncodingConfigWithFraming::new(
        Some(FramingConfig::NewlineDelimited),
        SerializerConfig::Text,
    ));
    assert_eq!(text.allowed_event_data_types(), log);
    assert_eq!(decoding(DeserializerConfig::Native).allowed_event_data_types(), all);
    assert_eq!(decoding(DeserializerConfig::Gelf).allowed_event_data_types(), log);
    let framed = decoding_with(DeserializerConfig::NativeJson, DecodingFramingConfig::Bytes);
    assert_eq!(framed.allowed_event_data_types(), all);
    assert_eq!(
        framed.allowed_event_data_types(),
        DeserializerConfig::NativeJson.output_type()
    );
}

#[test]
fn codecs_convert_from_configs() {
    let e: ResourceCodec = EncodingConfig::new(SerializerConfig::Gelf).into();
    assert!(matches!(e, ResourceCodec::Encoding(c) if c.serializer == SerializerConfig::Gelf));
    let f: ResourceCodec = EncodingConfigWithFraming::new(None, SerializerConfig::Avro).into();
    assert!(matches!(f, ResourceCodec::EncodingWithFraming(c) if c.framing.is_none()));
    let d: ResourceCodec = DecodingConfig::new(DeserializerConfig::Bytes).into();
    assert!(matches!(d, ResourceCodec::Decoding(c) if c.deserializer == DeserializerConfig::Bytes));
}
