use include_flate::{
    apply_compression, apply_decompression, compress, compression_ratio, decode, decode_string,
    decompress, deflate_file, deflate_if, deflate_utf8_file, deflate_utf8_if, evaluate_threshold,
    flate_bytes, flate_str, is_ratio_below, validate_utf8, ArgToken, ArgsError, CompressionMethod,
    CompressionMethodTy, EmbedError, FlateArgs, FlateCompressionError, FlateDecoder, FlateEncoder,
    ThresholdCondition, Utf8ValidationError, DEFAULT_WARNING_THRESHOLD,
};

const METHODS: [CompressionMethod; 2] = [CompressionMethod::Deflate, CompressionMethod::Zstd];

fn request(algorithm: Option<CompressionMethod>, threshold: Option<ThresholdCondition>) -> FlateArgs {
    FlateArgs { path: "asset".to_string(), algorithm, threshold }
}

fn ident(s: &str) -> ArgToken {
    ArgToken::Ident(s.to_string())
}

fn text_sample() -> Vec<u8> {
    "the quick brown fox jumps over the lazy dog; ".repeat(40).into_bytes()
}

#[test]
fn ratio_threshold_inversion() {
    let t = ThresholdCondition::CompressionRatioMoreThan(10);
    assert!(evaluate_threshold(100, 5, t));
    assert!(!evaluate_threshold(2, 10, t));
    assert!(evaluate_threshold(100, 10, t));
    assert!(!evaluate_threshold(100, 11, t));
    assert!(evaluate_threshold(0, 7, t));
}

#[test]
fn less_than_original_boundary() {
    for original in [0u64, 1, 100, u64::MAX - 1] {
        assert!(evaluate_threshold(original, original, ThresholdCondition::LessThanOriginal));
        assert!(!evaluate_threshold(original, original + 1, ThresholdCondition::LessThanOriginal));
    }
}

#[test]
fn always_accepts_everything() {
    for (o, c) in [(0u64, 0u64), (1, 1000), (u64::MAX, 0), (5, u64::MAX)] {
        assert!(evaluate_threshold(o, c, ThresholdCondition::Always));
    }
}

#[test]
fn ratio_without_overflow() {
    let t = ThresholdCondition::CompressionRatioMoreThan(u64::MAX);
    assert!(evaluate_threshold(u64::MAX, u64::MAX, t));
    assert!(!evaluate_threshold(1, u64::MAX, ThresholdCondition::CompressionRatioMoreThan(100)));
}

#[test]
fn compression_ratio_in_hundredths() {
    assert_eq!(compression_ratio(200, 50), 2500);
    assert_eq!(compression_ratio(3, 1), 3333);
    assert_eq!(compression_ratio(1, 3), 30000);
    assert_eq!(compression_ratio(3, 2), 6667);
    assert_eq!(compression_ratio(8, 1), 1250);
    assert_eq!(compression_ratio(0, 9), 0);
    assert_eq!(compression_ratio(1, u64::MAX), u64::MAX as u128 * 10000);
}

#[test]
fn low_ratio_flag() {
    assert!(is_ratio_below(100, 9, 10));
    assert!(!is_ratio_below(100, 10, 10));
    assert!(is_ratio_below(0, 0, 1));
    assert!(!is_ratio_below(0, 0, 0));
    assert_eq!(DEFAULT_WARNING_THRESHOLD, 10);
}

#[test]
fn threshold_percentages() {
    assert_eq!(ThresholdCondition::Always.threshold_percent(), 0);
    assert_eq!(ThresholdCondition::LessThanOriginal.threshold_percent(), 100);
    assert_eq!(ThresholdCondition::CompressionRatioMoreThan(42).threshold_percent(), 42);
}

#[test]
fn parse_full_request() {
    let tokens = vec![
        ArgToken::Str("assets/one.txt".to_string()),
        ident("zstd"),
        ident("compression_ratio_more_than"),
        ArgToken::Int(10),
        ArgToken::Punct('%'),
    ];
    let args = FlateArgs::parse(&tokens).unwrap();
    assert_eq!(args.path, "assets/one.txt");
    assert_eq!(args.algorithm, Some(CompressionMethod::Zstd));
    assert_eq!(args.threshold, Some(ThresholdCondition::CompressionRatioMoreThan(10)));
}

#[test]
fn parse_defaults_and_overrides() {
    let bare = FlateArgs::parse(&[ArgToken::Str("a.bin".to_string())]).unwrap();
    assert_eq!(bare.algorithm, None);
    assert_eq!(bare.threshold, None);

    let tokens = vec![
        ArgToken::Str("a.bin".to_string()),
        ident("always"),
        ident("zstd"),
        ident("deflate"),
        ident("less_than_original"),
    ];
    let args = FlateArgs::parse(&tokens).unwrap();
    assert_eq!(args.algorithm, Some(CompressionMethod::Deflate));
    assert_eq!(args.threshold, Some(ThresholdCondition::LessThanOriginal));
}

#[test]
fn parse_errors() {
    assert_eq!(FlateArgs::parse(&[]), Err(ArgsError::ExpectedPath));
    assert_eq!(FlateArgs::parse(&[ident("deflate")]), Err(ArgsError::ExpectedPath));
    let missing_percent = vec![
        ArgToken::Str("a".to_string()),
        ident("deflate"),
        ident("compression_ratio_more_than"),
        ArgToken::Int(10),
    ];
    assert_eq!(FlateArgs::parse(&missing_percent), Err(ArgsError::Unexpected(2)));
    let unknown = vec![ArgToken::Str("a".to_string()), ident("gzip")];
    assert_eq!(FlateArgs::parse(&unknown), Err(ArgsError::Unexpected(1)));
    let wrong_punct = vec![
        ArgToken::Str("a".to_string()),
        ident("compression_ratio_more_than"),
        ArgToken::Int(5),
        ArgToken::Punct('$'),
    ];
    assert_eq!(FlateArgs::parse(&wrong_punct), Err(ArgsError::Unexpected(1)));
}

#[test]
fn threshold_parse_widths() {
    let tokens = vec![ident("compression_ratio_more_than"), ArgToken::Int(7), ArgToken::Punct('%'), ident("always")];
    assert_eq!(ThresholdCondition::parse(&tokens, 0), Some((ThresholdCondition::CompressionRatioMoreThan(7), 3)));
    assert_eq!(ThresholdCondition::parse(&tokens, 3), Some((ThresholdCondition::Always, 1)));
    assert_eq!(ThresholdCondition::parse(&tokens, 1), None);
    assert_eq!(ThresholdCondition::parse(&tokens, 4), None);
}

#[test]
fn round_trip_every_method() {
    let samples: Vec<Vec<u8>> = vec![Vec::new(), b"1".to_vec(), text_sample(), (0..=255u8).collect()];
    for method in METHODS {
        for data in &samples {
            let compressed = compress(method, data).unwrap();
            assert_eq!(&decompress(method, &compressed).unwrap(), data);
        }
    }
}

#[test]
fn compression_is_deterministic() {
    let data = text_sample();
    for method in METHODS {
        assert_eq!(compress(method, &data).unwrap(), compress(method, &data).unwrap());
    }
}

#[test]
fn compression_transforms_data() {
    let data = text_sample();
    for method in METHODS {
        let compressed = compress(method, &data).unwrap();
        assert_ne!(compressed, data);
        assert!(compressed.len() < data.len());
        let restored = decompress(method, &compressed).unwrap();
        assert_ne!(restored, compressed);
    }
}

#[test]
fn corrupted_deflate_stream_is_refused() {
    let mut compressed = compress(CompressionMethod::Deflate, &text_sample()).unwrap();
    // Block type 0b11 is reserved.
    let flipped = compressed[0] | 0x06;
    assert_ne!(flipped, compressed[0]);
    compressed[0] = flipped;
    assert!(matches!(
        decompress(CompressionMethod::Deflate, &compressed),
        Err(FlateCompressionError::DeflateError(_))
    ));
    let mut decoder = FlateDecoder::new(CompressionMethod::Deflate, &compressed).unwrap();
    let mut out = vec![7u8];
    assert!(matches!(decoder.read(&mut out, 100), Err(FlateCompressionError::DeflateError(_))));
    assert_eq!(out, vec![7u8]);
}

#[test]
fn corrupted_zstd_frame_is_refused() {
    let mut compressed = compress(CompressionMethod::Zstd, &text_sample()).unwrap();
    assert_eq!(compressed[0], 0x28);
    compressed[0] ^= 0xff;
    assert!(matches!(
        decompress(CompressionMethod::Zstd, &compressed),
        Err(FlateCompressionError::ZstdError(_))
    ));
    let mut sink = vec![9u8];
    assert!(apply_decompression(&compressed, &mut sink, CompressionMethod::Zstd).is_err());
    assert_eq!(sink, vec![9u8]);
}

#[test]
fn streaming_encoder_round_trips() {
    let data = text_sample();
    for method in METHODS {
        let mut encoder = FlateEncoder::new(method, vec![1, 2, 3]).unwrap();
        for (i, piece) in data.chunks(100).enumerate() {
            assert_eq!(encoder.write(piece).unwrap(), piece.len());
            if i == 3 {
                encoder.flush().unwrap();
            }
        }
        let out = encoder.finish_encode().unwrap();
        assert_eq!(&out[..3], &[1, 2, 3]);
        assert_ne!(out[3..].to_vec(), data);
        assert_eq!(decompress(method, &out[3..]).unwrap(), data);
    }
}

#[test]
fn streaming_encoder_of_nothing() {
    for method in METHODS {
        let encoder = method.encoder(Vec::new()).unwrap();
        let out = encoder.finish_encode().unwrap();
        assert!(!out.is_empty());
        assert_eq!(decompress(method, &out).unwrap(), Vec::<u8>::new());
    }
}

#[test]
fn making_a_decoder_reads_nothing() {
    let garbage = [0xffu8, 0xff, 0xff, 0xff, 0xff];
    for method in METHODS {
        let mut decoder = method.decoder(&garbage).unwrap();
        let mut out = Vec::new();
        let first = decoder.read(&mut out, 16);
        assert!(first.is_err());
        assert!(out.is_empty());
    }
}

#[test]
fn decoder_reads_forward() {
    let data = text_sample();
    let compressed = compress(CompressionMethod::Zstd, &data).unwrap();
    let mut decoder = CompressionMethod::Zstd.decoder(&compressed).unwrap();
    let mut out = Vec::new();
    assert_eq!(decoder.read(&mut out, 10).unwrap(), 10);
    assert_eq!(decoder.read(&mut out, 0).unwrap(), 0);
    let rest = decoder.read(&mut out, usize::MAX).unwrap();
    assert_eq!(rest, data.len() - 10);
    assert_eq!(decoder.read(&mut out, 5).unwrap(), 0);
    assert_eq!(out, data);
}

#[test]
fn apply_compression_appends() {
    let data = text_sample();
    for method in METHODS {
        let mut sink = b"head".to_vec();
        apply_compression(&data, &mut sink, method).unwrap();
        assert_eq!(&sink[..4], b"head");
        assert_eq!(&sink[4..], compress(method, &data).unwrap().as_slice());
        let mut restored = b"x".to_vec();
        apply_decompression(&sink[4..], &mut restored, method).unwrap();
        assert_eq!(&restored[..1], b"x");
        assert_eq!(&restored[1..], data.as_slice());
    }
}

#[test]
fn decode_restores_bytes_and_text() {
    let data = "héllo wörld, 漢字".as_bytes().to_vec();
    let deflated = compress(CompressionMethod::Deflate, &data).unwrap();
    assert_eq!(decode(&deflated, None), data);
    let zstd = compress(CompressionMethod::Zstd, &data).unwrap();
    assert_eq!(decode(&zstd, Some(CompressionMethodTy(CompressionMethod::Zstd))), data);
    assert_eq!(decode_string(&zstd, Some(CompressionMethodTy(CompressionMethod::Zstd))), "héllo wörld, 漢字");
}

#[test]
fn text_round_trip() {
    for method in METHODS {
        let text = "天地玄黄 — mixed ascii and ünïcödé";
        let restored = flate_str(text.as_bytes(), &request(Some(method), None)).unwrap();
        assert_eq!(restored, text);
        let empty = flate_str(&[], &request(Some(method), None)).unwrap();
        assert_eq!(empty, "");
    }
}

#[test]
fn invalid_utf8_is_refused_before_compression() {
    let bad = [0x66u8, 0x6f, 0xff, 0x6f];
    assert_eq!(validate_utf8(&bad), Err(Utf8ValidationError { valid_up_to: 2 }));
    assert!(matches!(
        deflate_utf8_file(&bad, &request(None, None)),
        Err(EmbedError::InvalidUtf8(Utf8ValidationError { valid_up_to: 2 }))
    ));
    assert!(matches!(
        deflate_utf8_if(&bad, &request(Some(CompressionMethod::Zstd), Some(ThresholdCondition::Always))),
        Err(EmbedError::InvalidUtf8(_))
    ));
    assert!(matches!(flate_str(&[0xe6, 0xbc], &request(None, None)), Err(EmbedError::InvalidUtf8(_))));
    // The same bytes are accepted where the asset is not textual.
    assert_eq!(flate_bytes(&bad, &request(None, None)).unwrap(), bad.to_vec());
    assert_eq!(validate_utf8("ok".as_bytes()), Ok("ok".to_string()));
    assert_eq!(validate_utf8(&[0x61, 0xe6, 0xbc]), Err(Utf8ValidationError { valid_up_to: 1 }));
    assert_eq!(validate_utf8(&[0xed, 0xa0, 0x80]), Err(Utf8ValidationError { valid_up_to: 0 }));
}

#[test]
fn low_ratio_diagnostic() {
    let zeros = vec![0u8; 100_000];
    let asset = deflate_file(&zeros, &request(None, None)).unwrap();
    assert!(asset.bytes.len() * 10 < zeros.len());
    assert!(asset.low_ratio);
    let never = deflate_file(&zeros, &request(None, Some(ThresholdCondition::Always))).unwrap();
    assert!(!never.low_ratio);
    let one = deflate_file(b"1", &request(None, None)).unwrap();
    assert!(!one.low_ratio);
    assert_eq!(one.ratio, one.bytes.len() as u128 * 10000);
}

#[test]
fn decision_on_compressible_data() {
    let zeros = vec![0u8; 10_000];
    for method in METHODS {
        assert!(deflate_if(&zeros, &request(Some(method), Some(ThresholdCondition::LessThanOriginal))).unwrap());
        assert!(deflate_if(&zeros, &request(Some(method), Some(ThresholdCondition::CompressionRatioMoreThan(10)))).unwrap());
        assert!(!deflate_if(&zeros, &request(Some(method), Some(ThresholdCondition::CompressionRatioMoreThan(0)))).unwrap());
    }
}

#[test]
fn io_errors_convert() {
    let e = FlateCompressionError::from(std::io::Error::new(std::io::ErrorKind::Other, "sink"));
    assert!(matches!(e, FlateCompressionError::IoError(_)));
    let m: CompressionMethod = CompressionMethodTy(CompressionMethod::Zstd).into();
    assert_eq!(m, CompressionMethod::Zstd);
}
