use inline_proc_macros::codec::{decode_textual, encode_textual, to_output_path};
use inline_proc_macros::error::Error;

fn enc(bytes: &[u8]) -> Vec<u8> {
    encode_textual(&bytes.to_vec())
}

fn dec(text: &[u8]) -> Result<Vec<u8>, Error> {
    decode_textual(&text.to_vec())
}

#[test]
fn encode_empty_is_empty() {
    assert_eq!(enc(b""), b"".to_vec());
}

#[test]
fn encode_exact_values() {
    assert_eq!(enc(b"M"), b"TQ==".to_vec());
    assert_eq!(enc(b"Ma"), b"TWE=".to_vec());
    assert_eq!(enc(b"Man"), b"TWFu".to_vec());
    assert_eq!(enc(b"Many hands make light work."), b"TWFueSBoYW5kcyBtYWtlIGxpZ2h0IHdvcmsu".to_vec());
    assert_eq!(enc(&[0]), b"AA==".to_vec());
    assert_eq!(enc(&[255, 255, 255]), b"////".to_vec());
    assert_eq!(enc(&[251, 239]), b"++8=".to_vec());
}

#[test]
fn decode_inverts_encode() {
    let samples: Vec<Vec<u8>> = vec![
        vec![],
        vec![0],
        vec![0, 0],
        vec![0, 0, 0],
        vec![1, 2, 3, 4],
        vec![255; 7],
        (0u16..=255).map(|b| b as u8).collect(),
        b"the quick brown fox".to_vec(),
    ];
    for b in samples {
        assert_eq!(decode_textual(&encode_textual(&b)).unwrap(), b);
    }
}

#[test]
fn encoding_matches_reference_implementation() {
    let samples: Vec<Vec<u8>> = vec![
        vec![],
        vec![42],
        vec![13, 10],
        b"hello world".to_vec(),
        (0u16..=255).map(|b| b as u8).collect(),
    ];
    for b in samples {
        assert_eq!(String::from_utf8(enc(&b)).unwrap(), base64::encode(&b));
    }
}

#[test]
fn decoding_matches_reference_implementation() {
    for text in ["", "TWFu", "TQ==", "TWE=", "AAAA", "////", "+/+/"] {
        assert_eq!(
            dec(text.as_bytes()).unwrap(),
            base64::decode(text).unwrap(),
        );
    }
}

#[test]
fn decode_rejects_bad_lengths() {
    for text in [&b"A"[..], b"AB", b"ABC", b"AAAAB"] {
        assert_eq!(dec(text), Err(Error::InvalidArtifactEncoding));
    }
}

#[test]
fn decode_rejects_bad_characters() {
    for text in [&b"A!AA"[..], b"AAA\n", b"AA,A", b"====", b"A==="] {
        assert_eq!(dec(text), Err(Error::InvalidArtifactEncoding));
    }
}

#[test]
fn decode_rejects_padding_before_end() {
    assert_eq!(dec(b"AA==AAAA"), Err(Error::InvalidArtifactEncoding));
    assert_eq!(dec(b"TWE=TWFu"), Err(Error::InvalidArtifactEncoding));
    assert_eq!(dec(b"AA=A"), Err(Error::InvalidArtifactEncoding));
}

#[test]
fn output_path_is_deterministic_and_namespaced() {
    let p = to_output_path("/tmp/out", "doubler");
    assert_eq!(p, "/tmp/out/inline_proc_macros/doubler.wasm");
    assert_eq!(to_output_path("/tmp/out", "doubler"), p);
}
