//! The log line decoder: chunked byte streams into lines.

use evg_api::lines::LineDecoder;
use evg_api::ApiError;

fn decode_chunked(chunks: &[&[u8]]) -> Vec<String> {
    let mut decoder = LineDecoder::new();
    let mut lines: Vec<String> = Vec::new();
    for chunk in chunks {
        lines.extend(decoder.feed(chunk).unwrap());
    }
    lines.push(decoder.finish());
    lines
}

#[test]
fn lines_are_the_same_for_any_chunk_boundaries() {
    let whole = decode_chunked(&[b"first line\nsecond line\ntail"]);
    let split_inside_lines = decode_chunked(&[b"first li", b"ne\nsec", b"ond line\nta", b"il"]);
    let split_at_delimiters = decode_chunked(&[b"first line\n", b"second line\n", b"tail"]);
    let byte_at_a_time: Vec<&[u8]> = b"first line\nsecond line\ntail"
        .chunks(1)
        .collect();

    let expected = vec![
        String::from("first line"),
        String::from("second line"),
        String::from("tail"),
    ];
    assert_eq!(whole, expected);
    assert_eq!(split_inside_lines, expected);
    assert_eq!(split_at_delimiters, expected);
    assert_eq!(decode_chunked(&byte_at_a_time), expected);
}

#[test]
fn final_line_without_delimiter_is_still_yielded() {
    assert_eq!(decode_chunked(&[b"no delimiter at all"]), vec![String::from(
        "no delimiter at all"
    )]);
}

#[test]
fn trailing_delimiter_yields_an_empty_final_line() {
    assert_eq!(decode_chunked(&[b"one\n"]), vec![String::from("one"), String::new()]);
}

#[test]
fn empty_stream_yields_one_empty_line() {
    assert_eq!(decode_chunked(&[]), vec![String::new()]);
}

#[test]
fn chunk_that_is_not_valid_text_fails_with_an_encoding_error() {
    let mut decoder = LineDecoder::new();
    assert_eq!(decoder.feed(&[0xff, 0xfe]), Err(ApiError::Encoding));
}

#[test]
fn multi_byte_character_split_across_chunks_fails_the_stream() {
    // The two bytes of a two-byte character, cut apart: each chunk alone is
    // invalid text, so the stream fails rather than buffering across the
    // boundary.
    let encoded = "é".as_bytes();
    let mut decoder = LineDecoder::new();
    assert_eq!(decoder.feed(&encoded[..1]), Err(ApiError::Encoding));
}

#[test]
fn multi_byte_characters_within_one_chunk_decode() {
    assert_eq!(decode_chunked(&["héllo\nwörld".as_bytes()]), vec![
        String::from("héllo"),
        String::from("wörld"),
    ]);
}
