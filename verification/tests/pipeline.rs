use charset_decode::{decode_label, resolve, Detection, Error};

fn best(label: &str) -> Detection {
    Detection::Best(label.to_string())
}

fn detect(bytes: &[u8]) -> Detection {
    match charset_normalizer_rs::from_bytes(bytes, None) {
        Err(report) => Detection::Failed(report),
        Ok(matches) => match matches.get_best() {
            Some(best) => Detection::Best(best.encoding().to_string()),
            None => Detection::NoCandidate,
        },
    }
}

fn run(bytes: &[u8]) -> Result<String, Error> {
    resolve(bytes, detect(bytes))
}

#[test]
fn detector_failure_is_an_extern_failure() {
    let end = resolve(&[0x61], Detection::Failed("out of memory".to_string()));
    assert_eq!(end, Err(Error::Extern("detector", "out of memory".to_string())));
}

#[test]
fn no_candidate_is_an_extern_failure() {
    let end = resolve(&[0x00, 0x01, 0x02], Detection::NoCandidate);
    assert_eq!(end, Err(Error::Extern("detector", "No best charset".to_string())));
}

#[test]
fn no_candidate_is_not_an_unresolved_label() {
    let none = resolve(&[0x61], Detection::NoCandidate);
    let unlisted = resolve(&[0x61], best("shift_jis"));
    assert_eq!(unlisted, Err(Error::UnresolvedEncoding("shift_jis".to_string())));
    assert_ne!(none, unlisted);
}

#[test]
fn a_failed_detector_fails_the_run_even_on_an_empty_buffer() {
    let end = resolve(&[], Detection::Failed("bad settings".to_string()));
    assert_eq!(end, Err(Error::Extern("detector", "bad settings".to_string())));
}

#[test]
fn nothing_found_in_an_empty_buffer_is_no_failure() {
    assert_eq!(resolve(&[], Detection::NoCandidate), Ok(String::new()));
}

#[test]
fn empty_buffer_under_a_guess_outside_the_table() {
    assert_eq!(resolve(&[], best("shift_jis")), Ok(String::new()));
    assert_eq!(resolve(&[], best("")), Ok(String::new()));
}

#[test]
fn the_detector_says_utf8_of_an_empty_buffer() {
    assert_eq!(detect(&[]), best("utf-8"));
}

#[test]
fn best_guess_is_decoded_under_its_label() {
    assert_eq!(resolve(&[0x61, 0x62, 0x63], best("utf-8")), Ok("abc".to_string()));
    assert_eq!(resolve(&[0xC4, 0xE3, 0xBA, 0xC3], best("gb18030")), Ok("你好".to_string()));
    assert_eq!(
        resolve(&[0xFF, 0xFE, 0x00], best("utf-16le")),
        Err(Error::FailedDecoding("utf-16le".to_string()))
    );
    assert_eq!(resolve(&[0x80], best("utf-8")), Err(Error::FailedDecoding("utf-8".to_string())));
}

#[test]
fn resolve_agrees_with_decode_label() {
    let buffers: [&[u8]; 4] = [&[0x61, 0x62, 0x63], &[0x80], &[0xC4, 0xE3, 0xBA, 0xC3], &[]];
    for bytes in buffers {
        for label in ["utf-8", "ascii", "gbk", "utf-16be", "shift_jis", "UTF-8"] {
            assert_eq!(resolve(bytes, best(label)), decode_label(bytes, label));
        }
    }
}

#[test]
fn empty_buffer_is_empty_text() {
    assert_eq!(run(&[]), Ok(String::new()));
}

#[test]
fn empty_buffer_under_every_guess_of_the_table() {
    for label in ["big5", "euc-jp", "euc-kr", "gb18030", "gbk", "utf-8", "ascii", "utf-16be", "utf-16le"] {
        assert_eq!(resolve(&[], best(label)), Ok(String::new()));
    }
}

#[test]
fn ascii_text_comes_back_as_it_is() {
    let written = "The quick brown fox jumps over the lazy dog, and then it rests for a while.";
    assert_eq!(run(written.as_bytes()), Ok(written.to_string()));
}

#[test]
fn utf8_text_comes_back_as_it_is() {
    let written = "你好，世界！这是一段用来检测字符编码的中文文本。它应该被识别为正确的编码，并且被完整地解码。";
    assert_eq!(run(written.as_bytes()), Ok(written.to_string()));
}

#[test]
fn marked_utf8_text_comes_back_with_its_mark() {
    let written = "\u{feff}Grüße aus Köln, où l'été est déjà là.";
    assert_eq!(&written.as_bytes()[..3], &[0xEF, 0xBB, 0xBF]);
    assert_eq!(run(written.as_bytes()), Ok(written.to_string()));
}

#[test]
fn marked_utf16_text_is_decoded() {
    let written = "\u{feff}Hello, UTF-16 world! 你好";
    let mut le = vec![];
    let mut be = vec![];
    for unit in written.encode_utf16() {
        le.extend_from_slice(&unit.to_le_bytes());
        be.extend_from_slice(&unit.to_be_bytes());
    }
    assert_eq!(&le[..2], &[0xFF, 0xFE]);
    assert_eq!(&be[..2], &[0xFE, 0xFF]);
    assert_eq!(run(&le), Ok(written.to_string()));
    assert_eq!(run(&be), Ok(written.to_string()));
}

#[test]
fn bytes_that_are_no_text_find_no_candidate() {
    let end = run(&[0x00, 0x01, 0x02, 0x03, 0xFF, 0xFE, 0xFD, 0x80, 0x81]);
    assert_eq!(end, Err(Error::Extern("detector", "No best charset".to_string())));
}

#[test]
fn two_runs_on_one_buffer_end_alike() {
    let buffers: [&[u8]; 5] = [
        &[],
        b"plain ASCII text, long enough to be weighed",
        &[0xE4, 0xBD, 0xA0, 0xE5, 0xA5, 0xBD, 0xEF, 0xBC, 0x8C, 0xE4, 0xB8, 0x96, 0xE7, 0x95, 0x8C],
        &[0xFF, 0xFE, 0x00],
        &[0x00, 0x01, 0x02, 0x03, 0xFF, 0xFE, 0xFD, 0x80, 0x81],
    ];
    for bytes in buffers {
        assert_eq!(run(bytes), run(bytes));
    }
}

#[test]
fn a_run_never_ends_in_lossy_text() {
    let buffers: [&[u8]; 3] = [
        &[0x00, 0x01, 0x02, 0x03, 0xFF, 0xFE, 0xFD, 0x80, 0x81],
        &[0xFF, 0xFE, 0x00],
        &[0xC4, 0xE3, 0xBA, 0xC3, 0xA3, 0xAC, 0xCA, 0xC0, 0xBD, 0xE7, 0xA3, 0xA1],
    ];
    for bytes in buffers {
        if let Ok(text) = run(bytes) {
            assert!(!text.contains('\u{fffd}'));
        }
    }
}
