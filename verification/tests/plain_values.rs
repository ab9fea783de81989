//! Words, numbers, hexadecimal notation and the notations built on them.
use rgb_lightning_sample::hex_utils::{hex_str, to_compressed_pubkey, to_pubkey, to_vec};
use rgb_lightning_sample::number::{decimal_text, parse_number, NumberFault};
use rgb_lightning_sample::text::{
    bool_text, chars_of, join2, join3, join4, same_text, split_at_char, split_whitespace, text_of,
    white,
};
use rgb_lightning_sample::types::{
    bytes32, same_bytes32, same_key, same_outpoint, txid_text, OutPoint,
};

use std::str::FromStr;

fn words(line: &str) -> Vec<String> {
    line.split_whitespace().map(|w| w.to_string()).collect()
}

#[test]
fn white_space_is_that_of_unicode() {
    for n in 0..=0x10ffffu32 {
        if let Some(c) = char::from_u32(n) {
            assert_eq!(white(c), c.is_whitespace(), "character {}", n);
        }
    }
}

#[test]
fn words_of_a_line() {
    for line in [
        "",
        " ",
        "\n",
        "mine 6\n",
        "  mine\t 6  ",
        "a b  c\u{2003}d\u{3000}e\r\n",
        "caf\u{e9} \u{1f600}",
        "x\u{200b}y",
    ] {
        assert_eq!(split_whitespace(line), words(line), "line {:?}", line);
    }
}

#[test]
fn white_space_around_a_line_does_not_matter() {
    assert_eq!(split_whitespace("\t quit now \r\n"), split_whitespace("quit now"));
    assert_eq!(split_whitespace("\u{85}\u{2028}"), Vec::<String>::new());
}

#[test]
fn pieces_of_a_text() {
    for text in ["", "@", "a@b", "a@b@c", "ab", "@@", "\u{e9}@\u{1f600}"] {
        let pieces: Vec<String> = text.split('@').map(|p| p.to_string()).collect();
        assert_eq!(split_at_char(text, '@'), pieces, "text {:?}", text);
    }
}

#[test]
fn texts_are_joined_and_compared() {
    assert_eq!(join2("a", "b"), "ab");
    assert_eq!(join3("a", "", "c"), "ac");
    assert_eq!(join4("a", "b", "c", "\u{e9}"), "abc\u{e9}");
    assert!(same_text("exit", "exit"));
    assert!(!same_text("exit", "Exit"));
    assert_eq!(bool_text(true), "true");
    assert_eq!(bool_text(false), "false");
    let chars = chars_of("p\u{e9}er");
    assert_eq!(chars, vec!['p', '\u{e9}', 'e', 'r']);
    assert_eq!(text_of(&chars, 1, 3), "\u{e9}e");
    assert_eq!(text_of(&chars, 2, 2), "");
}

#[test]
fn numbers_are_read_as_the_standard_library_reads_them() {
    let samples = [
        "", "+", "-", "0", "7", "007", "+7", "-7", "++7", "7+", "a", "7a", "a7", "255", "256", "256a",
        "2560a", "65535", "65536", "4294967295", "4294967296", "18446744073709551615",
        "18446744073709551616", "18446744073709551616x", "99999999999999999999999x", "1_000", "\u{661}",
    ];
    for s in samples {
        let wide = s.parse::<u64>();
        match parse_number(s, u64::MAX) {
            Ok(n) => assert_eq!(wide, Ok(n)),
            Err(f) => assert_eq!(wide.unwrap_err().to_string(), f.text(), "word {:?}", s),
        }
        let narrow = s.parse::<u8>();
        match parse_number(s, u8::MAX as u64) {
            Ok(n) => assert_eq!(narrow, Ok(n as u8)),
            Err(f) => assert_eq!(narrow.unwrap_err().to_string(), f.text(), "word {:?}", s),
        }
        let port = s.parse::<u16>();
        assert_eq!(parse_number(s, u16::MAX as u64).ok(), port.ok().map(|n| n as u64));
        let secs = s.parse::<u32>();
        assert_eq!(parse_number(s, u32::MAX as u64).ok(), secs.ok().map(|n| n as u64));
    }
}

#[test]
fn each_fault_of_a_number() {
    assert_eq!(parse_number("", 9), Err(NumberFault::Empty));
    assert_eq!(parse_number("x", 9), Err(NumberFault::InvalidDigit));
    assert_eq!(parse_number("10", 9), Err(NumberFault::TooLarge));
    assert_eq!(NumberFault::Empty.text(), "cannot parse integer from empty string");
    assert_eq!(NumberFault::InvalidDigit.text(), "invalid digit found in string");
    assert_eq!(NumberFault::TooLarge.text(), "number too large to fit in target type");
}

#[test]
fn numbers_are_written_and_read_back() {
    for n in [0, 9, 10, 99, 546000, 16777215, u64::MAX - 1, u64::MAX] {
        assert_eq!(decimal_text(n), n.to_string());
        assert_eq!(parse_number(&decimal_text(n), u64::MAX), Ok(n));
    }
}

#[test]
fn bytes_in_hexadecimal() {
    assert_eq!(hex_str(&[0x00, 0x0f, 0xa0, 0xff]), "000fa0ff");
    assert_eq!(hex_str(&[]), "");
    assert_eq!(to_vec("000fA0Ff"), Some(vec![0x00, 0x0f, 0xa0, 0xff]));
    assert_eq!(to_vec(""), Some(vec![]));
    assert_eq!(to_vec("0fa"), Some(vec![0x0f]));
    assert_eq!(to_vec("0g"), None);
    assert_eq!(to_vec("0f g"), None);
    let all: Vec<u8> = (0..=255).collect();
    assert_eq!(to_vec(&hex_str(&all)), Some(all));
}

#[test]
fn public_keys_in_hexadecimal() {
    let one = "0279be667ef9dcbbac55a06295ce870b07029bfcdb2dce28d959f2815b16f81798";
    let key = to_compressed_pubkey(one).unwrap();
    assert_eq!(hex_str(&key), one);
    assert_eq!(to_compressed_pubkey(&one.to_uppercase()), Some(key));
    assert_eq!(to_compressed_pubkey(&one[..64]), None);
    assert_eq!(to_compressed_pubkey(&format!("{}0", one)), None);
    assert_eq!(to_compressed_pubkey(&format!("05{}", &one[2..])), None);
    assert_eq!(to_compressed_pubkey(&format!("zz{}", &one[2..])), None);
    let uncompressed = bitcoin::secp256k1::PublicKey::from_str(one).unwrap().serialize_uncompressed();
    assert_eq!(to_pubkey(&hex_str(&uncompressed)), Some(key));
    assert_eq!(to_pubkey(&format!("{}0", one)), Some(key));
    assert_eq!(to_compressed_pubkey(&hex_str(&uncompressed)), None);
    assert_eq!(to_pubkey(""), None);
}

#[test]
fn transaction_ids_are_written_backwards() {
    let mut bytes = [0u8; 32];
    bytes[0] = 1;
    bytes[31] = 0xab;
    let txid: bitcoin::Txid = bitcoin::hashes::Hash::from_inner(bytes);
    assert_eq!(txid_text(&bytes), txid.to_string());
    assert_eq!(&txid_text(&bytes)[..2], "ab");
}

#[test]
fn arrays_are_compared() {
    let a = [3u8; 32];
    let mut b = a;
    assert!(same_bytes32(&a, &b));
    b[31] = 4;
    assert!(!same_bytes32(&a, &b));
    let mut k = [2u8; 33];
    assert!(same_key(&k, &[2u8; 33]));
    k[32] = 0;
    assert!(!same_key(&k, &[2u8; 33]));
    let o = OutPoint { txid: a, vout: 1 };
    assert!(same_outpoint(&o, &OutPoint { txid: a, vout: 1 }));
    assert!(!same_outpoint(&o, &OutPoint { txid: a, vout: 2 }));
    assert!(!same_outpoint(&o, &OutPoint { txid: b, vout: 1 }));
    assert_eq!(bytes32(&vec![7u8; 32]), Some([7u8; 32]));
    assert_eq!(bytes32(&vec![7u8; 31]), None);
    assert_eq!(bytes32(&vec![7u8; 33]), None);
}
