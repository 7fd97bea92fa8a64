use range_poll::binary::decode_binary_frame;
use range_poll::config::{mode_command, DistanceBounds, Mode, FRAME_HEADER, SETTLE_DELAY_MS};
use range_poll::reading::{check_range, DecodeOutcome, DecodedReading};
use range_poll::text::{char_is_whitespace, chars_of, decode_text_line, parse_decimal_range};

fn bounds() -> DistanceBounds {
    DistanceBounds::new(500, 6000)
}

fn zero() -> DecodedReading {
    DecodedReading { distance_mm: 0, valid: false }
}

#[test]
fn mode_commands_are_the_fixed_sequences() {
    assert_eq!(mode_command(Mode::Binary), [0x00, 0x11, 0x02, 0x4C]);
    assert_eq!(mode_command(Mode::Text), [0x00, 0x11, 0x01, 0x45]);
    assert_ne!(mode_command(Mode::Binary), mode_command(Mode::Text));
    assert_eq!(FRAME_HEADER, 0x54);
    assert_eq!(SETTLE_DELAY_MS, 200);
}

#[test]
fn bounds_include_both_ends() {
    let b = bounds();
    assert!(b.contains(500));
    assert!(b.contains(6000));
    assert!(b.contains(1234));
    assert!(!b.contains(499));
    assert!(!b.contains(6001));
    assert!(!b.contains(0));
    assert!(!b.contains(u16::MAX));
}

#[test]
fn bounds_with_min_above_max_admit_nothing() {
    let b = DistanceBounds::new(6000, 500);
    assert!(!b.contains(500));
    assert!(!b.contains(3000));
    assert!(!b.contains(6000));
    assert_eq!(check_range(3000, &b), DecodeOutcome::OutOfRange { measured_mm: 3000 });
}

#[test]
fn binary_frame_in_range_is_accepted() {
    // 0x3034 = 12340 tenths of a millimetre
    let outcome = decode_binary_frame(&[0x54, 0x00, 0x30, 0x34], &bounds());
    assert_eq!(outcome, DecodeOutcome::Accepted { distance_mm: 1234 });
    assert!(outcome.is_accepted());
    assert_eq!(outcome.reading(), DecodedReading { distance_mm: 1234, valid: true });
}

#[test]
fn binary_frame_divides_by_ten_rounding_down() {
    // 0x3039 = 12345 tenths
    let outcome = decode_binary_frame(&[0x54, 0x00, 0x30, 0x39], &bounds());
    assert_eq!(outcome, DecodeOutcome::Accepted { distance_mm: 1234 });
}

#[test]
fn binary_frame_is_big_endian() {
    // 0x1388 = 5000 tenths = 500 mm; read little-endian it would be 0x8813 = 34835
    let outcome = decode_binary_frame(&[0x54, 0x00, 0x13, 0x88], &bounds());
    assert_eq!(outcome, DecodeOutcome::Accepted { distance_mm: 500 });
}

#[test]
fn binary_frame_matches_shift_and_or_for_every_payload() {
    let wide = DistanceBounds::new(0, u16::MAX);
    for hi in 0..=255u8 {
        for lo in 0..=255u8 {
            let expected = (((hi as u16) << 8) | (lo as u16)) / 10;
            let outcome = decode_binary_frame(&[0x54, 0xA5, hi, lo], &wide);
            assert_eq!(outcome, DecodeOutcome::Accepted { distance_mm: expected });
            let reading = decode_binary_frame(&[0x54, 0xA5, hi, lo], &bounds()).reading();
            if (500..=6000).contains(&expected) {
                assert_eq!(reading, DecodedReading { distance_mm: expected, valid: true });
            } else {
                assert_eq!(reading, zero());
            }
        }
    }
}

#[test]
fn binary_frame_at_the_edges_of_the_bounds() {
    let b = bounds();
    // 4999 tenths -> 499 mm
    assert_eq!(
        decode_binary_frame(&[0x54, 0, 0x13, 0x87], &b),
        DecodeOutcome::OutOfRange { measured_mm: 499 }
    );
    // 60009 tenths -> 6000 mm
    assert_eq!(
        decode_binary_frame(&[0x54, 0, 0xEA, 0x69], &b),
        DecodeOutcome::Accepted { distance_mm: 6000 }
    );
    // 60010 tenths -> 6001 mm
    assert_eq!(
        decode_binary_frame(&[0x54, 0, 0xEA, 0x6A], &b),
        DecodeOutcome::OutOfRange { measured_mm: 6001 }
    );
    // largest payload
    assert_eq!(
        decode_binary_frame(&[0x54, 0, 0xFF, 0xFF], &b),
        DecodeOutcome::OutOfRange { measured_mm: 6553 }
    );
    assert_eq!(decode_binary_frame(&[0x54, 0, 0, 0], &b), DecodeOutcome::OutOfRange {
        measured_mm: 0
    });
}

#[test]
fn binary_frame_out_of_range_reads_as_zero() {
    let reading = decode_binary_frame(&[0x54, 0, 0xEA, 0x6A], &bounds()).reading();
    assert_eq!(reading, zero());
    let reading = decode_binary_frame(&[0x54, 0, 0x00, 0x63], &bounds()).reading();
    assert_eq!(reading, zero());
}

#[test]
fn binary_frame_with_wrong_header_is_malformed() {
    for first in 0..=255u8 {
        if first == 0x54 {
            continue;
        }
        let outcome = decode_binary_frame(&[first, 0x00, 0x30, 0x34], &bounds());
        assert_eq!(outcome, DecodeOutcome::Malformed);
        assert!(!outcome.is_accepted());
        assert_eq!(outcome.reading(), zero());
    }
    assert_eq!(decode_binary_frame(&[0x00, 0x54, 0x54, 0x54], &bounds()), DecodeOutcome::Malformed);
}

#[test]
fn binary_frame_ignores_its_second_byte() {
    for second in 0..=255u8 {
        assert_eq!(
            decode_binary_frame(&[0x54, second, 0x30, 0x34], &bounds()),
            DecodeOutcome::Accepted { distance_mm: 1234 }
        );
    }
}

#[test]
fn text_line_in_range_is_accepted() {
    let outcome = decode_text_line("1234\n", &bounds());
    assert_eq!(outcome, DecodeOutcome::Accepted { distance_mm: 1234 });
    assert_eq!(outcome.reading(), DecodedReading { distance_mm: 1234, valid: true });
}

#[test]
fn text_line_out_of_range_is_rejected() {
    let outcome = decode_text_line("7000\n", &bounds());
    assert_eq!(outcome, DecodeOutcome::OutOfRange { measured_mm: 7000 });
    assert_eq!(outcome.reading(), zero());
    assert_eq!(outcome.reading().distance_mm, 0);
}

#[test]
fn text_line_at_the_edges_of_the_bounds() {
    let b = bounds();
    assert_eq!(decode_text_line("499\n", &b), DecodeOutcome::OutOfRange { measured_mm: 499 });
    assert_eq!(decode_text_line("500\n", &b), DecodeOutcome::Accepted { distance_mm: 500 });
    assert_eq!(decode_text_line("6000\n", &b), DecodeOutcome::Accepted { distance_mm: 6000 });
    assert_eq!(decode_text_line("6001\n", &b), DecodeOutcome::OutOfRange { measured_mm: 6001 });
    assert_eq!(decode_text_line("0\n", &b), DecodeOutcome::OutOfRange { measured_mm: 0 });
    assert_eq!(decode_text_line("65535\n", &b), DecodeOutcome::OutOfRange { measured_mm: 65535 });
}

#[test]
fn text_line_is_trimmed_on_both_sides() {
    let b = bounds();
    assert_eq!(decode_text_line("  1234 \r\n", &b), DecodeOutcome::Accepted { distance_mm: 1234 });
    assert_eq!(decode_text_line("\t1234", &b), DecodeOutcome::Accepted { distance_mm: 1234 });
    assert_eq!(
        decode_text_line("\u{a0}1234\u{3000}\n", &b),
        DecodeOutcome::Accepted { distance_mm: 1234 }
    );
    assert_eq!(
        decode_text_line("\u{2028}\u{85}1234\u{205f}\u{1680}", &b),
        DecodeOutcome::Accepted { distance_mm: 1234 }
    );
}

#[test]
fn text_line_with_inner_whitespace_is_malformed() {
    assert_eq!(decode_text_line("12 34\n", &bounds()), DecodeOutcome::Malformed);
    assert_eq!(decode_text_line("1234\n5\n", &bounds()), DecodeOutcome::Malformed);
}

#[test]
fn text_line_that_is_no_number_is_malformed() {
    let b = bounds();
    for line in ["", "\n", "   ", "abc\n", "12a4\n", "-1234\n", "1234.5\n", "0x4D2\n", "+\n", "++1\n", "+-1\n", "1234+\n", "١٢٣٤\n", "\u{200b}1234\n"] {
        let outcome = decode_text_line(line, &b);
        assert_eq!(outcome, DecodeOutcome::Malformed, "line {:?}", line);
        assert_eq!(outcome.reading(), zero());
    }
}

#[test]
fn text_line_beyond_sixteen_bits_is_malformed() {
    let b = DistanceBounds::new(0, u16::MAX);
    assert_eq!(decode_text_line("65535\n", &b), DecodeOutcome::Accepted { distance_mm: 65535 });
    assert_eq!(decode_text_line("65536\n", &b), DecodeOutcome::Malformed);
    assert_eq!(decode_text_line("70000\n", &b), DecodeOutcome::Malformed);
    assert_eq!(decode_text_line("99999999999999999999999\n", &b), DecodeOutcome::Malformed);
    assert_eq!(decode_text_line("655350\n", &b), DecodeOutcome::Malformed);
}

#[test]
fn text_line_takes_a_plus_sign_and_leading_zeros() {
    let b = bounds();
    assert_eq!(decode_text_line("+1234\n", &b), DecodeOutcome::Accepted { distance_mm: 1234 });
    assert_eq!(decode_text_line("0001234\n", &b), DecodeOutcome::Accepted { distance_mm: 1234 });
    assert_eq!(
        decode_text_line("+000000000000000000001234\n", &b),
        DecodeOutcome::Accepted { distance_mm: 1234 }
    );
}

#[test]
fn text_line_agrees_with_trim_and_parse() {
    let wide = DistanceBounds::new(0, u16::MAX);
    let pieces = ["", " ", "\n", "\r\n", "+", "-", "0", "7", "12", "65535", "65536", "1234", "a", "\u{a0}", "\u{2003}", "9", "00"];
    for a in pieces {
        for b in pieces {
            for c in pieces {
                let line = format!("{}{}{}", a, b, c);
                let expected = match line.trim().parse::<u16>() {
                    Ok(n) => DecodeOutcome::Accepted { distance_mm: n },
                    Err(_) => DecodeOutcome::Malformed,
                };
                assert_eq!(decode_text_line(&line, &wide), expected, "line {:?}", line);
            }
        }
    }
}

#[test]
fn whitespace_test_agrees_with_the_standard_library() {
    let mut count = 0;
    for code in 0..=0x10FFFFu32 {
        if let Some(c) = char::from_u32(code) {
            assert_eq!(char_is_whitespace(c), c.is_whitespace(), "U+{:04X}", code);
            if char_is_whitespace(c) {
                count += 1;
            }
        }
    }
    assert_eq!(count, 25);
}

#[test]
fn chars_of_keeps_every_character_in_order() {
    assert_eq!(chars_of(""), Vec::<char>::new());
    assert_eq!(chars_of("12\n"), vec!['1', '2', '\n']);
    assert_eq!(chars_of("a\u{3000}é"), vec!['a', '\u{3000}', 'é']);
}

#[test]
fn parse_decimal_range_reads_only_the_given_range() {
    let chars = chars_of("ab+123cd");
    assert_eq!(parse_decimal_range(&chars, 2, 6), Some(123));
    assert_eq!(parse_decimal_range(&chars, 3, 6), Some(123));
    assert_eq!(parse_decimal_range(&chars, 3, 5), Some(12));
    assert_eq!(parse_decimal_range(&chars, 2, 3), None);
    assert_eq!(parse_decimal_range(&chars, 3, 3), None);
    assert_eq!(parse_decimal_range(&chars, 0, 8), None);
    assert_eq!(parse_decimal_range(&chars, 3, 7), None);
    assert_eq!(parse_decimal_range(&chars, 8, 8), None);
}

#[test]
fn decoding_twice_gives_the_same_result() {
    let b = bounds();
    for frame in [[0x54u8, 1, 0x30, 0x34], [0x54, 1, 0xFF, 0xFF], [0x10, 1, 0x30, 0x34]] {
        assert_eq!(decode_binary_frame(&frame, &b), decode_binary_frame(&frame, &b));
    }
    for line in ["1234\n", "7000\n", "junk\n", ""] {
        assert_eq!(decode_text_line(line, &b), decode_text_line(line, &b));
    }
}

#[test]
fn check_range_keeps_the_measured_value() {
    assert_eq!(check_range(500, &bounds()), DecodeOutcome::Accepted { distance_mm: 500 });
    assert_eq!(check_range(7, &bounds()), DecodeOutcome::OutOfRange { measured_mm: 7 });
    assert_eq!(DecodeOutcome::OutOfRange { measured_mm: 7 }.reading(), zero());
    assert_eq!(DecodeOutcome::Malformed.reading(), zero());
}
