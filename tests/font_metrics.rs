use trezor_ui::font::{FontInfo, GlyphData, GlyphMetrics, TranslationGlyph, Translations};
use trezor_ui::glyph::{bitmap_size, calculate_glyph_size, Glyph, GlyphError};
use trezor_ui::session::{GlyphSession, TranslationsLock};

/// A 4 bpp glyph record with an all-zero bitmap.
fn record(width: u8, height: u8, adv: u8, bearing_x: u8, bearing_y: u8) -> Vec<u8> {
    let bitmap = ((width as usize + 1) / 2) * height as usize;
    let mut rec = vec![width, height, adv, bearing_x, bearing_y];
    rec.extend(std::iter::repeat(0u8).take(bitmap));
    rec
}

fn leak(v: Vec<u8>) -> &'static [u8] {
    Box::leak(v.into_boxed_slice())
}

/// A font whose glyph for printable ASCII `c` advances by `c - 0x20 + 1`,
/// except space (advance 3) and the letters `A` and `y` (shaped to test
/// heights).
fn test_font() -> &'static FontInfo {
    let mut table: Vec<&'static [u8]> = Vec::new();
    for cp in 0x20u8..0x7f {
        let rec = match cp {
            b' ' => record(0, 0, 3, 0, 0),
            b'A' => record(6, 10, 8, 1, 10),
            b'y' => record(5, 9, 6, 0, 6),
            _ => record(4, 7, cp - 0x20 + 1, 1, 7),
        };
        table.push(leak(rec));
    }
    let font = FontInfo {
        translation_blob_idx: 2,
        height: 12,
        max_height: 14,
        baseline: 3,
        glyph_data: Box::leak(table.into_boxed_slice()),
        glyph_nonprintable: leak(record(4, 4, 9, 2, 4)),
    };
    Box::leak(Box::new(font))
}

fn adv(c: char) -> i16 {
    match c {
        ' ' => 3,
        'A' => 8,
        'y' => 6,
        _ => (c as i16) - 0x20 + 1,
    }
}

#[test]
fn font_table_is_valid() {
    assert!(test_font().is_valid());
}

#[test]
fn text_width_is_sum_of_char_widths() {
    let font = test_font();
    for text in ["a", "abc", "Hello, world!", "~}|{"] {
        let sum: i16 = text.chars().map(|c| font.char_width(None, c)).sum();
        assert_eq!(font.text_width(None, text), sum);
        let expected: i16 = text.chars().map(adv).sum();
        assert_eq!(sum, expected);
    }
}

#[test]
fn char_width_reads_advance() {
    let font = test_font();
    assert_eq!(font.char_width(None, 'b'), 67);
    assert_eq!(font.char_width(None, ' '), 3);
    assert_eq!(font.char_width(None, '\u{1}'), 9);
}

#[test]
fn visible_metrics_of_empty_text() {
    let font = test_font();
    assert_eq!(font.visible_text_width(None, ""), 0);
    assert_eq!(font.visible_text_height(None, ""), 0);
    assert_eq!(font.text_width(None, ""), 0);
    assert_eq!(font.start_x_bearing(None, ""), 0);
    assert_eq!(font.visible_text_height_ex(None, ""), (0, 0));
}

#[test]
fn visible_text_width_strips_bearings() {
    let font = test_font();
    // "Ay": width 8 + 6; first bearing 1; last right-side bearing 6 - 5 - 0.
    assert_eq!(font.text_width(None, "Ay"), 14);
    assert_eq!(font.visible_text_width(None, "Ay"), 14 - 1 - 1);
    assert_eq!(font.start_x_bearing(None, "Ay"), 1);
}

#[test]
fn visible_text_height_takes_ascent_and_descent() {
    let font = test_font();
    // 'A': ascent 10, descent 0; 'y': ascent 6, descent 3.
    assert_eq!(font.visible_text_height_ex(None, "Ay"), (10, 3));
    assert_eq!(font.visible_text_height(None, "Ay"), 13);
    assert_eq!(font.allcase_text_height(None), 13);
}

#[test]
fn vertical_metrics_and_line_height() {
    let font = test_font();
    assert_eq!(font.text_height(), 12);
    assert_eq!(font.text_max_height(), 14);
    assert_eq!(font.text_baseline(), 3);
    assert_eq!(font.line_height(), 16);
}

#[test]
fn centering() {
    let font = test_font();
    // visible width of "Ay" is 12, its left bearing 1.
    assert_eq!(font.horz_center(None, 0, 100, "Ay"), (100 - 12) / 2 - 1);
    // (start + end - width) is odd and negative: rounds toward zero.
    assert_eq!(font.horz_center(None, -20, 5, "Ay"), -13 - 1);
    assert_eq!(font.vert_center(None, 0, 40, "Ay"), (40 + 13) / 2);
    assert_eq!(font.vert_center(None, -40, 0, "Ay"), -13);
}

#[test]
fn longest_prefix_breaks_at_last_space() {
    let font = test_font();
    // '!' advances 2, space 3: "!! !! !!" is 2+2+3+2+2+3+2+2 = 18 wide.
    let text = "!! !! !!";
    assert_eq!(font.text_width(None, text), 18);
    assert_eq!(font.longest_prefix(None, 18, text), text);
    // 14 fits "!! !! ": the next '!' does not, so it breaks at the second space.
    assert_eq!(font.longest_prefix(None, 14, text), "!! !!");
    // 13 does not fit the second space itself: it breaks at the first.
    assert_eq!(font.longest_prefix(None, 13, text), "!!");
    assert_eq!(font.longest_prefix(None, 9, text), "!!");
    // No space before the first character that does not fit.
    assert_eq!(font.longest_prefix(None, 3, text), "");
}

#[test]
fn longest_prefix_of_fitting_text_is_the_text() {
    let font = test_font();
    for (w, text) in [(100, "ab cd"), (0, ""), (5, "!!")] {
        let p = font.longest_prefix(None, w, text);
        assert!(text.starts_with(p));
        if p == text {
            assert!(font.text_width(None, text) <= w);
        }
    }
    assert_eq!(font.longest_prefix(None, -1, "!"), "");
}

#[test]
fn longest_suffix_counts_characters() {
    let font = test_font();
    let text = "!! !! !!";
    assert_eq!(font.longest_suffix(None, 100, text), 8);
    assert_eq!(font.longest_suffix(None, 4, text), 2);
    assert_eq!(font.longest_suffix(None, 7, text), 3);
    assert_eq!(font.longest_suffix(None, 1, text), 0);
    // Characters, not bytes: 'é' is not ASCII and takes the nonprintable glyph (9).
    assert_eq!(font.longest_suffix(None, 100, "éé"), 2);
    assert_eq!(font.longest_suffix(None, 9, "éé"), 1);
}

#[test]
fn longest_suffix_grows_with_width() {
    let font = test_font();
    let text = "ab !! cd e";
    let mut last = 0;
    for w in -5..400 {
        let n = font.longest_suffix(None, w, text);
        assert!(n >= last);
        last = n;
    }
    assert_eq!(last, 10);
}

#[test]
fn glyph_load_at_exact_shorter_and_longer_size() {
    // 4 bpp, 3 x 2: two bytes per row.
    let exact = vec![3u8, 2, 4, 0, 2, 0x12, 0x30, 0x45, 0x60];
    assert_eq!(calculate_glyph_size(&exact), 9);
    let g = Glyph::load(&exact).unwrap();
    assert_eq!((g.width, g.height, g.adv, g.bearing_x, g.bearing_y), (3, 2, 4, 0, 2));
    assert_eq!(g.data, &exact[5..]);
    assert!(matches!(Glyph::load(&exact[..8]), Err(GlyphError::InvalidDataSize)));
    let mut longer = exact.clone();
    longer.push(0);
    assert!(Glyph::load(&longer).is_ok());
    longer.push(7);
    assert!(Glyph::load(&longer).is_ok());
    assert!(matches!(Glyph::load(&[1u8, 1, 1]), Err(GlyphError::InvalidDataSize)));
}

#[test]
fn bitmap_size_at_one_bit_per_pixel() {
    assert_eq!(bitmap_size(1, 8, 1), 1);
    assert_eq!(bitmap_size(1, 9, 1), 2);
    assert_eq!(bitmap_size(2, 5, 1), 2);
    assert_eq!(bitmap_size(8, 3, 2), 6);
    assert_eq!(bitmap_size(8, 255, 255), 65025);
}

#[test]
fn bitmap_size_at_four_bits_per_pixel() {
    assert_eq!(bitmap_size(4, 3, 2), 4);
    assert_eq!(bitmap_size(4, 4, 2), 4);
    assert_eq!(bitmap_size(4, 0, 9), 0);
}

#[test]
fn right_side_bearing_example() {
    let rec = vec![6u8, 0, 10, 1, 0];
    let g = Glyph::load(&rec).unwrap();
    assert_eq!(g.right_side_bearing(), 3);
}

#[test]
fn unpacking_pixels() {
    let rec = vec![4u8, 1, 4, 0, 1, 0b1010_0101, 0x7F];
    let g = Glyph::load(&rec).unwrap();
    assert_eq!(g.unpack_bpp1(0), 15);
    assert_eq!(g.unpack_bpp1(1), 0);
    assert_eq!(g.unpack_bpp1(7), 15);
    assert_eq!(g.unpack_bpp2(0), 10);
    assert_eq!(g.unpack_bpp2(3), 5);
    assert_eq!(g.unpack_bpp4(0), 0xA);
    assert_eq!(g.unpack_bpp4(1), 0x5);
    assert_eq!(g.unpack_bpp4(2), 0x7);
    assert_eq!(g.unpack_bpp8(0), 0xA);
    assert_eq!(g.unpack_bpp8(1), 0x7);
    let bitmap = g.bitmap();
    assert_eq!((bitmap.width, bitmap.height), (4, 1));
    assert_eq!(bitmap.data, &rec[5..]);
}

fn translations() -> Translations {
    let glyphs = vec![
        TranslationGlyph { codepoint: 0xE9, font_idx: 2, data: record(4, 6, 21, 0, 6) },
        TranslationGlyph { codepoint: 0xE9, font_idx: 2, data: record(4, 6, 99, 0, 6) },
        TranslationGlyph { codepoint: 0x1, font_idx: 2, data: record(4, 6, 33, 0, 6) },
        TranslationGlyph { codepoint: 0xA0, font_idx: 2, data: record(4, 6, 44, 0, 6) },
        TranslationGlyph { codepoint: 0x10D, font_idx: 5, data: record(4, 6, 55, 0, 6) },
    ];
    Translations::new(glyphs).ok().unwrap()
}

#[test]
fn non_breaking_space_resolves_as_space() {
    let font = test_font();
    let tr = translations();
    for blob in [None, Some(&tr)] {
        let data = GlyphData::new(font, blob);
        assert_eq!(data.get_glyph_data('\u{a0}'), data.get_glyph_data(' '));
        assert_eq!(font.char_width(blob, '\u{a0}'), 3);
    }
}

#[test]
fn control_codes_resolve_to_nonprintable() {
    let font = test_font();
    let tr = translations();
    for blob in [None, Some(&tr)] {
        let data = GlyphData::new(font, blob);
        assert_eq!(data.get_glyph_data('\u{1}'), font.glyph_nonprintable);
        assert_eq!(data.get_glyph_data('\u{1f}'), font.glyph_nonprintable);
        assert_eq!(data.get_glyph('\u{1}').adv, 9);
    }
}

#[test]
fn characters_beyond_ascii_come_from_the_blob() {
    let font = test_font();
    let tr = translations();
    // The first entry for the font wins.
    assert_eq!(font.char_width(Some(&tr), '\u{e9}'), 21);
    // Another font's glyph is not used.
    assert_eq!(font.char_width(Some(&tr), '\u{10d}'), 9);
    // DEL is not in the ASCII table.
    assert_eq!(font.char_width(Some(&tr), '\u{7f}'), 9);
    assert_eq!(font.char_width(None, '\u{e9}'), 9);
    assert_eq!(font.text_width(Some(&tr), "a\u{e9}"), 66 + 21);
    assert_eq!(tr.get_utf8_glyph(0x10D, 5).map(|d| d[2]), Some(55));
    assert_eq!(tr.get_utf8_glyph(0x10D, 2), None);
}

#[test]
fn translations_refuse_short_glyphs() {
    let bad = vec![TranslationGlyph { codepoint: 0xE9, font_idx: 2, data: vec![4, 6, 21, 0, 6, 0] }];
    assert!(matches!(Translations::new(bad), Err(GlyphError::InvalidDataSize)));
}

#[test]
fn glyph_metrics_through_the_session() {
    let font = test_font();
    let tr = translations();
    let data = font.glyphs(Some(&tr));
    assert_eq!(GlyphMetrics::char_width(&data, '\u{e9}'), 21);
    assert_eq!(GlyphMetrics::text_width(&data, "ab"), 66 + 67);
    assert_eq!(GlyphMetrics::line_height(&data), 16);
}

#[test]
fn locked_session_sees_the_blob_until_replaced() {
    let font = test_font();
    let lock = TranslationsLock::new(Some(translations()));
    {
        let session = GlyphSession::open(font, &lock);
        assert_eq!(font.char_width(session.translations(), '\u{e9}'), 21);
        // A reader holds the lock: the blob cannot be swapped meanwhile.
        assert!(!lock.try_replace(None));
        assert_eq!(session.glyph_data().get_glyph('\u{e9}').adv, 21);
    }
    assert!(lock.try_replace(None));
    let session = GlyphSession::open(font, &lock);
    assert!(session.translations().is_none());
    assert_eq!(session.glyph_data().get_glyph('\u{e9}').adv, 9);
}
