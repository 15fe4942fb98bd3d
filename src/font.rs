//! Font tables, glyph resolution and text metrics.
use vstd::prelude::*;
use vstd::std_specs::iter::IteratorSpec;
use vstd::string::StringSliceAdditionalSpecFns;
use crate::glyph::{
    calculate_glyph_size, is_valid_record, record_advance, record_bearing_x, record_bearing_y,
    record_height, record_width, Glyph, GlyphError, GLYPH_HEADER_LEN,
};

verus! {

broadcast use vstd::string::group_string_axioms;

/// Number of glyphs in a font's ASCII table: one per codepoint of
/// `0x20..0x7F`.
pub const ASCII_GLYPH_COUNT: usize = 95;

/// Vertical space added between two lines of text.
pub const LINE_SPACE: i16 = 4;

/// One glyph of a loaded translation blob.
pub struct TranslationGlyph {
    pub codepoint: u32,
    /// Which font the glyph belongs to (a font's `translation_blob_idx`).
    pub font_idx: u16,
    /// The glyph record.
    pub data: Vec<u8>,
}

/// The glyphs of the active language's translation blob, for characters
/// outside ASCII. Every glyph it holds decodes.
pub struct Translations {
    glyphs: Vec<TranslationGlyph>,
}

/// The record of the first entry of `entries` for `codepoint` in font
/// `font_idx`, if there is one.
pub open spec fn lookup_glyph(entries: Seq<TranslationGlyph>, codepoint: u32, font_idx: u16) -> Option<Seq<u8>>
    decreases entries.len(),
{
    if entries.len() == 0 {
        None
    } else if entries[0].codepoint == codepoint && entries[0].font_idx == font_idx {
        Some(entries[0].data@)
    } else {
        lookup_glyph(entries.drop_first(), codepoint, font_idx)
    }
}

/// Every glyph among `entries` decodes.
pub open spec fn entries_valid(entries: Seq<TranslationGlyph>) -> bool {
    forall|i: int| 0 <= i < entries.len() ==> is_valid_record(#[trigger] entries[i].data@)
}

impl Translations {
    #[verifier::type_invariant]
    spec fn glyphs_decode(&self) -> bool {
        entries_valid(self.glyphs@)
    }

    /// The glyphs of the blob, in order.
    pub closed spec fn entries(&self) -> Seq<TranslationGlyph> {
        self.glyphs@
    }

    pub open spec fn lookup(&self, codepoint: u32, font_idx: u16) -> Option<Seq<u8>> {
        lookup_glyph(self.entries(), codepoint, font_idx)
    }

    /// A blob of `glyphs`; refused when one of them does not decode.
    pub fn new(glyphs: Vec<TranslationGlyph>) -> (r: Result<Translations, GlyphError>)
        ensures
            r is Ok <==> entries_valid(glyphs@),
            r matches Ok(t) ==> t.entries() == glyphs@,
            r matches Err(e) ==> e == GlyphError::InvalidDataSize,
    {
        let mut i: usize = 0;
        while i < glyphs.len()
            invariant
                i <= glyphs@.len(),
                forall|j: int| 0 <= j < i ==> is_valid_record(#[trigger] glyphs@[j].data@),
            decreases glyphs@.len() - i,
        {
            if !record_is_valid(glyphs[i].data.as_slice()) {
                return Err(GlyphError::InvalidDataSize);
            }
            i += 1;
        }
        Ok(Translations { glyphs })
    }

    /// The glyph record for `codepoint` in font `font_idx`.
    pub fn get_utf8_glyph(&self, codepoint: u32, font_idx: u16) -> (r: Option<&[u8]>)
        ensures
            match r {
                Some(d) => self.lookup(codepoint, font_idx) == Some(d@),
                None => self.lookup(codepoint, font_idx) is None,
            },
    {
        let mut i: usize = 0;
        assert(self.glyphs@.subrange(0, self.glyphs@.len() as int) =~= self.glyphs@);
        while i < self.glyphs.len()
            invariant
                i <= self.glyphs@.len(),
                lookup_glyph(self.glyphs@, codepoint, font_idx) == lookup_glyph(
                    self.glyphs@.subrange(i as int, self.glyphs@.len() as int),
                    codepoint,
                    font_idx,
                ),
            decreases self.glyphs@.len() - i,
        {
            let g = &self.glyphs[i];
            proof {
                let rest = self.glyphs@.subrange(i as int, self.glyphs@.len() as int);
                assert(rest.drop_first() =~= self.glyphs@.subrange(i + 1, self.glyphs@.len() as int));
            }
            if g.codepoint == codepoint && g.font_idx == font_idx {
                return Some(g.data.as_slice());
            }
            i += 1;
        }
        None
    }
}

/// Whether `rec` is a glyph record that decodes.
pub fn record_is_valid(rec: &[u8]) -> (r: bool)
    ensures
        r == is_valid_record(rec@),
{
    rec.len() >= GLYPH_HEADER_LEN && rec.len() >= calculate_glyph_size(rec)
}

/// A compiled font: its vertical metrics and its glyph records.
pub struct FontInfo {
    /// Index of this font's glyphs in a translation blob.
    pub translation_blob_idx: u16,
    pub height: i16,
    pub max_height: i16,
    pub baseline: i16,
    /// Records of the printable ASCII characters, indexed by `codepoint - 0x20`.
    pub glyph_data: &'static [&'static [u8]],
    /// Record used for every character that resolves to nothing else.
    pub glyph_nonprintable: &'static [u8],
}

/// The codepoint a character is looked up by: a non-breaking space is
/// drawn as an ordinary space.
pub open spec fn lookup_codepoint(c: char) -> u32 {
    if c == '\u{a0}' {
        0x20
    } else {
        c as u32
    }
}

impl FontInfo {
    /// The ASCII table covers the printable range and every record decodes.
    pub open spec fn wf(&self) -> bool {
        &&& self.glyph_data@.len() == ASCII_GLYPH_COUNT
        &&& forall|i: int| 0 <= i < ASCII_GLYPH_COUNT ==> is_valid_record(#[trigger] self.glyph_data@[i]@)
        &&& is_valid_record(self.glyph_nonprintable@)
    }

    /// The record character `c` is drawn with: printable ASCII from the
    /// font's table, anything from `0x7F` on from the translation blob when
    /// it holds a glyph for it in this font, and the nonprintable glyph
    /// otherwise.
    pub open spec fn glyph_record(&self, tr: Option<&Translations>, c: char) -> Seq<u8> {
        let cp = lookup_codepoint(c);
        if 0x20 <= cp < 0x7f {
            self.glyph_data@[cp - 0x20]@
        } else if cp >= 0x7f && tr is Some && tr->0.lookup(cp, self.translation_blob_idx) is Some {
            tr->0.lookup(cp, self.translation_blob_idx)->0
        } else {
            self.glyph_nonprintable@
        }
    }

    /// Advance of character `c`.
    pub open spec fn char_adv(&self, tr: Option<&Translations>, c: char) -> int {
        record_advance(self.glyph_record(tr, c)) as int
    }

    /// Sum of the advances of the characters of `s`.
    pub open spec fn text_width_spec(&self, tr: Option<&Translations>, s: Seq<char>) -> int
        decreases s.len(),
    {
        if s.len() == 0 {
            0
        } else {
            self.text_width_spec(tr, s.drop_last()) + self.char_adv(tr, s.last())
        }
    }

    /// Whether the table covers the printable range and every record decodes.
    pub fn is_valid(&self) -> (r: bool)
        ensures
            r == self.wf(),
    {
        if self.glyph_data.len() != ASCII_GLYPH_COUNT {
            return false;
        }
        let mut i: usize = 0;
        while i < ASCII_GLYPH_COUNT
            invariant
                i <= ASCII_GLYPH_COUNT,
                self.glyph_data@.len() == ASCII_GLYPH_COUNT,
                forall|j: int| 0 <= j < i ==> is_valid_record(#[trigger] self.glyph_data@[j]@),
            decreases ASCII_GLYPH_COUNT - i,
        {
            if !record_is_valid(self.glyph_data[i]) {
                return false;
            }
            i += 1;
        }
        record_is_valid(self.glyph_nonprintable)
    }
}

/// Access to the glyphs of one font for the span of one measurement: the
/// font's own table and, when one was available, a snapshot of the
/// translation blob.
pub struct GlyphData<'a> {
    pub font: &'a FontInfo,
    pub translations: Option<&'a Translations>,
}

impl<'a> GlyphData<'a> {
    pub open spec fn wf(&self) -> bool {
        self.font.wf()
    }

    pub fn new(font: &'a FontInfo, translations: Option<&'a Translations>) -> (r: GlyphData<'a>)
        ensures
            r.font == font,
            r.translations == translations,
    {
        GlyphData { font, translations }
    }

    /// The record character `c` resolves to.
    pub fn get_glyph_data(&self, c: char) -> (r: &'a [u8])
        requires
            self.wf(),
        ensures
            r@ == self.font.glyph_record(self.translations, c),
            is_valid_record(r@),
    {
        let cp: u32 = if c == '\u{a0}' {
            0x20
        } else {
            c as u32
        };
        if 0x20 <= cp && cp < 0x7f {
            let rec = self.font.glyph_data[(cp - 0x20) as usize];
            assert(is_valid_record(self.font.glyph_data@[cp - 0x20]@));
            return rec;
        }
        if cp >= 0x7f {
            if let Some(tr) = self.translations {
                if let Some(rec) = tr.get_utf8_glyph(cp, self.font.translation_blob_idx) {
                    proof {
                        use_type_invariant(tr);
                        lemma_lookup_in_entries(tr.glyphs@, cp, self.font.translation_blob_idx);
                    }
                    return rec;
                }
            }
        }
        self.font.glyph_nonprintable
    }

    /// The decoded glyph character `c` is drawn with.
    pub fn get_glyph(&self, c: char) -> (r: Glyph<'a>)
        requires
            self.wf(),
        ensures
            r.decodes(self.font.glyph_record(self.translations, c)),
    {
        let rec = self.get_glyph_data(c);
        match Glyph::load(rec) {
            Ok(g) => g,
            Err(_) => {
                proof {
                    assert(false);
                }
                Glyph { width: 0, height: 0, adv: 0, bearing_x: 0, bearing_y: 0, data: rec }
            }
        }
    }
}

proof fn lemma_lookup_in_entries(entries: Seq<TranslationGlyph>, codepoint: u32, font_idx: u16)
    requires
        lookup_glyph(entries, codepoint, font_idx) is Some,
    ensures
        exists|i: int|
            0 <= i < entries.len() && #[trigger] entries[i].data@ == lookup_glyph(
                entries,
                codepoint,
                font_idx,
            )->0,
    decreases entries.len(),
{
    if entries[0].codepoint == codepoint && entries[0].font_idx == font_idx {
        assert(entries[0].data@ == lookup_glyph(entries, codepoint, font_idx)->0);
    } else {
        lemma_lookup_in_entries(entries.drop_first(), codepoint, font_idx);
        let i = choose|i: int|
            0 <= i < entries.drop_first().len() && #[trigger] entries.drop_first()[i].data@
                == lookup_glyph(entries.drop_first(), codepoint, font_idx)->0;
        assert(entries[i + 1].data@ == lookup_glyph(entries, codepoint, font_idx)->0);
    }
}

/// The characters of `text`, in order.
pub fn text_chars(text: &str) -> (r: Vec<char>)
    ensures
        r@ == text@,
{
    let mut it = text.chars();
    let mut out: Vec<char> = Vec::new();
    loop
        invariant
            out@.len() <= text@.len(),
            it.remaining() == text@.subrange(out@.len() as int, text@.len() as int),
            out@ == text@.subrange(0, out@.len() as int),
        decreases text@.len() - out@.len(),
    {
        match it.next() {
            Some(c) => {
                out.push(c);
                assert(out@ =~= text@.subrange(0, out@.len() as int));
            }
            None => {
                assert(out@ =~= text@);
                return out;
            }
        }
    }
}


/// Highest ascent (bearing_y) among the glyphs of `s`, and at least 0.
pub open spec fn max_ascent(font: &FontInfo, tr: Option<&Translations>, s: Seq<char>) -> int
    decreases s.len(),
{
    if s.len() == 0 {
        0
    } else {
        let a = record_bearing_y(font.glyph_record(tr, s.last())) as int;
        let rest = max_ascent(font, tr, s.drop_last());
        if a > rest {
            a
        } else {
            rest
        }
    }
}

/// Deepest descent (height - bearing_y) among the glyphs of `s`, and at
/// least 0.
pub open spec fn max_descent(font: &FontInfo, tr: Option<&Translations>, s: Seq<char>) -> int
    decreases s.len(),
{
    if s.len() == 0 {
        0
    } else {
        let rec = font.glyph_record(tr, s.last());
        let d = record_height(rec) as int - record_bearing_y(rec) as int;
        let rest = max_descent(font, tr, s.drop_last());
        if d > rest {
            d
        } else {
            rest
        }
    }
}

/// Division by two that rounds toward zero, as integer division does.
pub open spec fn half_toward_zero(x: int) -> int {
    if x >= 0 {
        x / 2
    } else {
        -((-x) / 2)
    }
}

/// Index of the last space among the first `n` characters of `s`, or 0
/// when there is none.
pub open spec fn last_space_before(s: Seq<char>, n: int) -> int
    decreases n,
{
    if n <= 0 {
        0
    } else if s[n - 1] == ' ' {
        n - 1
    } else {
        last_space_before(s, n - 1)
    }
}

impl FontInfo {
    /// Width of `s` without the left bearing of its first glyph and the
    /// right-side bearing of its last one.
    pub open spec fn visible_text_width_spec(&self, tr: Option<&Translations>, s: Seq<char>) -> int {
        if s.len() == 0 {
            0
        } else {
            let first = self.glyph_record(tr, s[0]);
            let last = self.glyph_record(tr, s.last());
            self.text_width_spec(tr, s) - record_bearing_x(first) - (record_advance(last)
                - record_width(last) - record_bearing_x(last))
        }
    }

    /// Left bearing of the first glyph of `s`, 0 for no text.
    pub open spec fn start_x_bearing_spec(&self, tr: Option<&Translations>, s: Seq<char>) -> int {
        if s.len() == 0 {
            0
        } else {
            record_bearing_x(self.glyph_record(tr, s[0])) as int
        }
    }

    pub open spec fn visible_text_height_spec(&self, tr: Option<&Translations>, s: Seq<char>) -> int {
        max_ascent(self, tr, s) + max_descent(self, tr, s)
    }

    /// The number of characters the greedy scan from index `i` on accepts:
    /// the first index whose character would take the running width of
    /// `s` past `width`, or the whole length.
    pub open spec fn fit_len_from(&self, tr: Option<&Translations>, width: int, s: Seq<char>, i: int) -> int
        decreases s.len() - i,
    {
        if i >= s.len() {
            s.len() as int
        } else if self.text_width_spec(tr, s.take(i + 1)) > width {
            i
        } else {
            self.fit_len_from(tr, width, s, i + 1)
        }
    }

    /// How many leading characters of `s` fit in `width` one after another.
    pub open spec fn prefix_fit_len(&self, tr: Option<&Translations>, width: int, s: Seq<char>) -> int {
        self.fit_len_from(tr, width, s, 0)
    }

    /// `s` itself when all of it fits in `width`, otherwise `s` cut before
    /// the last space that precedes the first character that does not fit
    /// (empty when there is no such space).
    pub open spec fn longest_prefix_spec(&self, tr: Option<&Translations>, width: int, s: Seq<char>) -> Seq<char> {
        let n = self.prefix_fit_len(tr, width, s);
        if n >= s.len() {
            s
        } else {
            s.take(last_space_before(s, n))
        }
    }

    /// The number of trailing characters that the scan from the end,
    /// having accepted `k`, accepts in all.
    pub open spec fn suffix_len_from(&self, tr: Option<&Translations>, width: int, s: Seq<char>, k: int) -> int
        decreases s.len() - k,
    {
        if k >= s.len() {
            s.len() as int
        } else if self.text_width_spec(tr, s.skip(s.len() - (k + 1))) > width {
            k
        } else {
            self.suffix_len_from(tr, width, s, k + 1)
        }
    }

    /// How many trailing characters of `s` fit in `width`.
    pub open spec fn suffix_fit_len(&self, tr: Option<&Translations>, width: int, s: Seq<char>) -> int {
        self.suffix_len_from(tr, width, s, 0)
    }
}

/// The width of a text is the sum of the widths of its parts.
pub proof fn lemma_text_width_concat(font: &FontInfo, tr: Option<&Translations>, a: Seq<char>, b: Seq<char>)
    ensures
        font.text_width_spec(tr, a + b) == font.text_width_spec(tr, a) + font.text_width_spec(tr, b),
    decreases b.len(),
{
    if b.len() == 0 {
        assert(a + b =~= a);
    } else {
        assert((a + b).drop_last() =~= a + b.drop_last());
        lemma_text_width_concat(font, tr, a, b.drop_last());
    }
}

/// Widths are never negative.
pub proof fn lemma_text_width_nonneg(font: &FontInfo, tr: Option<&Translations>, s: Seq<char>)
    ensures
        font.text_width_spec(tr, s) >= 0,
    decreases s.len(),
{
    if s.len() > 0 {
        lemma_text_width_nonneg(font, tr, s.drop_last());
    }
}

/// A longer prefix is at least as wide.
pub proof fn lemma_text_width_prefix_mono(font: &FontInfo, tr: Option<&Translations>, s: Seq<char>, i: int, j: int)
    requires
        0 <= i <= j <= s.len(),
    ensures
        font.text_width_spec(tr, s.take(i)) <= font.text_width_spec(tr, s.take(j)),
{
    assert(s.take(j) =~= s.take(i) + s.take(j).skip(i));
    lemma_text_width_concat(font, tr, s.take(i), s.take(j).skip(i));
    lemma_text_width_nonneg(font, tr, s.take(j).skip(i));
}

proof fn lemma_take_step(s: Seq<char>, i: int)
    requires
        0 <= i < s.len(),
    ensures
        s.take(i + 1).drop_last() == s.take(i),
        s.take(i + 1).last() == s[i],
{
    assert(s.take(i + 1).drop_last() =~= s.take(i));
}

fn half(x: i32) -> (r: i32)
    requires
        -1_000_000 <= x <= 1_000_000,
    ensures
        r == half_toward_zero(x as int),
{
    if x >= 0 {
        x / 2
    } else {
        -((-x) / 2)
    }
}

impl FontInfo {
    /// The session through which this font's glyphs are read, with the
    /// translation blob snapshot `translations`.
    pub fn glyphs<'a>(&'a self, translations: Option<&'a Translations>) -> (r: GlyphData<'a>)
        ensures
            r.font == self,
            r.translations == translations,
    {
        GlyphData::new(self, translations)
    }

    /// Advance of character `ch`.
    pub fn char_width(&self, translations: Option<&Translations>, ch: char) -> (r: i16)
        requires
            self.wf(),
        ensures
            r as int == self.char_adv(translations, ch),
            0 <= r <= 255,
    {
        self.glyphs(translations).get_glyph(ch).adv
    }

    /// Sum of the advances of the characters of `text`.
    pub fn text_width(&self, translations: Option<&Translations>, text: &str) -> (r: i16)
        requires
            self.wf(),
            self.text_width_spec(translations, text@) <= i16::MAX,
        ensures
            r as int == self.text_width_spec(translations, text@),
    {
        let data = self.glyphs(translations);
        let n = text.unicode_len();
        let mut it = text.chars();
        let mut acc: i16 = 0;
        let mut i: usize = 0;
        loop
            invariant
                data.wf(),
                data.font == self,
                data.translations == translations,
                i <= text@.len(),
                n == text@.len(),
                it.remaining() == text@.subrange(i as int, text@.len() as int),
                acc as int == self.text_width_spec(translations, text@.take(i as int)),
                self.text_width_spec(translations, text@) <= i16::MAX,
            decreases text@.len() - i,
        {
            match it.next() {
                Some(c) => {
                    let c_width = data.get_glyph(c).adv;
                    proof {
                        lemma_take_step(text@, i as int);
                        lemma_text_width_prefix_mono(self, translations, text@, i + 1, text@.len() as int);
                        assert(text@.take(text@.len() as int) =~= text@);
                    }
                    acc = acc + c_width;
                    i += 1;
                },
                None => {
                    assert(text@.take(i as int) =~= text@);
                    return acc;
                },
            }
        }
    }

    /// Left bearing of the first character of `text`, 0 for no text.
    pub fn start_x_bearing(&self, translations: Option<&Translations>, text: &str) -> (r: i16)
        requires
            self.wf(),
        ensures
            r as int == self.start_x_bearing_spec(translations, text@),
            0 <= r <= 255,
    {
        let mut it = text.chars();
        match it.next() {
            Some(c) => self.glyphs(translations).get_glyph(c).bearing_x,
            None => 0,
        }
    }

    /// Width of the visible part of `text`: its width without the left
    /// bearing of the first glyph and the right-side bearing of the last.
    pub fn visible_text_width(&self, translations: Option<&Translations>, text: &str) -> (r: i16)
        requires
            self.wf(),
            self.text_width_spec(translations, text@) <= i16::MAX,
            i16::MIN <= self.visible_text_width_spec(translations, text@) <= i16::MAX,
        ensures
            r as int == self.visible_text_width_spec(translations, text@),
    {
        let n = text.unicode_len();
        if n == 0 {
            return 0;
        }
        let data = self.glyphs(translations);
        let first = data.get_glyph(text.get_char(0)).bearing_x;
        let last = data.get_glyph(text.get_char(n - 1)).right_side_bearing();
        let width = self.text_width(translations, text);
        (width as i32 - first as i32 - last as i32) as i16
    }

    /// Highest ascent and deepest descent among the glyphs of `text`.
    pub fn visible_text_height_ex(&self, translations: Option<&Translations>, text: &str) -> (r: (i16, i16))
        requires
            self.wf(),
        ensures
            r.0 as int == max_ascent(self, translations, text@),
            r.1 as int == max_descent(self, translations, text@),
            0 <= r.0 <= 255,
            0 <= r.1 <= 255,
    {
        let data = self.glyphs(translations);
        let n = text.unicode_len();
        let mut it = text.chars();
        let mut ascent: i16 = 0;
        let mut descent: i16 = 0;
        let mut i: usize = 0;
        loop
            invariant
                data.wf(),
                data.font == self,
                data.translations == translations,
                i <= text@.len(),
                n == text@.len(),
                it.remaining() == text@.subrange(i as int, text@.len() as int),
                ascent as int == max_ascent(self, translations, text@.take(i as int)),
                descent as int == max_descent(self, translations, text@.take(i as int)),
                0 <= ascent <= 255,
                0 <= descent <= 255,
            decreases text@.len() - i,
        {
            match it.next() {
                Some(c) => {
                    let glyph = data.get_glyph(c);
                    proof {
                        lemma_take_step(text@, i as int);
                    }
                    if glyph.bearing_y > ascent {
                        ascent = glyph.bearing_y;
                    }
                    if glyph.height - glyph.bearing_y > descent {
                        descent = glyph.height - glyph.bearing_y;
                    }
                    i += 1;
                },
                None => {
                    assert(text@.take(i as int) =~= text@);
                    return (ascent, descent);
                },
            }
        }
    }

    /// Height of the visible part of `text`: highest ascent plus deepest
    /// descent among its glyphs.
    pub fn visible_text_height(&self, translations: Option<&Translations>, text: &str) -> (r: i16)
        requires
            self.wf(),
        ensures
            r as int == self.visible_text_height_spec(translations, text@),
            0 <= r <= 510,
    {
        let (ascent, descent) = self.visible_text_height_ex(translations, text);
        ascent + descent
    }

    /// Visible height of a text with both an ascender and a descender.
    pub fn allcase_text_height(&self, translations: Option<&Translations>) -> (r: i16)
        requires
            self.wf(),
        ensures
            r as int == self.visible_text_height_spec(translations, seq!['A', 'y']),
    {
        proof {
            reveal_strlit("Ay");
        }
        let r = self.visible_text_height(translations, "Ay");
        assert("Ay"@ =~= seq!['A', 'y']);
        r
    }

    pub fn text_height(&self) -> (r: i16)
        ensures
            r == self.height,
    {
        self.height
    }

    pub fn text_max_height(&self) -> (r: i16)
        ensures
            r == self.max_height,
    {
        self.max_height
    }

    pub fn text_baseline(&self) -> (r: i16)
        ensures
            r == self.baseline,
    {
        self.baseline
    }

    /// Height of a line of this font, spacing included.
    pub fn line_height(&self) -> (r: i16)
        requires
            self.height + LINE_SPACE <= i16::MAX,
        ensures
            r == LINE_SPACE + self.height,
    {
        LINE_SPACE + self.text_height()
    }

    /// Where `text` starts (left bearing included) so that its visible part
    /// is centered between `start` and `end`.
    pub fn horz_center(&self, translations: Option<&Translations>, start: i16, end: i16, text: &str) -> (r: i16)
        requires
            self.wf(),
            self.text_width_spec(translations, text@) <= i16::MAX,
            i16::MIN <= self.visible_text_width_spec(translations, text@) <= i16::MAX,
            i16::MIN <= half_toward_zero(start + end - self.visible_text_width_spec(translations, text@))
                - self.start_x_bearing_spec(translations, text@) <= i16::MAX,
        ensures
            r as int == half_toward_zero(start + end - self.visible_text_width_spec(translations, text@))
                - self.start_x_bearing_spec(translations, text@),
    {
        let visible = self.visible_text_width(translations, text) as i32;
        let bearing = self.start_x_bearing(translations, text) as i32;
        (half(start as i32 + end as i32 - visible) - bearing) as i16
    }

    /// The baseline that centers the visible height of `text` between
    /// `start` and `end`.
    pub fn vert_center(&self, translations: Option<&Translations>, start: i16, end: i16, text: &str) -> (r: i16)
        requires
            self.wf(),
            i16::MIN <= half_toward_zero(start + end + self.visible_text_height_spec(translations, text@))
                <= i16::MAX,
        ensures
            r as int == half_toward_zero(start + end + self.visible_text_height_spec(translations, text@)),
    {
        let height = self.visible_text_height(translations, text) as i32;
        half(start as i32 + end as i32 + height) as i16
    }
}


impl FontInfo {
    /// The longest prefix of `text` that fits in `width` pixels, broken at a
    /// word boundary: all of `text` when it fits, otherwise the text before
    /// the last space that precedes the first character that does not fit.
    pub fn longest_prefix<'t>(&self, translations: Option<&Translations>, width: i16, text: &'t str) -> (r: &'t str)
        requires
            self.wf(),
        ensures
            r@ == self.longest_prefix_spec(translations, width as int, text@),
    {
        let data = self.glyphs(translations);
        let n = text.unicode_len();
        let mut it = text.chars();
        let mut prev_word_boundary: usize = 0;
        let mut text_width: i32 = 0;
        let mut i: usize = 0;
        loop
            invariant
                data.wf(),
                data.font == self,
                data.translations == translations,
                i <= text@.len(),
                n == text@.len(),
                it.remaining() == text@.subrange(i as int, text@.len() as int),
                text_width as int == self.text_width_spec(translations, text@.take(i as int)),
                text_width <= i16::MAX,
                prev_word_boundary as int == last_space_before(text@, i as int),
                self.prefix_fit_len(translations, width as int, text@) == self.fit_len_from(
                    translations,
                    width as int,
                    text@,
                    i as int,
                ),
            decreases text@.len() - i,
        {
            match it.next() {
                Some(c) => {
                    let c_width = data.get_glyph(c).adv as i32;
                    proof {
                        lemma_take_step(text@, i as int);
                    }
                    if text_width + c_width > width as i32 {
                        proof {
                            lemma_last_space_bound(text@, i as int);
                        }
                        return text.substring_char(0, prev_word_boundary);
                    }
                    if c == ' ' {
                        prev_word_boundary = i;
                    }
                    text_width += c_width;
                    i += 1;
                },
                None => {
                    return text;
                },
            }
        }
    }

    /// The number of characters at the end of `text` that fit in `width`
    /// pixels.
    pub fn longest_suffix(&self, translations: Option<&Translations>, width: i16, text: &str) -> (r: usize)
        requires
            self.wf(),
        ensures
            r as int == self.suffix_fit_len(translations, width as int, text@),
            r <= text@.len(),
    {
        let data = self.glyphs(translations);
        let chars = text_chars(text);
        let n = chars.len();
        let mut text_width: i32 = 0;
        let mut k: usize = 0;
        while k < n
            invariant
                data.wf(),
                data.font == self,
                data.translations == translations,
                chars@ == text@,
                n == chars@.len(),
                k <= n,
                text_width as int == self.text_width_spec(translations, text@.skip(n - k)),
                text_width <= i16::MAX,
                self.suffix_fit_len(translations, width as int, text@) == self.suffix_len_from(
                    translations,
                    width as int,
                    text@,
                    k as int,
                ),
            decreases n - k,
        {
            let c = chars[n - 1 - k];
            let char_width = data.get_glyph(c).adv as i32;
            proof {
                let s = text@;
                let j = n - 1 - k;
                let one = seq![c];
                assert(s.skip(j) =~= one + s.skip(j + 1));
                lemma_text_width_concat(self, translations, one, s.skip(j + 1));
                assert(one.drop_last() =~= Seq::<char>::empty());
                assert(self.text_width_spec(translations, one.drop_last()) == 0);
                assert(one.last() == c);
                assert(self.text_width_spec(translations, one) == self.char_adv(translations, c));
                assert(self.text_width_spec(translations, s.skip(j)) == char_width
                    + text_width);
            }
            if text_width + char_width > width as i32 {
                return k;
            }
            text_width += char_width;
            k += 1;
        }
        n
    }
}

proof fn lemma_last_space_bound(s: Seq<char>, n: int)
    requires
        0 <= n,
    ensures
        0 <= last_space_before(s, n) <= n,
        n > 0 ==> last_space_before(s, n) < n,
    decreases n,
{
    if n > 0 && s[n - 1] != ' ' {
        lemma_last_space_bound(s, n - 1);
    }
}


/// The width of a text is the sum, from the left, of the widths of its
/// characters.
pub proof fn lemma_text_width_is_sum_of_char_widths(font: &FontInfo, tr: Option<&Translations>, s: Seq<char>)
    ensures
        font.text_width_spec(tr, s) == s.fold_left(0, |acc: int, c: char| acc + font.char_adv(tr, c)),
    decreases s.len(),
{
    if s.len() > 0 {
        lemma_text_width_is_sum_of_char_widths(font, tr, s.drop_last());
    }
}

/// The result of `longest_prefix` is a prefix of the text; and when it is
/// the whole of a non-empty text (or the width is not negative), the whole
/// text fits in the width.
pub proof fn lemma_longest_prefix_is_prefix(font: &FontInfo, tr: Option<&Translations>, width: int, s: Seq<char>)
    ensures
        s.take(font.longest_prefix_spec(tr, width, s).len() as int) == font.longest_prefix_spec(tr, width, s),
        font.longest_prefix_spec(tr, width, s).len() <= s.len(),
        (font.longest_prefix_spec(tr, width, s) == s && (s.len() > 0 || width >= 0))
            ==> font.text_width_spec(tr, s) <= width,
{
    let n = font.prefix_fit_len(tr, width, s);
    lemma_fit_len_from(font, tr, width, s, 0);
    if n >= s.len() {
        assert(s.take(s.len() as int) =~= s);
        if s.len() > 0 {
            assert(font.text_width_spec(tr, s.take(s.len() as int)) <= width);
        }
    } else {
        lemma_last_space_bound(s, n);
        let k = last_space_before(s, n);
        assert(s.take(k).len() == k);
        assert(s.take(k).len() < s.len());
    }
}

/// What the greedy scan from `i` returns: an index from `i` on, every
/// prefix up to it (past `i`) fits, and the next one, if any, does not.
proof fn lemma_fit_len_from(font: &FontInfo, tr: Option<&Translations>, width: int, s: Seq<char>, i: int)
    requires
        0 <= i <= s.len(),
    ensures
        i <= font.fit_len_from(tr, width, s, i) <= s.len(),
        forall|j: int|
            i < j <= font.fit_len_from(tr, width, s, i) ==> #[trigger] font.text_width_spec(tr, s.take(j))
                <= width,
        font.fit_len_from(tr, width, s, i) < s.len() ==> font.text_width_spec(
            tr,
            s.take(font.fit_len_from(tr, width, s, i) + 1),
        ) > width,
    decreases s.len() - i,
{
    if i < s.len() && font.text_width_spec(tr, s.take(i + 1)) <= width {
        lemma_fit_len_from(font, tr, width, s, i + 1);
    }
}

/// Giving `longest_suffix` more width never gives fewer characters.
pub proof fn lemma_longest_suffix_monotone(font: &FontInfo, tr: Option<&Translations>, w1: int, w2: int, s: Seq<char>)
    requires
        w1 <= w2,
    ensures
        font.suffix_fit_len(tr, w1, s) <= font.suffix_fit_len(tr, w2, s),
{
    lemma_suffix_len_from_monotone(font, tr, w1, w2, s, 0);
}

proof fn lemma_suffix_len_from_at_least(font: &FontInfo, tr: Option<&Translations>, width: int, s: Seq<char>, k: int)
    requires
        0 <= k,
    ensures
        font.suffix_len_from(tr, width, s, k) >= (if k <= s.len() { k } else { s.len() as int }),
    decreases s.len() - k,
{
    if k < s.len() && font.text_width_spec(tr, s.skip(s.len() - (k + 1))) <= width {
        lemma_suffix_len_from_at_least(font, tr, width, s, k + 1);
    }
}

proof fn lemma_suffix_len_from_monotone(font: &FontInfo, tr: Option<&Translations>, w1: int, w2: int, s: Seq<char>, k: int)
    requires
        w1 <= w2,
        0 <= k,
    ensures
        font.suffix_len_from(tr, w1, s, k) <= font.suffix_len_from(tr, w2, s, k),
    decreases s.len() - k,
{
    if k < s.len() {
        let wk = font.text_width_spec(tr, s.skip(s.len() - (k + 1)));
        if wk > w2 {
        } else if wk > w1 {
            lemma_suffix_len_from_at_least(font, tr, w2, s, k + 1);
        } else {
            lemma_suffix_len_from_monotone(font, tr, w1, w2, s, k + 1);
        }
    }
}

/// A non-breaking space is drawn with the record of an ordinary space.
pub proof fn lemma_nbsp_is_space(font: &FontInfo, tr: Option<&Translations>)
    ensures
        font.glyph_record(tr, '\u{a0}') == font.glyph_record(tr, ' '),
{
}

/// A control character (below `0x20`) is drawn with the nonprintable
/// glyph, whatever the translation blob holds.
pub proof fn lemma_control_is_nonprintable(font: &FontInfo, tr: Option<&Translations>, c: char)
    requires
        (c as u32) < 0x20,
    ensures
        font.glyph_record(tr, c) == font.glyph_nonprintable@,
{
}


/// The metrics layout code needs of a font, whatever stands behind it.
pub trait GlyphMetrics {
    spec fn metrics_wf(&self) -> bool;

    spec fn spec_char_width(&self, c: char) -> int;

    spec fn spec_text_width(&self, s: Seq<char>) -> int;

    spec fn spec_line_height(&self) -> int;

    fn char_width(&self, ch: char) -> (r: i16)
        requires
            self.metrics_wf(),
        ensures
            r as int == self.spec_char_width(ch),
    ;

    fn text_width(&self, text: &str) -> (r: i16)
        requires
            self.metrics_wf(),
            self.spec_text_width(text@) <= i16::MAX,
        ensures
            r as int == self.spec_text_width(text@),
    ;

    fn line_height(&self) -> (r: i16)
        requires
            self.metrics_wf(),
        ensures
            r as int == self.spec_line_height(),
    ;
}

impl<'a> GlyphMetrics for GlyphData<'a> {
    open spec fn metrics_wf(&self) -> bool {
        self.wf() && self.font.height + LINE_SPACE <= i16::MAX
    }

    open spec fn spec_char_width(&self, c: char) -> int {
        self.font.char_adv(self.translations, c)
    }

    open spec fn spec_text_width(&self, s: Seq<char>) -> int {
        self.font.text_width_spec(self.translations, s)
    }

    open spec fn spec_line_height(&self) -> int {
        LINE_SPACE + self.font.height
    }

    fn char_width(&self, ch: char) -> (r: i16) {
        self.font.char_width(self.translations, ch)
    }

    fn text_width(&self, text: &str) -> (r: i16) {
        self.font.text_width(self.translations, text)
    }

    fn line_height(&self) -> (r: i16) {
        self.font.line_height()
    }
}


/// The UTF-8 encoding of a concatenation is the concatenation of the
/// encodings.
proof fn lemma_encode_utf8_concat(a: Seq<char>, b: Seq<char>)
    ensures
        vstd::utf8::encode_utf8(a + b) == vstd::utf8::encode_utf8(a) + vstd::utf8::encode_utf8(b),
    decreases a.len(),
{
    if a.len() == 0 {
        assert(a + b =~= b);
        assert(vstd::utf8::encode_utf8(a) + vstd::utf8::encode_utf8(b) =~= vstd::utf8::encode_utf8(b));
    } else {
        assert((a + b).drop_first() =~= a.drop_first() + b);
        lemma_encode_utf8_concat(a.drop_first(), b);
        assert(vstd::utf8::encode_utf8(a + b) =~= vstd::utf8::encode_utf8(a) + vstd::utf8::encode_utf8(b));
    }
}

/// What `longest_prefix` returns is a byte prefix of the text: its UTF-8
/// bytes are the first bytes of the text's.
pub proof fn lemma_longest_prefix_is_byte_prefix(
    font: &FontInfo,
    tr: Option<&Translations>,
    width: int,
    text: &str,
    prefix: &str,
)
    requires
        prefix@ == font.longest_prefix_spec(tr, width, text@),
    ensures
        text.spec_bytes().take(prefix.spec_bytes().len() as int) == prefix.spec_bytes(),
{
    lemma_longest_prefix_is_prefix(font, tr, width, text@);
    let k = prefix@.len() as int;
    assert(text@ =~= text@.take(k) + text@.skip(k));
    lemma_encode_utf8_concat(text@.take(k), text@.skip(k));
    assert(text.spec_bytes() == vstd::utf8::encode_utf8(text@));
    assert(prefix.spec_bytes() == vstd::utf8::encode_utf8(prefix@));
    assert(text.spec_bytes().take(prefix.spec_bytes().len() as int) =~= prefix.spec_bytes());
}

} // verus!
