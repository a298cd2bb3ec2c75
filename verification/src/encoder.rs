//! Unicode-to-device-charset mapping with layered fallbacks.
//!
//! The device's fixed 256-entry character ROM and its eight programmable
//! glyph slots cannot cover Unicode, so each scalar is resolved through an
//! ordered set of rules, first match wins: native printable pass-through,
//! a programmed custom glyph, a fixed ROM-resident extended code, a literal
//! visual approximation, the solid-square placeholder for control
//! characters, and last an ASCII transliteration. Exact renderings always
//! outrank the transliteration, which is a best-effort approximation.

use vstd::prelude::*;

verus! {

/// First scalar of the device's native printable range: space.
pub const PRINTABLE_FIRST: u32 = 0x20;

/// One past the last scalar the ROM renders natively as itself.
pub const PRINTABLE_END: u32 = 0x7E;

/// Device code of the solid-square glyph standing in for undecodable
/// control characters.
pub const PLACEHOLDER_BYTE: u8 = 0xFF;

/// Custom glyph slots run 0 through 7.
pub const CUSTOM_SLOT_COUNT: u8 = 8;

/// How one Unicode scalar is rendered, in the tagged form the resolution
/// rules produce.
#[derive(Clone, Copy, PartialEq, Eq, Structural, Debug)]
pub enum Resolution {
    /// The scalar's own value, rendered by the ROM's native ASCII range.
    Native(u8),
    /// A programmed custom glyph, referenced by its slot index.
    CustomGlyph(u8),
    /// A fixed extended code resident in the character ROM.
    RomCode(u8),
    /// The ROM code of the nearest visual approximation of a scalar the
    /// device cannot render faithfully.
    Approximation(u8),
    /// The solid-square placeholder for a control character.
    Placeholder,
    /// No exact rendering exists; transliterate to plain ASCII.
    Transliterate,
}

/// The scalar renders natively: space through the printable bound.
pub open spec fn spec_is_native(c: char) -> bool {
    PRINTABLE_FIRST <= (c as u32) && (c as u32) < PRINTABLE_END
}

/// The scalar is a control character (the C0 range, delete, and the C1
/// range), which the device can only show as the placeholder glyph.
pub open spec fn spec_is_control(c: char) -> bool {
    (c as u32) < PRINTABLE_FIRST || (0x7F <= (c as u32) && (c as u32) <= 0x9F)
}

/// Fixed ROM-resident extended codes: accented and Greek letters the
/// controller's built-in character ROM provides.
pub open spec fn spec_rom_code(c: char) -> Option<u8> {
    if c == '\u{E4}' {  // a-umlaut
        Some(0xE1u8)
    } else if c == '\u{F1}' {  // n-tilde
        Some(0xEEu8)
    } else if c == '\u{F6}' {  // o-umlaut
        Some(0xEFu8)
    } else if c == '\u{FC}' {  // u-umlaut
        Some(0xF5u8)
    } else if c == '\u{3C0}' {  // pi
        Some(0xE4u8)
    } else if c == '\u{B5}' {  // micro
        Some(0xF7u8)
    } else {
        None
    }
}

/// Literal visual approximations: scalars the ROM cannot render faithfully
/// but has a near look-alike for. The tilde is drawn as the ROM's
/// right-arrow-like best match.
pub open spec fn spec_approximation_code(c: char) -> Option<u8> {
    if c == '~' {
        Some(0xF3u8)
    } else {
        None
    }
}

/// Slot of the first programmed custom glyph for a scalar, if any.
pub open spec fn spec_custom_slot(entries: Seq<(char, u8)>, c: char) -> Option<u8>
    decreases entries.len(),
{
    if entries.len() == 0 {
        None
    } else if entries[0].0 == c {
        Some(entries[0].1)
    } else {
        spec_custom_slot(entries.drop_first(), c)
    }
}

/// The ordered resolution rules, first match wins.
pub open spec fn spec_resolve(entries: Seq<(char, u8)>, c: char) -> Resolution {
    if spec_is_native(c) {
        Resolution::Native((c as u32) as u8)
    } else if spec_custom_slot(entries, c) is Some {
        Resolution::CustomGlyph(spec_custom_slot(entries, c)->0)
    } else if spec_rom_code(c) is Some {
        Resolution::RomCode(spec_rom_code(c)->0)
    } else if spec_approximation_code(c) is Some {
        Resolution::Approximation(spec_approximation_code(c)->0)
    } else if spec_is_control(c) {
        Resolution::Placeholder
    } else {
        Resolution::Transliterate
    }
}

/// What `unidecode::unidecode_char` returns for a scalar, as bytes. The
/// result is a pure table lookup: a function of the scalar alone.
pub uninterp spec fn transliteration_of(c: char) -> Seq<u8>;

/// The device bytes one scalar encodes to.
pub open spec fn spec_encode_char(entries: Seq<(char, u8)>, c: char) -> Seq<u8> {
    match spec_resolve(entries, c) {
        Resolution::Native(b) => seq![b],
        Resolution::CustomGlyph(slot) => seq![slot],
        Resolution::RomCode(b) => seq![b],
        Resolution::Approximation(b) => seq![b],
        Resolution::Placeholder => seq![PLACEHOLDER_BYTE],
        Resolution::Transliterate => transliteration_of(c),
    }
}

/// The device bytes a scalar sequence encodes to: each scalar's bytes in
/// order.
pub open spec fn spec_encode_seq(entries: Seq<(char, u8)>, text: Seq<char>) -> Seq<u8>
    decreases text.len(),
{
    if text.len() == 0 {
        Seq::empty()
    } else {
        spec_encode_char(entries, text[0]) + spec_encode_seq(entries, text.drop_first())
    }
}

/// Relies on `unidecode::unidecode_char`: an ASCII transliteration looked
/// up in a fixed static table, so the result depends on the scalar alone;
/// the crate documents that every byte of the result is ASCII.
#[verifier::external_body]
fn transliterate_char(c: char) -> (bytes: Vec<u8>)
    ensures
        bytes@ == transliteration_of(c),
        forall|i: int| 0 <= i < bytes@.len() ==> bytes@[i] < 0x80,
{
    unidecode::unidecode_char(c).as_bytes().to_vec()
}

/// The static mapping table the encoder resolves scalars through: the
/// process's custom glyph assignments, ordered; the ROM code and
/// approximation tables are fixed properties of the device.
pub struct CharacterMappingTable {
    pub custom: Vec<(char, u8)>,
}

impl CharacterMappingTable {
    /// Every assigned slot really is one of the device's eight.
    pub open spec fn wf(self) -> bool {
        forall|i: int| 0 <= i < self.custom@.len() ==> (#[trigger] self.custom@[i]).1
            < CUSTOM_SLOT_COUNT
    }

    /// A table with no custom glyph assignments.
    pub fn new() -> (t: CharacterMappingTable)
        ensures
            t.wf(),
            t.custom@ == Seq::<(char, u8)>::empty(),
    {
        let custom: Vec<(char, u8)> = Vec::new();
        proof {
            assert(custom@ =~= Seq::<(char, u8)>::empty());
        }
        CharacterMappingTable { custom }
    }

    /// Assigns a custom glyph slot to a scalar. An earlier assignment for
    /// the same scalar keeps priority: resolution takes the first match.
    pub fn assign_glyph(&mut self, c: char, slot: u8)
        requires
            old(self).wf(),
            slot < CUSTOM_SLOT_COUNT,
        ensures
            final(self).wf(),
            final(self).custom@ == old(self).custom@.push((c, slot)),
    {
        self.custom.push((c, slot));
    }

    /// The table this driver programs at startup: bespoke glyphs for the
    /// accented letters the ROM lacks, in the slots their bitmaps are
    /// loaded into.
    pub fn with_default_glyphs() -> (t: CharacterMappingTable)
        ensures
            t.wf(),
            t.custom@ == seq![('\u{E9}', 5u8), ('\u{E8}', 6u8), ('\u{E0}', 7u8)],
    {
        let mut t = CharacterMappingTable::new();
        t.assign_glyph('\u{E9}', 5);  // e-acute
        t.assign_glyph('\u{E8}', 6);  // e-grave
        t.assign_glyph('\u{E0}', 7);  // a-grave
        proof {
            assert(t.custom@ =~= seq![('\u{E9}', 5u8), ('\u{E8}', 6u8), ('\u{E0}', 7u8)]);
        }
        t
    }

    /// Slot of the first custom glyph assigned to this scalar, if any.
    pub fn custom_slot(&self, c: char) -> (r: Option<u8>)
        ensures
            r == spec_custom_slot(self.custom@, c),
    {
        let mut i: usize = 0;
        proof {
            assert(self.custom@.skip(0) =~= self.custom@);
        }
        while i < self.custom.len()
            invariant
                0 <= i <= self.custom@.len(),
                spec_custom_slot(self.custom@, c) == spec_custom_slot(
                    self.custom@.skip(i as int),
                    c,
                ),
            decreases self.custom@.len() - i,
        {
            let entry = self.custom[i];
            if entry.0 == c {
                proof {
                    assert(self.custom@.skip(i as int)[0] == self.custom@[i as int]);
                }
                return Some(entry.1);
            }
            proof {
                assert(self.custom@.skip(i as int).drop_first() =~= self.custom@.skip(i + 1));
            }
            i = i + 1;
        }
        proof {
            assert(self.custom@.skip(i as int).len() == 0);
        }
        None
    }

    /// Runs the ordered resolution rules for one scalar.
    pub fn resolve(&self, c: char) -> (r: Resolution)
        ensures
            r == spec_resolve(self.custom@, c),
    {
        let code = c as u32;
        if PRINTABLE_FIRST <= code && code < PRINTABLE_END {
            return Resolution::Native(code as u8);
        }
        if let Some(slot) = self.custom_slot(c) {
            return Resolution::CustomGlyph(slot);
        }
        if let Some(rom) = rom_code(c) {
            return Resolution::RomCode(rom);
        }
        if let Some(approx) = approximation_code(c) {
            return Resolution::Approximation(approx);
        }
        if code < PRINTABLE_FIRST || (0x7F <= code && code <= 0x9F) {
            return Resolution::Placeholder;
        }
        Resolution::Transliterate
    }

    /// Encodes one scalar to the device bytes that render it.
    pub fn encode_char(&self, c: char) -> (bytes: Vec<u8>)
        ensures
            bytes@ == spec_encode_char(self.custom@, c),
    {
        match self.resolve(c) {
            Resolution::Native(b) => encode_single(b),
            Resolution::CustomGlyph(slot) => encode_single(slot),
            Resolution::RomCode(b) => encode_single(b),
            Resolution::Approximation(b) => encode_single(b),
            Resolution::Placeholder => encode_single(PLACEHOLDER_BYTE),
            Resolution::Transliterate => transliterate_char(c),
        }
    }

    /// Encodes a scalar sequence to the device byte sequence that renders
    /// it: a pure function of this table and the input, so encoding the
    /// same text twice yields the same bytes.
    pub fn encode_text(&self, text: &Vec<char>) -> (bytes: Vec<u8>)
        ensures
            bytes@ == spec_encode_seq(self.custom@, text@),
    {
        let mut bytes: Vec<u8> = Vec::new();
        let mut i: usize = 0;
        proof {
            assert(text@.take(0) =~= Seq::<char>::empty());
        }
        while i < text.len()
            invariant
                0 <= i <= text@.len(),
                bytes@ == spec_encode_seq(self.custom@, text@.take(i as int)),
            decreases text@.len() - i,
        {
            let mut one = self.encode_char(text[i]);
            bytes.append(&mut one);
            proof {
                assert(text@.take(i + 1) =~= text@.take(i as int).push(text@[i as int]));
                lemma_encode_seq_push(self.custom@, text@.take(i as int), text@[i as int]);
            }
            i = i + 1;
        }
        proof {
            assert(text@.take(text@.len() as int) =~= text@);
        }
        bytes
    }
}

/// One byte as a vector.
fn encode_single(b: u8) -> (bytes: Vec<u8>)
    ensures
        bytes@ == seq![b],
{
    let mut bytes: Vec<u8> = Vec::new();
    bytes.push(b);
    proof {
        assert(bytes@ =~= seq![b]);
    }
    bytes
}

/// Exec mirror of the fixed ROM extended-code table.
pub fn rom_code(c: char) -> (r: Option<u8>)
    ensures
        r == spec_rom_code(c),
{
    if c == '\u{E4}' {
        Some(0xE1)
    } else if c == '\u{F1}' {
        Some(0xEE)
    } else if c == '\u{F6}' {
        Some(0xEF)
    } else if c == '\u{FC}' {
        Some(0xF5)
    } else if c == '\u{3C0}' {
        Some(0xE4)
    } else if c == '\u{B5}' {
        Some(0xF7)
    } else {
        None
    }
}

/// Exec mirror of the literal approximation table.
pub fn approximation_code(c: char) -> (r: Option<u8>)
    ensures
        r == spec_approximation_code(c),
{
    if c == '~' {
        Some(0xF3)
    } else {
        None
    }
}

/// Appending one scalar to a text appends exactly that scalar's bytes.
pub proof fn lemma_encode_seq_push(entries: Seq<(char, u8)>, text: Seq<char>, c: char)
    ensures
        spec_encode_seq(entries, text.push(c)) == spec_encode_seq(entries, text)
            + spec_encode_char(entries, c),
    decreases text.len(),
{
    if text.len() == 0 {
        assert(text.push(c)[0] == c);
        assert(text.push(c).drop_first() =~= Seq::<char>::empty());
        assert(spec_encode_seq(entries, Seq::<char>::empty()) == Seq::<u8>::empty());
        assert(spec_encode_seq(entries, text.push(c)) == spec_encode_char(entries, c)
            + Seq::<u8>::empty());
        assert(spec_encode_seq(entries, text.push(c)) =~= spec_encode_seq(entries, text)
            + spec_encode_char(entries, c));
    } else {
        assert(text.push(c).drop_first() =~= text.drop_first().push(c));
        lemma_encode_seq_push(entries, text.drop_first(), c);
        assert(spec_encode_seq(entries, text.push(c)) =~= spec_encode_seq(entries, text)
            + spec_encode_char(entries, c));
    }
}

/// Encoding distributes over concatenation: a scalar's bytes never depend
/// on the text around it.
pub proof fn lemma_encode_seq_concat(entries: Seq<(char, u8)>, left: Seq<char>, right: Seq<char>)
    ensures
        spec_encode_seq(entries, left + right) == spec_encode_seq(entries, left)
            + spec_encode_seq(entries, right),
    decreases left.len(),
{
    if left.len() == 0 {
        assert(left + right =~= right);
        assert(spec_encode_seq(entries, left + right) =~= spec_encode_seq(entries, left)
            + spec_encode_seq(entries, right));
    } else {
        assert((left + right)[0] == left[0]);
        assert((left + right).drop_first() =~= left.drop_first() + right);
        lemma_encode_seq_concat(entries, left.drop_first(), right);
        assert(spec_encode_seq(entries, left + right) =~= spec_encode_seq(entries, left)
            + spec_encode_seq(entries, right));
    }
}

/// Every scalar in the native printable range — space through the
/// printable bound — encodes to exactly one byte: its own value.
pub proof fn lemma_native_passthrough(entries: Seq<(char, u8)>, c: char)
    requires
        spec_is_native(c),
    ensures
        spec_encode_char(entries, c) == seq![(c as u32) as u8],
{
}

/// A scalar with a ROM-resident extended code and no custom glyph always
/// encodes to exactly that documented byte, whatever text surrounds it.
pub proof fn lemma_rom_code_fixed(
    entries: Seq<(char, u8)>,
    before: Seq<char>,
    after: Seq<char>,
    c: char,
    code: u8,
)
    requires
        !spec_is_native(c),
        spec_custom_slot(entries, c) is None,
        spec_rom_code(c) == Some(code),
    ensures
        spec_encode_char(entries, c) == seq![code],
        spec_encode_seq(entries, before + seq![c] + after) == spec_encode_seq(entries, before)
            + seq![code] + spec_encode_seq(entries, after),
{
    assert(seq![c].drop_first() =~= Seq::<char>::empty());
    assert(spec_encode_seq(entries, Seq::<char>::empty()) == Seq::<u8>::empty());
    assert(spec_encode_seq(entries, seq![c]) =~= spec_encode_char(entries, c));
    lemma_encode_seq_concat(entries, before, seq![c]);
    lemma_encode_seq_concat(entries, before + seq![c], after);
}

/// An unmapped control character encodes to exactly one byte, the
/// solid-square placeholder: never zero bytes and never several.
pub proof fn lemma_unmapped_control_placeholder(entries: Seq<(char, u8)>, c: char)
    requires
        spec_is_control(c),
        spec_custom_slot(entries, c) is None,
        spec_rom_code(c) is None,
        spec_approximation_code(c) is None,
    ensures
        spec_encode_char(entries, c) == seq![PLACEHOLDER_BYTE],
        spec_encode_char(entries, c).len() == 1,
{
}

} // verus!
