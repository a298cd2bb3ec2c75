use charlcd::encoder::{CharacterMappingTable, Resolution};

fn encode_str(table: &CharacterMappingTable, text: &str) -> Vec<u8> {
    let chars: Vec<char> = text.chars().collect();
    table.encode_text(&chars)
}

#[test]
fn native_printables_pass_through_as_their_own_value() {
    let table = CharacterMappingTable::with_default_glyphs();
    for code in 0x20u8..0x7E {
        let bytes = table.encode_char(code as char);
        assert_eq!(bytes, vec![code]);
    }
    assert_eq!(encode_str(&table, "Hello, LCD 42!"), b"Hello, LCD 42!".to_vec());
}

#[test]
fn rom_resident_codes_are_fixed_and_deterministic() {
    let table = CharacterMappingTable::with_default_glyphs();
    assert_eq!(table.encode_char('\u{E4}'), vec![0xE1]); // a-umlaut
    assert_eq!(table.encode_char('\u{F1}'), vec![0xEE]); // n-tilde
    assert_eq!(table.encode_char('\u{F6}'), vec![0xEF]); // o-umlaut
    assert_eq!(table.encode_char('\u{FC}'), vec![0xF5]); // u-umlaut
    assert_eq!(table.encode_char('\u{3C0}'), vec![0xE4]); // pi
    assert_eq!(table.encode_char('\u{B5}'), vec![0xF7]); // micro
}

#[test]
fn a_umlaut_is_the_rom_code_not_a_transliteration() {
    let table = CharacterMappingTable::with_default_glyphs();
    assert_eq!(encode_str(&table, "\u{E4}"), vec![0xE1]);
}

#[test]
fn rom_codes_ignore_surrounding_text() {
    let table = CharacterMappingTable::with_default_glyphs();
    assert_eq!(encode_str(&table, "X\u{E4}Y"), vec![b'X', 0xE1, b'Y']);
    assert_eq!(
        encode_str(&table, "\u{E4}\u{E4}\u{E4}"),
        vec![0xE1, 0xE1, 0xE1]
    );
}

#[test]
fn encoding_is_idempotent() {
    let table = CharacterMappingTable::with_default_glyphs();
    let text = "caf\u{E9} \u{E4}\u{3C0} ~ nai\u{308}ve \u{80}";
    assert_eq!(encode_str(&table, text), encode_str(&table, text));
}

#[test]
fn default_glyph_slots_resolve_before_transliteration() {
    let table = CharacterMappingTable::with_default_glyphs();
    assert_eq!(table.encode_char('\u{E9}'), vec![5]); // e-acute
    assert_eq!(table.encode_char('\u{E8}'), vec![6]); // e-grave
    assert_eq!(table.encode_char('\u{E0}'), vec![7]); // a-grave
}

#[test]
fn custom_glyph_programmed_at_slot_3_wins() {
    let mut table = CharacterMappingTable::new();
    table.assign_glyph('\u{E9}', 3);
    assert_eq!(encode_str(&table, "\u{E9}"), vec![0x03]);
}

#[test]
fn first_assignment_for_a_scalar_keeps_priority() {
    let mut table = CharacterMappingTable::new();
    table.assign_glyph('\u{E9}', 2);
    table.assign_glyph('\u{E9}', 4);
    assert_eq!(table.encode_char('\u{E9}'), vec![0x02]);
}

#[test]
fn unmapped_control_characters_become_one_placeholder_byte() {
    let table = CharacterMappingTable::with_default_glyphs();
    let bytes = table.encode_char('\u{80}');
    assert_eq!(bytes, vec![0xFF]);
    assert_eq!(table.encode_char('\u{01}'), vec![0xFF]);
    assert_eq!(table.encode_char('\u{9F}'), vec![0xFF]);
    assert_eq!(table.encode_char('\u{7F}'), vec![0xFF]);
    assert_eq!(table.encode_char('\n'), vec![0xFF]);
}

#[test]
fn tilde_renders_as_its_nearest_rom_approximation() {
    let table = CharacterMappingTable::with_default_glyphs();
    assert_eq!(table.encode_char('~'), vec![0xF3]);
}

#[test]
fn unmapped_scalars_fall_back_to_transliteration() {
    // Without a glyph table entry, e-acute has no exact rendering and is
    // transliterated to plain ASCII rather than refused.
    let empty = CharacterMappingTable::new();
    assert_eq!(empty.encode_char('\u{E9}'), b"e".to_vec());
    let table = CharacterMappingTable::with_default_glyphs();
    assert_eq!(table.encode_char('\u{C6}'), b"AE".to_vec()); // AE ligature
    assert_eq!(encode_str(&table, "\u{152}uf"), b"OEuf".to_vec());
}

#[test]
fn empty_text_encodes_to_no_bytes() {
    let table = CharacterMappingTable::with_default_glyphs();
    assert_eq!(encode_str(&table, ""), Vec::<u8>::new());
}

#[test]
fn resolution_order_is_explicit() {
    let table = CharacterMappingTable::with_default_glyphs();
    assert_eq!(table.resolve('A'), Resolution::Native(0x41));
    assert_eq!(table.resolve('\u{E9}'), Resolution::CustomGlyph(5));
    assert_eq!(table.resolve('\u{E4}'), Resolution::RomCode(0xE1));
    assert_eq!(table.resolve('~'), Resolution::Approximation(0xF3));
    assert_eq!(table.resolve('\u{80}'), Resolution::Placeholder);
    assert_eq!(table.resolve('\u{C6}'), Resolution::Transliterate);
}
