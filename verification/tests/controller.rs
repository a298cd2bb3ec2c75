use charlcd::controller::{
    BusWrite, Controller, MIN_POST_INIT_SETTLE_NS, POST_CLEAR_SETTLE_NS, POST_INIT_SETTLE_NS,
};
use charlcd::rows::{DisplayGeometry, LCDLineNumbers};
use charlcd::signal::TransferMode;

fn command(value: u8) -> BusWrite {
    BusWrite { mode: TransferMode::Command, value }
}

fn data(value: u8) -> BusWrite {
    BusWrite { mode: TransferMode::Data, value }
}

fn functional_controller() -> Controller {
    let mut c = Controller::new();
    let _ = c.init(true, false);
    c
}

#[test]
fn init_issues_bootstrap_then_function_set() {
    let mut c = Controller::new();
    // Two electrical lines (a 4-row display still declares two), 5x8 font.
    let (writes, settle) = c.init(true, false);
    assert_eq!(writes, vec![command(0x33), command(0x32), command(0x28)]);
    assert_eq!(settle, POST_INIT_SETTLE_NS);
    assert!(settle >= MIN_POST_INIT_SETTLE_NS);
}

#[test]
fn display_control_packs_the_three_flags() {
    let mut c = functional_controller();
    assert_eq!(c.set_display_control(true, true, false), command(0x0E));
    assert_eq!(c.set_display_control(true, false, false), command(0x0C));
    assert_eq!(c.set_display_control(false, false, false), command(0x08));
    assert_eq!(c.set_display_control(true, true, true), command(0x0F));
}

#[test]
fn clear_homes_the_ddram_cursor_and_needs_its_own_settle() {
    let mut c = functional_controller();
    let _ = c.seek(0x2A);
    let (write, settle) = c.clear();
    assert_eq!(write, command(0x01));
    assert_eq!(settle, POST_CLEAR_SETTLE_NS);
    assert!(settle >= 2_000_000);
    let first = c.write(b'A');
    assert_eq!(first, data(b'A'));
}

#[test]
fn seek_to_row_3_offset_0_then_hi() {
    // Input row=3, offset=0, message "Hi" on a 20x4 display: the controller
    // receives a seek to DDRAM address 20, then writes 0x48 and 0x69.
    let mut c = functional_controller();
    let geometry = DisplayGeometry::new(20);
    let seek = c.seek_row(geometry, LCDLineNumbers::Line3, 0);
    assert_eq!(seek, command(0x80 | 20));
    let writes = c.write_bytes(&vec![0x48, 0x69]);
    assert_eq!(writes, vec![data(0x48), data(0x69)]);
}

#[test]
fn seek_row_applies_the_byte_offset() {
    let mut c = functional_controller();
    let geometry = DisplayGeometry::new(20);
    let seek = c.seek_row(geometry, LCDLineNumbers::Line4, 5);
    assert_eq!(seek, command(0x80 | 0x59));
}

#[test]
fn cgram_write_keeps_only_the_low_five_bits() {
    // Program slot 3 with rows whose top three bits are junk; reading the
    // model back yields exactly the bitmap masked to five bits.
    let mut c = functional_controller();
    let bitmap = vec![0xFF, 0xE0, 0x15, 0x8A, 0x1F, 0x00, 0xFF, 0x6E];
    let writes = c.program_glyph(3, &bitmap);
    assert_eq!(writes[0], command(0x40 | 24));
    assert_eq!(writes.len(), 9);
    for (i, row) in bitmap.iter().enumerate() {
        assert_eq!(writes[1 + i], data(*row));
        assert_eq!(c.glyph_row(3, i as u8), row & 0x1F);
    }
}

#[test]
fn programming_one_slot_leaves_the_others_alone() {
    let mut c = functional_controller();
    let _ = c.program_glyph(0, &vec![0x1F; 8]);
    let _ = c.program_glyph(1, &vec![0x0A; 8]);
    for row in 0..8 {
        assert_eq!(c.glyph_row(0, row), 0x1F);
        assert_eq!(c.glyph_row(1, row), 0x0A);
        assert_eq!(c.glyph_row(2, row), 0x00);
    }
}

#[test]
fn write_targets_whichever_cursor_was_armed_last() {
    let mut c = functional_controller();
    let _ = c.seek_cgram(0);
    let _ = c.write(0x1F);
    assert_eq!(c.glyph_row(0, 0), 0x1F);
    let _ = c.seek(0x00);
    let _ = c.write(0x1B);
    // The DDRAM write must not have touched the glyph model.
    assert_eq!(c.glyph_row(0, 0), 0x1F);
    assert_eq!(c.glyph_row(0, 1), 0x00);
}

#[test]
fn cgram_addresses_land_on_slot_boundaries() {
    let mut c = functional_controller();
    assert_eq!(c.seek_cgram(0), command(0x40));
    assert_eq!(c.seek_cgram(24), command(0x58));
    assert_eq!(c.seek_cgram(56), command(0x78));
}

#[test]
fn ddram_cursor_wraps_at_the_end_of_memory() {
    let mut c = functional_controller();
    let _ = c.seek(0x7F);
    let writes = c.write_bytes(&vec![b'x', b'y']);
    assert_eq!(writes.len(), 2);
    let next = c.seek(1);
    assert_eq!(next, command(0x81));
}
