use charlcd::rows::{DisplayGeometry, LCDLineNumbers};

#[test]
fn four_logical_rows_on_20x4() {
    assert_eq!(LCDLineNumbers::Line1.offset(), 0);
    assert_eq!(LCDLineNumbers::Line2.offset(), 0x40);
    assert_eq!(LCDLineNumbers::Line3.offset(), 20);
    assert_eq!(LCDLineNumbers::Line4.offset(), 0x54);
}

#[test]
fn row_bases_derive_from_declared_geometry() {
    let g16 = DisplayGeometry::new(16);
    assert_eq!(g16.row_base(LCDLineNumbers::Line1), 0);
    assert_eq!(g16.row_base(LCDLineNumbers::Line2), 0x40);
    assert_eq!(g16.row_base(LCDLineNumbers::Line3), 16);
    assert_eq!(g16.row_base(LCDLineNumbers::Line4), 0x50);

    let g40 = DisplayGeometry::new(40);
    assert_eq!(g40.row_base(LCDLineNumbers::Line3), 40);
    assert_eq!(g40.row_base(LCDLineNumbers::Line4), 0x68);
}
