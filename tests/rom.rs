use m68k_match::rom::Rom;
use m68k_match::rom_fmt::Format;

fn image(len: usize) -> Vec<u8> {
    let mut d = vec![0u8; len];
    d[0x100..0x110].copy_from_slice(b"SEGA MEGA DRIVE ");
    d[0x110..0x120].copy_from_slice(b"(C)SEGA 1991.APR");
    d[0x120..0x150].copy_from_slice(&[b'T'; 0x30]);
    d[0x150..0x180].copy_from_slice(&[b'O'; 0x30]);
    d[0x180..0x182].copy_from_slice(b"GM");
    d[0x182..0x18e].copy_from_slice(b" 00001009-00");
    d[0x1a0..0x1b0].copy_from_slice(&[
        0, 0, 0, 0, 0, 0x07, 0xff, 0xff, 0x00, 0xff, 0x00, 0x00, 0x00, 0xff, 0xff, 0xff,
    ]);
    d
}

#[test]
fn header_text_fields() {
    let rom = Rom { data: image(0x204), format: Format::Md };
    assert_eq!(rom.console(), Some("SEGA MEGA DRIVE "));
    assert_eq!(rom.copyright(), Some("(C)SEGA 1991.APR"));
    assert_eq!(rom.title().unwrap().len(), 0x30);
    assert!(rom.name_overseas().unwrap().chars().all(|c| c == 'O'));
    assert_eq!(rom.product_type(), Some("GM"));
    assert_eq!(rom.product_code(), Some(" 00001009-00"));
}

#[test]
fn header_text_that_is_not_utf8() {
    let mut d = image(0x200);
    d[0x100] = 0xff;
    let rom = Rom { data: d, format: Format::Bin };
    assert_eq!(rom.console(), None);
    assert_eq!(rom.copyright(), Some("(C)SEGA 1991.APR"));
}

#[test]
fn header_addresses() {
    let rom = Rom { data: image(0x200), format: Format::Bin };
    assert_eq!(rom.start(), 0);
    assert_eq!(rom.end(), 0x0007_ffff);
    assert_eq!(rom.ram_start(), 0x00ff_0000);
    assert_eq!(rom.ram_end(), 0x00ff_ffff);
}

#[test]
fn checksum_matches_body() {
    let mut d = image(0x206);
    d[0x200..0x206].copy_from_slice(&[0x12, 0x34, 0xff, 0x00, 0x01, 0x02]);
    // 0x1234 + 0xff00 + 0x0102 = 0x11236, kept modulo 0x10000.
    d[0x18e] = 0x12;
    d[0x18f] = 0x36;
    let rom = Rom { data: d, format: Format::Smd };
    assert_eq!(rom.checksum(), 0x1236);
    assert!(rom.valid_checksum());
}

#[test]
fn checksum_mismatch() {
    let mut d = image(0x204);
    d[0x200..0x204].copy_from_slice(&[0x00, 0x01, 0x00, 0x02]);
    d[0x18f] = 0x04;
    let rom = Rom { data: d, format: Format::Bin };
    assert_eq!(rom.checksum(), 4);
    assert!(!rom.valid_checksum());
}

#[test]
fn checksum_of_header_only_image() {
    let rom = Rom { data: image(0x200), format: Format::Bin };
    assert_eq!(rom.checksum(), 0);
    assert!(rom.valid_checksum());
}

#[test]
fn format_from_extension() {
    assert_eq!(Format::from_str("bin"), Ok(Format::Bin));
    assert_eq!(Format::from_str("smd"), Ok(Format::Smd));
    assert_eq!(Format::from_str("md"), Ok(Format::Md));
    assert_eq!(Format::from_str("gen"), Err("invalid or unknown format"));
    assert!(Format::from_str("").is_err());
    assert!(Format::from_str("BIN").is_err());
    assert!(Format::from_str("mdx").is_err());
}

#[test]
fn format_names() {
    assert_eq!(Format::Bin.name(), "bin");
    assert_eq!(Format::Smd.name(), "smd");
    assert_eq!(Format::Md.name(), "md");
    for f in [Format::Bin, Format::Smd, Format::Md] {
        assert_eq!(Format::from_str(f.name()), Ok(f));
    }
}
