use emerald_core::hw::holly::g1::cdi::CdiParser;
use emerald_core::hw::holly::g1::gdi::GdiParser;

const SAMPLE: &str = "3\n1 0 4 2352 track01.bin 0\n2 756 0 2352 track02.raw 0\n3 45000 4 2352 \"track 03.bin\" 0\n";

#[test]
fn gdi_text_reads_track_lines() {
    let lines = GdiParser::parse_text(SAMPLE.as_bytes()).expect("a valid gdi text");
    assert_eq!(lines.len(), 3);
    assert_eq!(lines[0].number, 1);
    assert_eq!(lines[0].lba, 0);
    assert_eq!(lines[0].track_type, 4);
    assert_eq!(lines[0].sector_size, 2352);
    assert_eq!(lines[0].file_name, b"track01.bin".to_vec());
    assert_eq!(lines[1].lba, 756);
    assert_eq!(lines[1].track_type, 0);
    assert_eq!(lines[2].lba, 45000);
    assert_eq!(lines[2].file_name, b"track 03.bin".to_vec());
}

#[test]
fn gdi_text_tolerates_blank_lines_and_crlf() {
    let text = "\r\n1\r\n\r\n1 0 4 2048 data.iso 0\r\n";
    let lines = GdiParser::parse_text(text.as_bytes()).expect("a valid gdi text");
    assert_eq!(lines.len(), 1);
    assert_eq!(lines[0].sector_size, 2048);
    assert_eq!(lines[0].file_name, b"data.iso".to_vec());
}

#[test]
fn gdi_text_refusals() {
    // no track count
    assert!(GdiParser::parse_text(b"").is_none());
    // a count that is not a number
    assert!(GdiParser::parse_text(b"x\n1 0 4 2048 a 0\n").is_none());
    // a track line with five fields
    assert!(GdiParser::parse_text(b"1\n1 0 4 2048 a\n").is_none());
    // a quote left open
    assert!(GdiParser::parse_text(b"1\n1 0 4 2048 \"a 0\n").is_none());
    // a number too large for a machine word
    assert!(GdiParser::parse_text(b"1\n1 99999999999999999999999 4 2048 a 0\n").is_none());
}

#[test]
fn gdi_image_numbers_tracks_and_skips_lead_in() {
    let lines = GdiParser::parse_text(SAMPLE.as_bytes()).unwrap();
    let files = vec![vec![1u8; 4], vec![2u8; 8], vec![3u8; 2]];
    let image = GdiParser::image_from_lines(&lines, files);
    assert_eq!(image.tracks.len(), 3);
    assert_eq!(image.tracks[0].number, 1);
    assert_eq!(image.tracks[0].offset, 150);
    assert!(!image.tracks[0].is_audo_track);
    assert_eq!(image.tracks[0].control, 4);
    assert_eq!(image.tracks[0].adr, 1);
    assert_eq!(image.tracks[1].number, 2);
    assert_eq!(image.tracks[1].offset, 906);
    assert!(image.tracks[1].is_audo_track);
    assert_eq!(image.tracks[1].control, 0);
    assert_eq!(image.tracks[2].offset, 45150);
    assert_eq!(image.tracks[2].data, vec![3u8; 2]);
}

#[test]
fn cdi_trailer_known_and_unknown_versions() {
    let trailer = [0x05, 0x00, 0x00, 0x80, 0x34, 0x12, 0x00, 0x00];
    assert_eq!(CdiParser::read_trailer(trailer), Some((0x8000_0005, 0x1234)));
    let v2 = [0x04, 0x00, 0x00, 0x80, 0, 0, 0, 1];
    assert_eq!(CdiParser::read_trailer(v2), Some((0x8000_0004, 0x0100_0000)));
    let unknown = [0x07, 0x00, 0x00, 0x80, 0, 0, 0, 0];
    assert_eq!(CdiParser::read_trailer(unknown), None);
}
