use coff_sections::pe::{ImageFileHeader, ImageSectionHeader};
use coff_sections::strtab::StringTable;
use coff_sections::table::SectionTable;
use coff_sections::Error;

fn file_header(count: u16) -> ImageFileHeader {
    ImageFileHeader {
        machine: 0x8664,
        number_of_sections: count,
        time_date_stamp: 0,
        pointer_to_symbol_table: 0,
        number_of_symbols: 0,
        size_of_optional_header: 0,
        characteristics: 0,
    }
}

fn record(name: &[u8; 8], virtual_address: u32, size_of_raw_data: u32) -> Vec<u8> {
    let mut b = Vec::new();
    b.extend_from_slice(name);
    b.extend_from_slice(&0u32.to_le_bytes()); // virtual_size
    b.extend_from_slice(&virtual_address.to_le_bytes());
    b.extend_from_slice(&size_of_raw_data.to_le_bytes());
    b.extend_from_slice(&0u32.to_le_bytes()); // pointer_to_raw_data
    b.extend_from_slice(&0u32.to_le_bytes()); // pointer_to_relocations
    b.extend_from_slice(&0u32.to_le_bytes()); // pointer_to_linenumbers
    b.extend_from_slice(&0u16.to_le_bytes()); // number_of_relocations
    b.extend_from_slice(&0u16.to_le_bytes()); // number_of_linenumbers
    b.extend_from_slice(&0u32.to_le_bytes()); // characteristics
    b
}

#[test]
fn parse_reads_each_record() {
    let mut data = vec![0u8; 4];
    data.extend_from_slice(&record(b".text\0\0\0", 0x1000, 0x10));
    data.extend_from_slice(&record(b".data\0\0\0", 0x2000, 0x20));
    let table = SectionTable::parse(&file_header(2), &data, 4).unwrap();
    assert_eq!(table.len(), 2);
    assert!(!table.is_empty());
    let first = table.section(1).unwrap();
    assert_eq!(first.virtual_address, 0x1000);
    assert_eq!(first.size_of_raw_data, 0x10);
    assert_eq!(&first.name, b".text\0\0\0");
    let second = table.section(2).unwrap();
    assert_eq!(second.virtual_address, 0x2000);
    assert_eq!(second.size_of_raw_data, 0x20);
}

#[test]
fn parse_succeeds_when_records_exactly_fit() {
    let mut data = Vec::new();
    data.extend_from_slice(&record(b"a\0\0\0\0\0\0\0", 0, 0));
    let table = SectionTable::parse(&file_header(1), &data, 0).unwrap();
    assert_eq!(table.len(), 1);
}

#[test]
fn parse_fails_when_records_leave_buffer() {
    let mut data = vec![0u8; 4];
    data.extend_from_slice(&record(b".text\0\0\0", 0, 0));
    // Two records claimed, one present.
    assert_eq!(
        SectionTable::parse(&file_header(2), &data, 4).unwrap_err(),
        Error::OutOfBounds
    );
    // One record present but the offset pushes it past the end.
    assert_eq!(
        SectionTable::parse(&file_header(1), &data, 5).unwrap_err(),
        Error::OutOfBounds
    );
    // Offset entirely outside the buffer.
    assert_eq!(
        SectionTable::parse(&file_header(1), &data, 10_000).unwrap_err(),
        Error::OutOfBounds
    );
}

#[test]
fn parse_empty_table() {
    let data = vec![0u8; 4];
    let table = SectionTable::parse(&file_header(0), &data, 4).unwrap();
    assert_eq!(table.len(), 0);
    assert!(table.is_empty());
}

#[test]
fn section_index_is_one_based() {
    let mut data = Vec::new();
    data.extend_from_slice(&record(b"one\0\0\0\0\0", 1, 0));
    data.extend_from_slice(&record(b"two\0\0\0\0\0", 2, 0));
    let table = SectionTable::parse(&file_header(2), &data, 0).unwrap();
    assert_eq!(table.section(0).unwrap_err(), Error::InvalidIndex);
    assert_eq!(table.section(1).unwrap().virtual_address, 1);
    assert_eq!(table.section(2).unwrap().virtual_address, 2);
    assert_eq!(table.section(3).unwrap_err(), Error::InvalidIndex);
}

#[test]
fn table_iter_walks_in_file_order() {
    let mut data = Vec::new();
    data.extend_from_slice(&record(b"one\0\0\0\0\0", 1, 0));
    data.extend_from_slice(&record(b"two\0\0\0\0\0", 2, 0));
    let table = SectionTable::parse(&file_header(2), &data, 0).unwrap();
    let mut it = table.iter();
    assert_eq!(it.next().unwrap().virtual_address, 1);
    assert_eq!(it.next().unwrap().virtual_address, 2);
    assert!(it.next().is_none());
    assert!(it.next().is_none());
}

#[test]
fn section_by_name_finds_first_match() {
    let mut data = Vec::new();
    data.extend_from_slice(&record(b".text\0\0\0", 1, 0));
    data.extend_from_slice(&record(b".data\0\0\0", 2, 0));
    data.extend_from_slice(&record(b".data\0\0\0", 3, 0));
    let table = SectionTable::parse(&file_header(3), &data, 0).unwrap();
    let strings = StringTable { data: &[] };
    let (index, header) = table.section_by_name(strings, b".data").unwrap();
    assert_eq!(index, 2);
    assert_eq!(header.virtual_address, 2);
}

#[test]
fn section_by_name_skips_undecodable_names() {
    // The first record's name is a single-slash offset with a bad digit, so
    // it does not decode; the scan must still reach the matching record.
    let mut data = Vec::new();
    data.extend_from_slice(&record(b"/12x\0\0\0\0", 1, 0));
    data.extend_from_slice(&record(b".rdata\0\0", 2, 0));
    let table = SectionTable::parse(&file_header(2), &data, 0).unwrap();
    let strings = StringTable { data: &[] };
    let (index, header) = table.section_by_name(strings, b".rdata").unwrap();
    assert_eq!(index, 2);
    assert_eq!(header.virtual_address, 2);
}

#[test]
fn section_by_name_returns_none_without_match() {
    let mut data = Vec::new();
    data.extend_from_slice(&record(b".text\0\0\0", 1, 0));
    let table = SectionTable::parse(&file_header(1), &data, 0).unwrap();
    let strings = StringTable { data: &[] };
    assert!(table.section_by_name(strings, b".bss").is_none());
}

#[test]
fn section_by_name_resolves_long_names() {
    let mut strtab = Vec::new();
    strtab.extend_from_slice(&[0u8; 4]);
    strtab.extend_from_slice(b".debug_info\0");
    let mut data = Vec::new();
    data.extend_from_slice(&record(b"/4\0\0\0\0\0\0", 7, 0));
    let table = SectionTable::parse(&file_header(1), &data, 0).unwrap();
    let strings = StringTable { data: &strtab };
    let (index, header) = table.section_by_name(strings, b".debug_info").unwrap();
    assert_eq!(index, 1);
    assert_eq!(header.virtual_address, 7);
}

#[test]
fn error_message_describes_failure() {
    let data = vec![0u8; 4];
    let err = SectionTable::parse(&file_header(1), &data, 0).unwrap_err();
    assert_eq!(err.message(), "read past the end of the file buffer");
    assert_eq!(Error::InvalidIndex.message(), "invalid section index");
    assert_eq!(
        Error::InvalidBase64Name.message(),
        "invalid section name base-64 offset"
    );
    assert_eq!(
        Error::InvalidBase10Name.message(),
        "invalid section name base-10 offset"
    );
    assert_eq!(Error::InvalidStringOffset.message(), "invalid section name offset");
    assert_eq!(Error::InvalidText.message(), "section name is not valid text");
}

#[test]
fn header_unused_fields_are_read() {
    let mut b = Vec::new();
    b.extend_from_slice(b"name\0\0\0\0");
    b.extend_from_slice(&0x11u32.to_le_bytes()); // virtual_size
    b.extend_from_slice(&0x22u32.to_le_bytes()); // virtual_address
    b.extend_from_slice(&0x33u32.to_le_bytes()); // size_of_raw_data
    b.extend_from_slice(&0x44u32.to_le_bytes()); // pointer_to_raw_data
    b.extend_from_slice(&0x55u32.to_le_bytes()); // pointer_to_relocations
    b.extend_from_slice(&0x66u32.to_le_bytes()); // pointer_to_linenumbers
    b.extend_from_slice(&0x77u16.to_le_bytes()); // number_of_relocations
    b.extend_from_slice(&0x88u16.to_le_bytes()); // number_of_linenumbers
    b.extend_from_slice(&0x99u32.to_le_bytes()); // characteristics
    let h = ImageSectionHeader::parse(&b, 0);
    assert_eq!(h.virtual_size, 0x11);
    assert_eq!(h.virtual_address, 0x22);
    assert_eq!(h.size_of_raw_data, 0x33);
    assert_eq!(h.pointer_to_raw_data, 0x44);
    assert_eq!(h.pointer_to_relocations, 0x55);
    assert_eq!(h.pointer_to_linenumbers, 0x66);
    assert_eq!(h.number_of_relocations, 0x77);
    assert_eq!(h.number_of_linenumbers, 0x88);
    assert_eq!(h.characteristics, 0x99);
}
