use coff_sections::pe::{ImageRelocation, ImageSectionHeader};
use coff_sections::strtab::StringTable;
use coff_sections::view::{CoffSection, SectionIndex};
use coff_sections::Error;

fn reloc_bytes(virtual_address: u32, symbol_table_index: u32, typ: u16) -> Vec<u8> {
    let mut b = Vec::new();
    b.extend_from_slice(&virtual_address.to_le_bytes());
    b.extend_from_slice(&symbol_table_index.to_le_bytes());
    b.extend_from_slice(&typ.to_le_bytes());
    b
}

fn header_with_relocs(pointer: u32, number: u16) -> ImageSectionHeader {
    ImageSectionHeader {
        name: *b".text\0\0\0",
        virtual_size: 0,
        virtual_address: 0,
        size_of_raw_data: 0,
        pointer_to_raw_data: 0,
        pointer_to_relocations: pointer,
        pointer_to_linenumbers: 0,
        number_of_relocations: number,
        number_of_linenumbers: 0,
        characteristics: 0,
    }
}

#[test]
fn relocations_parse_each_record() {
    let mut file = vec![0u8; 6];
    file.extend_from_slice(&reloc_bytes(0x1000, 7, 3));
    file.extend_from_slice(&reloc_bytes(0x2000, 8, 4));
    let h = header_with_relocs(6, 2);
    let records = h.coff_relocations(&file).unwrap();
    assert_eq!(records.count(), 2);
    let first = records.get(0);
    assert_eq!(first.virtual_address, 0x1000);
    assert_eq!(first.symbol_table_index, 7);
    assert_eq!(first.typ, 3);
    let second = records.get(1);
    assert_eq!(second.virtual_address, 0x2000);
    assert_eq!(second.symbol_table_index, 8);
    assert_eq!(second.typ, 4);
}

#[test]
fn relocation_iterator_is_restartable() {
    let mut file = vec![0u8; 2];
    file.extend_from_slice(&reloc_bytes(1, 2, 3));
    file.extend_from_slice(&reloc_bytes(4, 5, 6));
    let h = header_with_relocs(2, 2);
    let records = h.coff_relocations(&file).unwrap();
    let mut it = records.iter();
    assert_eq!(
        it.next(),
        Some(ImageRelocation { virtual_address: 1, symbol_table_index: 2, typ: 3 })
    );
    assert_eq!(
        it.next(),
        Some(ImageRelocation { virtual_address: 4, symbol_table_index: 5, typ: 6 })
    );
    assert_eq!(it.next(), None);
    assert_eq!(it.next(), None);
    // A fresh walk starts from the first record again.
    let mut again = records.iter();
    assert_eq!(again.next().unwrap().virtual_address, 1);
}

#[test]
fn relocations_fail_when_array_leaves_buffer() {
    let file = vec![0u8; 16];
    let h = header_with_relocs(8, 1);
    assert_eq!(h.coff_relocations(&file).unwrap_err(), Error::OutOfBounds);
    let h = header_with_relocs(1000, 1);
    assert_eq!(h.coff_relocations(&file).unwrap_err(), Error::OutOfBounds);
}

#[test]
fn section_view_tolerates_bad_relocation_metadata() {
    // A corrupt relocation pointer yields an empty walk, not a failure.
    let file = vec![0u8; 16];
    let sec = CoffSection {
        file_data: &file,
        strings: StringTable { data: &[] },
        index: SectionIndex(1),
        section: header_with_relocs(1000, 5),
    };
    let mut it = sec.relocations();
    assert_eq!(it.next(), None);
}

#[test]
fn section_view_yields_relocations() {
    let mut file = vec![0u8; 4];
    file.extend_from_slice(&reloc_bytes(0x10, 1, 2));
    let sec = CoffSection {
        file_data: &file,
        strings: StringTable { data: &[] },
        index: SectionIndex(1),
        section: header_with_relocs(4, 1),
    };
    let mut it = sec.relocations();
    let rec = it.next().unwrap();
    assert_eq!(rec.virtual_address, 0x10);
    assert_eq!(it.next(), None);
}

#[test]
fn zero_relocations_is_empty_not_failed() {
    let file = vec![0u8; 4];
    let h = header_with_relocs(0, 0);
    let records = h.coff_relocations(&file).unwrap();
    assert_eq!(records.count(), 0);
    let mut it = records.iter();
    assert_eq!(it.next(), None);
}
