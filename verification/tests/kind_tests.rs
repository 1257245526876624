use coff_sections::kind::{alignment_of, section_kind_of, SectionKind};
use coff_sections::pe::{
    IMAGE_SCN_CNT_CODE, IMAGE_SCN_CNT_INITIALIZED_DATA, IMAGE_SCN_CNT_UNINITIALIZED_DATA,
    IMAGE_SCN_LNK_INFO, IMAGE_SCN_MEM_DISCARDABLE, IMAGE_SCN_MEM_EXECUTE, IMAGE_SCN_MEM_WRITE,
};

#[test]
fn kind_of_plain_words() {
    assert_eq!(section_kind_of(IMAGE_SCN_CNT_CODE), SectionKind::Text);
    assert_eq!(section_kind_of(IMAGE_SCN_MEM_EXECUTE), SectionKind::Text);
    assert_eq!(
        section_kind_of(IMAGE_SCN_CNT_INITIALIZED_DATA | IMAGE_SCN_MEM_WRITE),
        SectionKind::Data
    );
    assert_eq!(
        section_kind_of(IMAGE_SCN_CNT_INITIALIZED_DATA),
        SectionKind::ReadOnlyData
    );
    assert_eq!(
        section_kind_of(IMAGE_SCN_CNT_INITIALIZED_DATA | IMAGE_SCN_MEM_DISCARDABLE),
        SectionKind::Other
    );
    assert_eq!(
        section_kind_of(IMAGE_SCN_CNT_UNINITIALIZED_DATA),
        SectionKind::UninitializedData
    );
    assert_eq!(section_kind_of(IMAGE_SCN_LNK_INFO), SectionKind::Linker);
    assert_eq!(section_kind_of(0), SectionKind::Unknown);
}

#[test]
fn kind_precedence_over_all_flag_combinations() {
    // Walk every combination of the seven classification bits and check the
    // documented precedence against an independent reading of the rules.
    let bits = [
        IMAGE_SCN_CNT_CODE,
        IMAGE_SCN_MEM_EXECUTE,
        IMAGE_SCN_CNT_INITIALIZED_DATA,
        IMAGE_SCN_MEM_DISCARDABLE,
        IMAGE_SCN_MEM_WRITE,
        IMAGE_SCN_CNT_UNINITIALIZED_DATA,
        IMAGE_SCN_LNK_INFO,
    ];
    for mask in 0u32..128 {
        let mut c = 0u32;
        for (i, bit) in bits.iter().enumerate() {
            if mask & (1 << i) != 0 {
                c |= bit;
            }
        }
        let expected = if c & (IMAGE_SCN_CNT_CODE | IMAGE_SCN_MEM_EXECUTE) != 0 {
            SectionKind::Text
        } else if c & IMAGE_SCN_CNT_INITIALIZED_DATA != 0 {
            if c & IMAGE_SCN_MEM_DISCARDABLE != 0 {
                SectionKind::Other
            } else if c & IMAGE_SCN_MEM_WRITE != 0 {
                SectionKind::Data
            } else {
                SectionKind::ReadOnlyData
            }
        } else if c & IMAGE_SCN_CNT_UNINITIALIZED_DATA != 0 {
            SectionKind::UninitializedData
        } else if c & IMAGE_SCN_LNK_INFO != 0 {
            SectionKind::Linker
        } else {
            SectionKind::Unknown
        };
        assert_eq!(section_kind_of(c), expected, "characteristics {:#x}", c);
        // The alignment bits never change the kind.
        assert_eq!(section_kind_of(c | 0x50_0000), expected);
    }
}

#[test]
fn code_bit_wins_over_data_bits() {
    let c = IMAGE_SCN_CNT_CODE | IMAGE_SCN_CNT_INITIALIZED_DATA | IMAGE_SCN_MEM_WRITE;
    assert_eq!(section_kind_of(c), SectionKind::Text);
    let c = IMAGE_SCN_MEM_EXECUTE | IMAGE_SCN_CNT_UNINITIALIZED_DATA;
    assert_eq!(section_kind_of(c), SectionKind::Text);
    let c = IMAGE_SCN_CNT_INITIALIZED_DATA | IMAGE_SCN_CNT_UNINITIALIZED_DATA;
    assert_eq!(section_kind_of(c), SectionKind::ReadOnlyData);
}

#[test]
fn alignment_all_sixteen_patterns() {
    let expected: [u64; 16] = [
        16, 1, 2, 4, 8, 16, 32, 64, 128, 256, 512, 1024, 2048, 4096, 8192, 16,
    ];
    for nibble in 0u32..16 {
        let c = nibble << 20;
        assert_eq!(alignment_of(c), expected[nibble as usize], "pattern {:#x}", c);
        // Other characteristics bits do not disturb the alignment.
        assert_eq!(alignment_of(c | IMAGE_SCN_CNT_CODE | IMAGE_SCN_MEM_WRITE), expected[nibble as usize]);
    }
}
