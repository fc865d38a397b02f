use m68k_match::arch::{
    ArchitectureSet, CPU32, M68000, M68000UP, M68010, M68010UP, M68020, M68020UP, M68030UP, M68040,
    M68040UP, M68K_MASK, MCFISA_A, MCFISA_B, MCF_MASK,
};
use m68k_match::matcher::{first_match, match_word, MatchResult};
use m68k_match::opcode::{build_table, one, two, validate_table, DefinitionFault, OpCode};
use m68k_match::table::{definitions, op_codes};

fn table() -> Vec<OpCode> {
    op_codes().expect("the definition table is well formed")
}

fn set(bits: u32) -> ArchitectureSet {
    ArchitectureSet::new(bits)
}

fn names(t: &[OpCode], r: &[MatchResult]) -> Vec<&'static str> {
    r.iter().map(|m| t[m.index].name).collect()
}

#[test]
fn table_builds_and_every_row_is_well_formed() {
    let t = table();
    assert_eq!(t.len(), definitions().len());
    assert_eq!(t.len(), 195);
    for op in &t {
        assert!(op.mask != 0);
        assert_eq!(op.opcode & !op.mask, 0);
        assert!(op.arch != 0);
        assert!(op.fault().is_none());
    }
    assert!(validate_table(&t).is_ok());
}

#[test]
fn abcd_word_matches_abcd_first() {
    let t = table();
    let r = match_word(&t, set(M68000UP), &[0o140400]);
    assert!(!r.is_empty());
    assert_eq!(t[r[0].index].name, "abcd");
    assert_eq!(t[r[0].index].args, "DsDd");
    assert_eq!(r[0].consumed_words, 1);
    assert_eq!(r[0].index, 0);
}

#[test]
fn abcd_word_matches_every_overlapping_row_in_order() {
    let t = table();
    let r = match_word(&t, set(M68000UP), &[0o140400]);
    // abcd DsDd, then "and" with a data register destination.
    assert_eq!(names(&t, &r), vec!["abcd", "andb"]);
}

#[test]
fn specialised_form_precedes_general_form() {
    let t = table();
    // addq #8,d0 (byte): matched by addqb and by the general addb.
    let r = match_word(&t, set(M68000UP), &[0o050000]);
    assert_eq!(names(&t, &r), vec!["addqb", "addb"]);
    assert!(r[0].index < r[1].index);
    let first = first_match(&t, set(M68000UP), &[0o050000]).unwrap();
    assert_eq!(t[first.index].name, "addqb");
}

#[test]
fn add_and_addx_overlap_in_table_order() {
    let t = table();
    let r = match_word(&t, set(M68000UP), &[0o150400]);
    assert_eq!(names(&t, &r), vec!["addb", "addxb"]);
    for w in r.windows(2) {
        assert!(w[0].index < w[1].index);
    }
}

#[test]
fn immediate_add_long_on_classic_and_coldfire() {
    let t = table();
    let classic = match_word(&t, set(M68000UP), &[0o003200]);
    assert_eq!(names(&t, &classic), vec!["addil", "addl"]);
    assert_eq!(t[classic[0].index].size, 6);
    let coldfire = match_word(&t, set(MCFISA_A), &[0o003200]);
    assert_eq!(names(&t, &coldfire), vec!["addil", "addl"]);
    assert_eq!(t[coldfire[0].index].args, "#lDs");
    let both = match_word(&t, set(M68000UP | MCFISA_A), &[0o003200]);
    assert_eq!(names(&t, &both), vec!["addil", "addil", "addl", "addl"]);
}

#[test]
fn empty_architecture_matches_nothing() {
    let t = table();
    for w in [0o140400u16, 0o050000, 0o150400, 0o165300, 0xffff, 0] {
        assert!(match_word(&t, ArchitectureSet::none(), &[w, 0]).is_empty());
        assert!(match_word(&t, set(0), &[w]).is_empty());
    }
    assert!(first_match(&t, set(0), &[0o140400]).is_none());
}

#[test]
fn results_share_a_variant_with_the_selection() {
    let t = table();
    for (arch, words) in [
        (MCFISA_B, vec![0o140400u16]),
        (M68020, vec![0o061377]),
        (CPU32, vec![0o045372]),
        (MCFISA_A, vec![0o060000]),
    ] {
        for m in match_word(&t, set(arch), &words) {
            assert!(set(arch).has_any(t[m.index].architecture()));
        }
    }
    assert!(match_word(&t, set(MCFISA_B), &[0o140400]).is_empty());
    let bgnd = match_word(&t, set(CPU32), &[0o045372]);
    assert_eq!(names(&t, &bgnd), vec!["bgnd"]);
    assert!(match_word(&t, set(M68000), &[0o045372]).is_empty());
}

#[test]
fn two_word_rows_need_two_words() {
    let t = table();
    let short = match_word(&t, set(M68020UP), &[0o165300]);
    assert!(short.iter().all(|m| t[m.index].name != "bfchg"));
    assert!(short.iter().all(|m| m.consumed_words == 1));
    let full = match_word(&t, set(M68020UP), &[0o165300, 0o000000]);
    let bf: Vec<&MatchResult> = full.iter().filter(|m| t[m.index].name == "bfchg").collect();
    assert_eq!(bf.len(), 1);
    assert_eq!(bf[0].consumed_words, 2);
    // Second word outside the pattern: bfchg requires its top four bits clear.
    let wrong = match_word(&t, set(M68020UP), &[0o165300, 0o170000]);
    assert!(wrong.iter().all(|m| t[m.index].name != "bfchg"));
}

#[test]
fn empty_stream_matches_nothing() {
    let t = table();
    assert!(match_word(&t, set(M68000UP | MCF_MASK), &[]).is_empty());
    assert!(first_match(&t, set(M68000UP), &[]).is_none());
}

#[test]
fn matching_is_deterministic() {
    let t = table();
    for words in [vec![0o140400u16], vec![0o050000], vec![0o165300, 0], vec![0xf418]] {
        let a = match_word(&t, set(M68000UP), &words);
        let b = match_word(&t, set(M68000UP), &words);
        assert_eq!(a, b);
    }
}

#[test]
fn cache_rows_use_scope_field() {
    let t = table();
    let r = match_word(&t, set(M68040), &[0xf418]);
    assert_eq!(names(&t, &r), vec!["cinva"]);
    let r = match_word(&t, set(M68040), &[0xf428 + 0x03]);
    assert_eq!(names(&t, &r), vec!["cpushl"]);
}

#[test]
fn union_algebra() {
    assert!(set(M68000UP).has_any(set(M68040)));
    assert!(!set(MCFISA_B).has_any(set(M68000UP)));
    assert!(set(MCFISA_B).union(set(M68000UP)).has_any(set(M68000UP)));
    assert_eq!(M68010UP & M68000UP, M68010UP);
    assert_eq!(M68020UP & M68010UP, M68020UP);
    assert_eq!(M68030UP & M68020UP, M68030UP);
    assert_eq!(M68040UP & M68030UP, M68040UP);
    assert_eq!(M68K_MASK & MCF_MASK, 0);
    assert_eq!(M68000UP, 0x3ff & !0xc0);
    assert!(set(M68010UP).has_any(set(M68010)));
    assert!(!set(M68010UP).has_any(set(M68000)));
    assert!(set(0).is_empty());
    assert_eq!(set(M68000).union(set(M68010)).bits, 0x3);
}

#[test]
fn word_packing_helpers() {
    assert_eq!(one(0o140400), 0xc100_0000);
    assert_eq!(one(0xffff), 0xffff_0000);
    assert_eq!(two(0o177700, 0o170000), 0xffc0_f000);
    assert_eq!(two(0o000300, 0o004000), 0x00c0_0800);
}

#[test]
fn word_count_follows_mask() {
    let a = OpCode::new("x", "", one(1), one(1), M68000, 2);
    assert_eq!(a.required_word_count(), 1);
    let b = OpCode::new("y", "", two(1, 0), two(1, 1), M68000, 4);
    assert_eq!(b.required_word_count(), 2);
}

#[test]
fn build_reports_first_malformed_row() {
    let good = OpCode::new("ok", "", one(0o140400), one(0o170770), M68000UP, 2);
    let empty = OpCode::new("empty", "", 0, 0, M68000UP, 2);
    let outside = OpCode::new("outside", "", one(0o140401), one(0o170770), M68000UP, 2);
    let nowhere = OpCode::new("nowhere", "", one(0o140400), one(0o170770), 0, 2);

    let e = build_table(vec![good, empty, outside]).unwrap_err();
    assert_eq!((e.row, e.name, e.fault), (1, "empty", DefinitionFault::EmptyMask));
    let e = build_table(vec![good, good, outside, empty]).unwrap_err();
    assert_eq!((e.row, e.name, e.fault), (2, "outside", DefinitionFault::BitsOutsideMask));
    let e = build_table(vec![nowhere]).unwrap_err();
    assert_eq!((e.row, e.name, e.fault), (0, "nowhere", DefinitionFault::NoArchitecture));
    let stray = OpCode::new("stray", "", one(0o140400), one(0o170770), M68000UP | 0x80000, 2);
    let e = build_table(vec![good, stray]).unwrap_err();
    assert_eq!((e.row, e.name, e.fault), (1, "stray", DefinitionFault::UnnamedArchitecture));
    let t = build_table(vec![good, good]).unwrap();
    assert_eq!(t.len(), 2);
    assert!(build_table(vec![]).unwrap().is_empty());
}

#[test]
fn describe_lists_the_fields() {
    let t = table();
    let text = t[0].describe();
    assert!(text.starts_with("abcd: DsDd, "));
    assert!(text.contains("0xC1000000"));
    assert!(text.contains("mask: 0xF1F80000"));
    assert!(text.contains("size: 2"));
    assert!(text.ends_with(&format!("arch: {}", M68000UP)));
}
