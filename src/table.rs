//! The instruction definition table of the 68000 family.
//!
//! Rows are declared in precedence order: where several rows match the same
//! words, the earlier one is the preferred reading. A general mnemonic
//! (such as `addb`) repeats the encodings of its specialised forms (`addqb`,
//! `addib`) after them.
//!
//! `table_rows` states the table; `definitions` builds it, and every row is
//! proved well formed, of even size, and long enough for the words its
//! pattern covers.
use vstd::prelude::*;

use crate::arch::{
    ArchitectureSet, ALL_FLAGS, CPU32, FIDO_A, M68000UP, M68010UP, M68020, M68020UP, M68040UP,
    MCFISA_A, MCFISA_AA, MCFISA_B, MCFISA_C,
};
use crate::matcher::{
    definition_matches, lemma_results_are_matches, lemma_table_order, matches_of, MatchResult,
};
use crate::opcode::{build_table, one, spec_word_count, two, OpCode, TableError};

verus! {

/// Cache scope field (bits 3 and 4) of the cache instructions: one line.
pub const SCOPE_LINE: u32 = 0x08;
/// Cache scope field: one page.
pub const SCOPE_PAGE: u32 = 0x10;
/// Cache scope field: the whole cache.
pub const SCOPE_ALL: u32 = 0x18;

/// A row of the table with the given fields.
pub open spec fn row(name: &'static str, args: &'static str, opcode: u32, mask: u32, arch: u32, size: u16) -> OpCode {
    OpCode { name, args, opcode, mask, arch, size }
}

/// The row is well formed, and its size is even and covers at least the
/// words its pattern spans.
pub open spec fn row_sound(op: OpCode) -> bool {
    &&& op.well_formed()
    &&& op.size % 2 == 0
    &&& op.size >= 2 * spec_word_count(op.mask)
}

/// The definition table, in precedence order.
pub open spec fn table_rows() -> Seq<OpCode> {
    compare_group(bit_group(branch_group(shift_group(and_group(add_group(Seq::empty()))))))
}

/// The definition table, built and checked: it always builds, and holds
/// exactly the declared rows.
pub fn op_codes() -> (r: Result<Vec<OpCode>, TableError>)
    ensures
        r is Ok,
        r matches Ok(t) ==> t@ == table_rows(),
{
    let rows = definitions();
    assert forall|i: int| 0 <= i < rows@.len() implies #[trigger] rows@[i].well_formed() by {
        assert(row_sound(table_rows()[i]));
    }
    build_table(rows)
}

/// The rows of the definition table, in precedence order.
pub fn definitions() -> (r: Vec<OpCode>)
    ensures
        r@ == table_rows(),
        forall|i: int| 0 <= i < table_rows().len() ==> #[trigger] row_sound(table_rows()[i]),
{
    let mut t: Vec<OpCode> = Vec::new();
    add_rows(&mut t);
    and_rows(&mut t);
    shift_rows(&mut t);
    branch_rows(&mut t);
    bit_rows(&mut t);
    compare_rows(&mut t);
    t
}

/// Under 68000-and-up, the single word 0o140400 (the fixed bits of
/// `abcd DsDd`) is matched first by row 0, `abcd`, covering one word.
pub proof fn lemma_abcd_round_trip()
    ensures
        table_rows()[0].name == "abcd",
        matches_of(table_rows(), ArchitectureSet { bits: M68000UP }, seq![0o140400u16]).len() > 0,
        matches_of(table_rows(), ArchitectureSet { bits: M68000UP }, seq![0o140400u16])[0]
            == (MatchResult { index: 0, consumed_words: 1 }),
{
    let t = table_rows();
    lemma_add_group(Seq::empty());
    lemma_and_group(add_group(Seq::empty()));
    lemma_shift_group(and_group(add_group(Seq::empty())));
    lemma_branch_group(shift_group(and_group(add_group(Seq::empty()))));
    lemma_bit_group(branch_group(shift_group(and_group(add_group(Seq::empty())))));
    lemma_compare_group(bit_group(branch_group(shift_group(and_group(add_group(Seq::empty()))))));
    let arch = ArchitectureSet { bits: M68000UP };
    let words = seq![0o140400u16];
    assert(t[0] == row("abcd", "DsDd", one(0o140400), one(0o170770), M68000UP, 2));
    assert(M68000UP & M68000UP != 0 && (0o170770u32 << 16u32) & 0xffff == 0 && ((0o140400u16 as u32)
        << 16u32) & (0o170770u32 << 16u32) == (0o140400u32 << 16u32) & (0o170770u32 << 16u32))
        by (bit_vector);
    assert(definition_matches(t[0], arch, words));
    lemma_table_order(t, arch, words);
    lemma_results_are_matches(t, arch, words);
    let m = matches_of(t, arch, words);
    let k = choose|k: int| 0 <= k < m.len() && #[trigger] m[k].index == 0;
    if k > 0 {
        assert(m[0].index < m[k].index);
    }
}

/// Under 68000-and-up, the word 0o050000 is matched both by the specialised
/// row 8, `addqb`, and by the general row 11, `addb`, and the specialised
/// one comes first among the results.
pub proof fn lemma_addq_precedes_add()
    ensures
        table_rows()[8].name == "addqb",
        table_rows()[11].name == "addb",
        exists|j: int, k: int|
            0 <= j < k < matches_of(table_rows(), ArchitectureSet { bits: M68000UP }, seq![0o050000u16]).len()
                && #[trigger] matches_of(table_rows(), ArchitectureSet { bits: M68000UP }, seq![0o050000u16])[j].index == 8
                && #[trigger] matches_of(table_rows(), ArchitectureSet { bits: M68000UP }, seq![0o050000u16])[k].index == 11,
{
    let t = table_rows();
    lemma_add_group(Seq::empty());
    lemma_and_group(add_group(Seq::empty()));
    lemma_shift_group(and_group(add_group(Seq::empty())));
    lemma_branch_group(shift_group(and_group(add_group(Seq::empty()))));
    lemma_bit_group(branch_group(shift_group(and_group(add_group(Seq::empty())))));
    lemma_compare_group(bit_group(branch_group(shift_group(and_group(add_group(Seq::empty()))))));
    let arch = ArchitectureSet { bits: M68000UP };
    let words = seq![0o050000u16];
    assert(t[8] == row("addqb", "Qd$b", one(0o050000), one(0o170700), M68000UP, 2));
    assert(t[11] == row("addb", "Qd$b", one(0o050000), one(0o170700), M68000UP, 2));
    assert(M68000UP & M68000UP != 0 && (0o170700u32 << 16u32) & 0xffff == 0 && ((0o050000u16 as u32)
        << 16u32) & (0o170700u32 << 16u32) == (0o050000u32 << 16u32) & (0o170700u32 << 16u32))
        by (bit_vector);
    assert(definition_matches(t[8], arch, words));
    assert(definition_matches(t[11], arch, words));
    lemma_table_order(t, arch, words);
    let m = matches_of(t, arch, words);
    let j = choose|j: int| 0 <= j < m.len() && #[trigger] m[j].index == 8;
    let k = choose|k: int| 0 <= k < m.len() && #[trigger] m[k].index == 11;
    if k < j {
        assert(m[k].index < m[j].index);
    }
    assert(j != k);
    assert(m[j].index == 8 && m[k].index == 11);
}

proof fn lemma_add_group(s: Seq<OpCode>)
    ensures
        add_group(s).len() == s.len() + 32,
        forall|i: int| 0 <= i < s.len() ==> #[trigger] add_group(s)[i] == s[i],
{
}

proof fn lemma_and_group(s: Seq<OpCode>)
    ensures
        and_group(s).len() == s.len() + 26,
        forall|i: int| 0 <= i < s.len() ==> #[trigger] and_group(s)[i] == s[i],
{
}

proof fn lemma_shift_group(s: Seq<OpCode>)
    ensures
        shift_group(s).len() == s.len() + 14,
        forall|i: int| 0 <= i < s.len() ==> #[trigger] shift_group(s)[i] == s[i],
{
}

proof fn lemma_branch_group(s: Seq<OpCode>)
    ensures
        branch_group(s).len() == s.len() + 56,
        forall|i: int| 0 <= i < s.len() ==> #[trigger] branch_group(s)[i] == s[i],
{
}

proof fn lemma_bit_group(s: Seq<OpCode>)
    ensures
        bit_group(s).len() == s.len() + 31,
        forall|i: int| 0 <= i < s.len() ==> #[trigger] bit_group(s)[i] == s[i],
{
}

proof fn lemma_compare_group(s: Seq<OpCode>)
    ensures
        compare_group(s).len() == s.len() + 36,
        forall|i: int| 0 <= i < s.len() ==> #[trigger] compare_group(s)[i] == s[i],
{
}

proof fn lemma_one_word(p: u32, m: u32)
    by (bit_vector)
    requires
        p <= 0xffff,
        m <= 0xffff,
        m != 0,
        p & !m == 0,
    ensures
        (p << 16u32) & !(m << 16u32) == 0,
        (m << 16u32) != 0,
        (m << 16u32) & 0xffff == 0,
{
}

proof fn lemma_two_words(p1: u32, p2: u32, m1: u32, m2: u32)
    by (bit_vector)
    requires
        p1 <= 0xffff,
        p2 <= 0xffff,
        m1 <= 0xffff,
        m2 <= 0xffff,
        m2 != 0,
        p1 & !m1 == 0,
        p2 & !m2 == 0,
    ensures
        (((p1 << 16u32) + p2) as u32) & !(((m1 << 16u32) + m2) as u32) == 0,
        ((m1 << 16u32) + m2) as u32 != 0,
        (((m1 << 16u32) + m2) as u32) & 0xffff != 0,
{
}

/// Appends a one-word row whose fixed bits lie within its mask.
fn push_one_word(t: &mut Vec<OpCode>, name: &'static str, args: &'static str, p: u32, m: u32, arch: u32, size: u16)
    requires
        p <= 0xffff,
        m <= 0xffff,
        m != 0,
        p & !m == 0,
        arch != 0,
        arch & !ALL_FLAGS == 0,
        size % 2 == 0,
        size >= 2,
        forall|i: int| 0 <= i < old(t)@.len() ==> #[trigger] row_sound(old(t)@[i]),
    ensures
        final(t)@ == old(t)@.push(row(name, args, one(p), one(m), arch, size)),
        forall|i: int| 0 <= i < final(t)@.len() ==> #[trigger] row_sound(final(t)@[i]),
{
    proof {
        lemma_one_word(p, m);
    }
    t.push(OpCode::new(name, args, one(p), one(m), arch, size));
}

/// Appends a two-word row whose fixed bits lie within its mask.
fn push_two_words(
    t: &mut Vec<OpCode>,
    name: &'static str,
    args: &'static str,
    p1: u32,
    p2: u32,
    m1: u32,
    m2: u32,
    arch: u32,
    size: u16,
)
    requires
        p1 <= 0xffff,
        p2 <= 0xffff,
        m1 <= 0xffff,
        m2 <= 0xffff,
        m2 != 0,
        p1 & !m1 == 0,
        p2 & !m2 == 0,
        arch != 0,
        arch & !ALL_FLAGS == 0,
        size % 2 == 0,
        size >= 4,
        forall|i: int| 0 <= i < old(t)@.len() ==> #[trigger] row_sound(old(t)@[i]),
    ensures
        final(t)@ == old(t)@.push(row(name, args, two(p1, p2), two(m1, m2), arch, size)),
        forall|i: int| 0 <= i < final(t)@.len() ==> #[trigger] row_sound(final(t)@[i]),
{
    proof {
        lemma_two_words(p1, p2, m1, m2);
    }
    t.push(OpCode::new(name, args, two(p1, p2), two(m1, m2), arch, size));
}

/// The rows of `add_rows`, appended to `s`.
pub open spec fn add_group(s: Seq<OpCode>) -> Seq<OpCode> {
    s
        .push(row("abcd", "DsDd", one(0o140400), one(0o170770), M68000UP, 2))
        .push(row("abcd", "-s-d", one(0o140410), one(0o170770), M68000UP, 2))
        .push(row("addaw", "*wAd", one(0o150300), one(0o170700), M68000UP, 2))
        .push(row("addal", "*lAd", one(0o150700), one(0o170700), M68000UP | MCFISA_A, 2))
        .push(row("addib", "#b$s", one(0o003000), one(0o177700), M68000UP, 4))
        .push(row("addiw", "#w$s", one(0o003100), one(0o177700), M68000UP, 4))
        .push(row("addil", "#l$s", one(0o003200), one(0o177700), M68000UP, 6))
        .push(row("addil", "#lDs", one(0o003200), one(0o177700), MCFISA_A, 6))
        .push(row("addqb", "Qd$b", one(0o050000), one(0o170700), M68000UP, 2))
        .push(row("addqw", "Qd%w", one(0o050100), one(0o170700), M68000UP, 2))
        .push(row("addql", "Qd%l", one(0o050200), one(0o170700), M68000UP | MCFISA_A, 2))
        .push(row("addb", "Qd$b", one(0o050000), one(0o170700), M68000UP, 2))
        .push(row("addb", "#b$s", one(0o003000), one(0o177700), M68000UP, 4))
        .push(row("addb", ";bDd", one(0o150000), one(0o170700), M68000UP, 2))
        .push(row("addb", "Dd~b", one(0o150400), one(0o170700), M68000UP, 2))
        .push(row("addw", "Qd%w", one(0o050100), one(0o170700), M68000UP, 2))
        .push(row("addw", "*wAd", one(0o150300), one(0o170700), M68000UP, 2))
        .push(row("addw", "#w$s", one(0o003100), one(0o177700), M68000UP, 4))
        .push(row("addw", "*wDd", one(0o150100), one(0o170700), M68000UP, 2))
        .push(row("addw", "Dd~w", one(0o150500), one(0o170700), M68000UP, 2))
        .push(row("addl", "Qd%l", one(0o050200), one(0o170700), M68000UP | MCFISA_A, 2))
        .push(row("addl", "#l$s", one(0o003200), one(0o177700), M68000UP, 6))
        .push(row("addl", "#lDs", one(0o003200), one(0o177700), MCFISA_A, 6))
        .push(row("addl", "*lAd", one(0o150700), one(0o170700), M68000UP | MCFISA_A, 2))
        .push(row("addl", "*lDd", one(0o150200), one(0o170700), M68000UP | MCFISA_A, 2))
        .push(row("addl", "Dd~l", one(0o150600), one(0o170700), M68000UP | MCFISA_A, 2))
        .push(row("addxb", "DsDd", one(0o150400), one(0o170770), M68000UP, 2))
        .push(row("addxb", "-s-d", one(0o150410), one(0o170770), M68000UP, 2))
        .push(row("addxw", "DsDd", one(0o150500), one(0o170770), M68000UP, 2))
        .push(row("addxw", "-s-d", one(0o150510), one(0o170770), M68000UP, 2))
        .push(row("addxl", "DsDd", one(0o150600), one(0o170770), M68000UP | MCFISA_A, 2))
        .push(row("addxl", "-s-d", one(0o150610), one(0o170770), M68000UP, 2))
}

/// The rows of `and_rows`, appended to `s`.
pub open spec fn and_group(s: Seq<OpCode>) -> Seq<OpCode> {
    s
        .push(row("andib", "#b$s", one(0o001000), one(0o177700), M68000UP, 4))
        .push(row("andib", "#bCs", one(0o001074), one(0o177777), M68000UP, 4))
        .push(row("andiw", "#w$s", one(0o001100), one(0o177700), M68000UP, 4))
        .push(row("andiw", "#wSs", one(0o001174), one(0o177777), M68000UP, 4))
        .push(row("andil", "#l$s", one(0o001200), one(0o177700), M68000UP, 6))
        .push(row("andil", "#lDs", one(0o001200), one(0o177700), MCFISA_A, 6))
        .push(row("andi", "#w$s", one(0o001100), one(0o177700), M68000UP, 4))
        .push(row("andi", "#bCs", one(0o001074), one(0o177777), M68000UP, 4))
        .push(row("andi", "#wSs", one(0o001174), one(0o177777), M68000UP, 4))
        .push(row("andb", "#b$s", one(0o001000), one(0o177700), M68000UP, 4))
        .push(row("andb", "#bCs", one(0o001074), one(0o177777), M68000UP, 4))
        .push(row("andb", ";bDd", one(0o140000), one(0o170700), M68000UP, 2))
        .push(row("andb", "Dd~b", one(0o140400), one(0o170700), M68000UP, 2))
        .push(row("andw", "#w$s", one(0o001100), one(0o177700), M68000UP, 4))
        .push(row("andw", "#wSs", one(0o001174), one(0o177777), M68000UP, 4))
        .push(row("andw", ";wDd", one(0o140100), one(0o170700), M68000UP, 2))
        .push(row("andw", "Dd~w", one(0o140500), one(0o170700), M68000UP, 2))
        .push(row("andl", "#l$s", one(0o001200), one(0o177700), M68000UP, 6))
        .push(row("andl", "#lDs", one(0o001200), one(0o177700), MCFISA_A, 6))
        .push(row("andl", ";lDd", one(0o140200), one(0o170700), M68000UP | MCFISA_A, 2))
        .push(row("andl", "Dd~l", one(0o140600), one(0o170700), M68000UP | MCFISA_A, 2))
        .push(row("and", "#w$w", one(0o001100), one(0o177700), M68000UP, 4))
        .push(row("and", "#bCs", one(0o001074), one(0o177777), M68000UP, 4))
        .push(row("and", "#wSs", one(0o001174), one(0o177777), M68000UP, 4))
        .push(row("and", ";wDd", one(0o140100), one(0o170700), M68000UP, 2))
        .push(row("and", "Dd~w", one(0o140500), one(0o170700), M68000UP, 2))
}

/// The rows of `shift_rows`, appended to `s`.
pub open spec fn shift_group(s: Seq<OpCode>) -> Seq<OpCode> {
    s
        .push(row("aslb", "QdDs", one(0o160400), one(0o170770), M68000UP, 2))
        .push(row("aslb", "DdDs", one(0o160440), one(0o170770), M68000UP, 2))
        .push(row("aslw", "QdDs", one(0o160500), one(0o170770), M68000UP, 2))
        .push(row("aslw", "DdDs", one(0o160540), one(0o170770), M68000UP, 2))
        .push(row("aslw", "~s", one(0o160700), one(0o177700), M68000UP, 2))
        .push(row("asll", "QdDs", one(0o160600), one(0o170770), M68000UP | MCFISA_A, 2))
        .push(row("asll", "DdDs", one(0o160640), one(0o170770), M68000UP | MCFISA_A, 2))
        .push(row("asrb", "QdDs", one(0o160000), one(0o170770), M68000UP, 2))
        .push(row("asrb", "DdDs", one(0o160040), one(0o170770), M68000UP, 2))
        .push(row("asrw", "QdDs", one(0o160100), one(0o170770), M68000UP, 2))
        .push(row("asrw", "DdDs", one(0o160140), one(0o170770), M68000UP, 2))
        .push(row("asrw", "~s", one(0o160300), one(0o177700), M68000UP, 2))
        .push(row("asrl", "QdDs", one(0o160200), one(0o170770), M68000UP | MCFISA_A, 2))
        .push(row("asrl", "DdDs", one(0o160240), one(0o170770), M68000UP | MCFISA_A, 2))
}

/// The rows of `branch_rows`, appended to `s`.
pub open spec fn branch_group(s: Seq<OpCode>) -> Seq<OpCode> {
    s
        .push(row("bhiw", "BW", one(0o061000), one(0o177777), M68000UP | MCFISA_A, 2))
        .push(row("blsw", "BW", one(0o061400), one(0o177777), M68000UP | MCFISA_A, 2))
        .push(row("bccw", "BW", one(0o062000), one(0o177777), M68000UP | MCFISA_A, 2))
        .push(row("bcsw", "BW", one(0o062400), one(0o177777), M68000UP | MCFISA_A, 2))
        .push(row("bnew", "BW", one(0o063000), one(0o177777), M68000UP | MCFISA_A, 2))
        .push(row("beqw", "BW", one(0o063400), one(0o177777), M68000UP | MCFISA_A, 2))
        .push(row("bvcw", "BW", one(0o064000), one(0o177777), M68000UP | MCFISA_A, 2))
        .push(row("bvsw", "BW", one(0o064400), one(0o177777), M68000UP | MCFISA_A, 2))
        .push(row("bplw", "BW", one(0o065000), one(0o177777), M68000UP | MCFISA_A, 2))
        .push(row("bmiw", "BW", one(0o065400), one(0o177777), M68000UP | MCFISA_A, 2))
        .push(row("bgew", "BW", one(0o066000), one(0o177777), M68000UP | MCFISA_A, 2))
        .push(row("bltw", "BW", one(0o066400), one(0o177777), M68000UP | MCFISA_A, 2))
        .push(row("bgtw", "BW", one(0o067000), one(0o177777), M68000UP | MCFISA_A, 2))
        .push(row("blew", "BW", one(0o067400), one(0o177777), M68000UP | MCFISA_A, 2))
        .push(row("bhil", "BL", one(0o061377), one(0o177777), M68020UP | CPU32 | FIDO_A | MCFISA_B | MCFISA_C, 2))
        .push(row("blsl", "BL", one(0o061777), one(0o177777), M68020UP | CPU32 | FIDO_A | MCFISA_B | MCFISA_C, 2))
        .push(row("bccl", "BL", one(0o062377), one(0o177777), M68020UP | CPU32 | FIDO_A | MCFISA_B | MCFISA_C, 2))
        .push(row("bcsl", "BL", one(0o062777), one(0o177777), M68020UP | CPU32 | FIDO_A | MCFISA_B | MCFISA_C, 2))
        .push(row("bnel", "BL", one(0o063377), one(0o177777), M68020UP | CPU32 | FIDO_A | MCFISA_B | MCFISA_C, 2))
        .push(row("beql", "BL", one(0o063777), one(0o177777), M68020UP | CPU32 | FIDO_A | MCFISA_B | MCFISA_C, 2))
        .push(row("bvcl", "BL", one(0o064377), one(0o177777), M68020UP | CPU32 | FIDO_A | MCFISA_B | MCFISA_C, 2))
        .push(row("bvsl", "BL", one(0o064777), one(0o177777), M68020UP | CPU32 | FIDO_A | MCFISA_B | MCFISA_C, 2))
        .push(row("bpll", "BL", one(0o065377), one(0o177777), M68020UP | CPU32 | FIDO_A | MCFISA_B | MCFISA_C, 2))
        .push(row("bmil", "BL", one(0o065777), one(0o177777), M68020UP | CPU32 | FIDO_A | MCFISA_B | MCFISA_C, 2))
        .push(row("bgel", "BL", one(0o066377), one(0o177777), M68020UP | CPU32 | FIDO_A | MCFISA_B | MCFISA_C, 2))
        .push(row("bltl", "BL", one(0o066777), one(0o177777), M68020UP | CPU32 | FIDO_A | MCFISA_B | MCFISA_C, 2))
        .push(row("bgtl", "BL", one(0o067377), one(0o177777), M68020UP | CPU32 | FIDO_A | MCFISA_B | MCFISA_C, 2))
        .push(row("blel", "BL", one(0o067777), one(0o177777), M68020UP | CPU32 | FIDO_A | MCFISA_B | MCFISA_C, 2))
        .push(row("bhis", "BB", one(0o061000), one(0o177400), M68000UP | MCFISA_A, 2))
        .push(row("blss", "BB", one(0o061400), one(0o177400), M68000UP | MCFISA_A, 2))
        .push(row("bccs", "BB", one(0o062000), one(0o177400), M68000UP | MCFISA_A, 2))
        .push(row("bcss", "BB", one(0o062400), one(0o177400), M68000UP | MCFISA_A, 2))
        .push(row("bnes", "BB", one(0o063000), one(0o177400), M68000UP | MCFISA_A, 2))
        .push(row("beqs", "BB", one(0o063400), one(0o177400), M68000UP | MCFISA_A, 2))
        .push(row("bvcs", "BB", one(0o064000), one(0o177400), M68000UP | MCFISA_A, 2))
        .push(row("bvss", "BB", one(0o064400), one(0o177400), M68000UP | MCFISA_A, 2))
        .push(row("bpls", "BB", one(0o065000), one(0o177400), M68000UP | MCFISA_A, 2))
        .push(row("bmis", "BB", one(0o065400), one(0o177400), M68000UP | MCFISA_A, 2))
        .push(row("bges", "BB", one(0o066000), one(0o177400), M68000UP | MCFISA_A, 2))
        .push(row("blts", "BB", one(0o066400), one(0o177400), M68000UP | MCFISA_A, 2))
        .push(row("bgts", "BB", one(0o067000), one(0o177400), M68000UP | MCFISA_A, 2))
        .push(row("bles", "BB", one(0o067400), one(0o177400), M68000UP | MCFISA_A, 2))
        .push(row("jhi", "Bg", one(0o061000), one(0o177400), M68000UP | MCFISA_A, 2))
        .push(row("jls", "Bg", one(0o061400), one(0o177400), M68000UP | MCFISA_A, 2))
        .push(row("jcc", "Bg", one(0o062000), one(0o177400), M68000UP | MCFISA_A, 2))
        .push(row("jcs", "Bg", one(0o062400), one(0o177400), M68000UP | MCFISA_A, 2))
        .push(row("jne", "Bg", one(0o063000), one(0o177400), M68000UP | MCFISA_A, 2))
        .push(row("jeq", "Bg", one(0o063400), one(0o177400), M68000UP | MCFISA_A, 2))
        .push(row("jvc", "Bg", one(0o064000), one(0o177400), M68000UP | MCFISA_A, 2))
        .push(row("jvs", "Bg", one(0o064400), one(0o177400), M68000UP | MCFISA_A, 2))
        .push(row("jpl", "Bg", one(0o065000), one(0o177400), M68000UP | MCFISA_A, 2))
        .push(row("jmi", "Bg", one(0o065400), one(0o177400), M68000UP | MCFISA_A, 2))
        .push(row("jge", "Bg", one(0o066000), one(0o177400), M68000UP | MCFISA_A, 2))
        .push(row("jlt", "Bg", one(0o066400), one(0o177400), M68000UP | MCFISA_A, 2))
        .push(row("jgt", "Bg", one(0o067000), one(0o177400), M68000UP | MCFISA_A, 2))
        .push(row("jle", "Bg", one(0o067400), one(0o177400), M68000UP | MCFISA_A, 2))
}

/// The rows of `bit_rows`, appended to `s`.
pub open spec fn bit_group(s: Seq<OpCode>) -> Seq<OpCode> {
    s
        .push(row("bchg", "Dd$s", one(0o000500), one(0o170700), M68000UP | MCFISA_A, 2))
        .push(row("bchg", "#b$s", one(0o004100), one(0o177700), M68000UP, 4))
        .push(row("bchg", "#bqs", one(0o004100), one(0o177700), MCFISA_A, 4))
        .push(row("bclr", "Dd$s", one(0o000600), one(0o170700), M68000UP | MCFISA_A, 2))
        .push(row("bclr", "#b$s", one(0o004200), one(0o177700), M68000UP, 4))
        .push(row("bclr", "#bqs", one(0o004200), one(0o177700), MCFISA_A, 4))
        .push(row("bfchg", "?sO2O3", two(0o165300, 0), two(0o177700, 0o170000), M68020UP, 4))
        .push(row("bfclr", "?sO2O3", two(0o166300, 0), two(0o177700, 0o170000), M68020UP, 4))
        .push(row("bfexts", "/sO2O3D1", two(0o165700, 0), two(0o177700, 0o100000), M68020UP, 4))
        .push(row("bfextu", "/sO2O3D1", two(0o164700, 0), two(0o177700, 0o100000), M68020UP, 4))
        .push(row("bfffo", "/sO2O3D1", two(0o166700, 0), two(0o177700, 0o100000), M68020UP, 4))
        .push(row("bfins", "D1?sO2O3", two(0o167700, 0), two(0o177700, 0o100000), M68020UP, 4))
        .push(row("bfset", "?sO2O3", two(0o167300, 0), two(0o177700, 0o170000), M68020UP, 4))
        .push(row("bftst", "/sO2O3", two(0o164300, 0), two(0o177700, 0o170000), M68020UP, 4))
        .push(row("bgnd", "", one(0o045372), one(0o177777), CPU32 | FIDO_A, 2))
        .push(row("bitrev", "Ds", one(0o000300), one(0o177770), MCFISA_AA | MCFISA_C, 2))
        .push(row("bkpt", "ts", one(0o044110), one(0o177770), M68010UP, 2))
        .push(row("braw", "BW", one(0o060000), one(0o177777), M68000UP | MCFISA_A, 2))
        .push(row("bral", "BL", one(0o060377), one(0o177777), M68020UP | CPU32 | FIDO_A | MCFISA_B, 2))
        .push(row("bras", "BB", one(0o060000), one(0o177400), M68000UP | MCFISA_A, 2))
        .push(row("bset", "Dd$s", one(0o000700), one(0o170700), M68000UP | MCFISA_A, 2))
        .push(row("bset", "Ddvs", one(0o000700), one(0o170700), MCFISA_A, 2))
        .push(row("bset", "#b$s", one(0o004300), one(0o177700), M68000UP, 4))
        .push(row("bset", "#bqs", one(0o004300), one(0o177700), MCFISA_A, 4))
        .push(row("bsrw", "BW", one(0o060400), one(0o177777), M68000UP | MCFISA_A, 2))
        .push(row("bsrl", "BL", one(0o060777), one(0o177777), M68020UP | CPU32 | FIDO_A | MCFISA_B | MCFISA_C, 2))
        .push(row("bsrs", "BB", one(0o060400), one(0o177400), M68000UP | MCFISA_A, 2))
        .push(row("btst", "Dd;b", one(0o000400), one(0o170700), M68000UP | MCFISA_A, 2))
        .push(row("btst", "#b@s", one(0o004000), one(0o177700), M68000UP, 4))
        .push(row("btst", "#bqs", one(0o004000), one(0o177700), MCFISA_A, 4))
        .push(row("byterev", "Ds", one(0o001300), one(0o177770), MCFISA_A | MCFISA_C, 2))
}

/// The rows of `compare_rows`, appended to `s`.
pub open spec fn compare_group(s: Seq<OpCode>) -> Seq<OpCode> {
    s
        .push(row("callm", "#b!s", one(0o003300), one(0o177700), M68020, 4))
        .push(row("cas2w", "D3D6D2D5R1R4", two(0o006374, 0), two(0o177777, 0o007070), M68020UP, 6))
        .push(row("cas2w", "D3D6D2D5r1r4", two(0o006374, 0), two(0o177777, 0o007070), M68020UP, 6))
        .push(row("cas2l", "D3D6D2D5r1r4", two(0o007374, 0), two(0o177777, 0o007070), M68020UP, 6))
        .push(row("cas2l", "D3D6D2D5R1R4", two(0o007374, 0), two(0o177777, 0o007070), M68020UP, 6))
        .push(row("casb", "D3D2~s", two(0o005300, 0), two(0o177700, 0o177070), M68020UP, 4))
        .push(row("casw", "D3D2~s", two(0o006300, 0), two(0o177700, 0o177070), M68020UP, 4))
        .push(row("casl", "D3D2~s", two(0o007300, 0), two(0o177700, 0o177070), M68020UP, 4))
        .push(row("chk2b", "!sR1", two(0o000300, 0o004000), two(0o177700, 0o7777), M68020UP | CPU32 | FIDO_A, 4))
        .push(row("chk2w", "!sR1", two(0o001300, 0o004000), two(0o177700, 0o7777), M68020UP | CPU32 | FIDO_A, 4))
        .push(row("chk2l", "!sR1", two(0o002300, 0o004000), two(0o177700, 0o7777), M68020UP | CPU32 | FIDO_A, 4))
        .push(row("chkl", ";lDd", one(0o040400), one(0o170700), M68000UP, 2))
        .push(row("chkw", ";wDd", one(0o040600), one(0o170700), M68000UP, 2))
        .push(row("cinva", "ce", one(0xf400 | SCOPE_ALL), one(0xff38), M68040UP, 2))
        .push(row("cinvl", "ceas", one(0xf400 | SCOPE_LINE), one(0xff38), M68040UP, 2))
        .push(row("cinvp", "ceas", one(0xf400 | SCOPE_PAGE), one(0xff38), M68040UP, 2))
        .push(row("cpusha", "ce", one(0xf420 | SCOPE_ALL), one(0xff38), M68040UP, 2))
        .push(row("cpushl", "ceas", one(0xf420 | SCOPE_LINE), one(0xff38), M68040UP | MCFISA_A, 2))
        .push(row("cpushp", "ceas", one(0xf420 | SCOPE_PAGE), one(0xff38), M68040UP, 2))
        .push(row("clrb", "$s", one(0o041000), one(0o177700), M68000UP | MCFISA_A, 2))
        .push(row("clrw", "$s", one(0o041100), one(0o177700), M68000UP | MCFISA_A, 2))
        .push(row("clrl", "$s", one(0o041200), one(0o177700), M68000UP | MCFISA_A, 2))
        .push(row("cmp2b", "!sR1", two(0o000300, 0), two(0o177700, 0o7777), M68020UP | CPU32 | FIDO_A, 4))
        .push(row("cmp2w", "!sR1", two(0o001300, 0), two(0o177700, 0o7777), M68020UP | CPU32 | FIDO_A, 4))
        .push(row("cmp2l", "!sR1", two(0o002300, 0), two(0o177700, 0o7777), M68020UP | CPU32 | FIDO_A, 4))
        .push(row("cmpaw", "*wAd", one(0o130300), one(0o170700), M68000UP, 2))
        .push(row("cmpal", "*lAd", one(0o130700), one(0o170700), M68000UP | MCFISA_A, 2))
        .push(row("cmpib", "#b@s", one(0o006000), one(0o177700), M68000UP, 4))
        .push(row("cmpib", "#bDs", one(0o006000), one(0o177700), MCFISA_B | MCFISA_C, 4))
        .push(row("cmpiw", "#w@s", one(0o006100), one(0o177700), M68000UP, 4))
        .push(row("cmpiw", "#wDs", one(0o006100), one(0o177700), MCFISA_B | MCFISA_C, 4))
        .push(row("cmpil", "#l@s", one(0o006200), one(0o177700), M68000UP, 6))
        .push(row("cmpil", "#lDs", one(0o006200), one(0o177700), MCFISA_A, 6))
        .push(row("cmpmb", "+s+d", one(0o130410), one(0o170770), M68000UP, 2))
        .push(row("cmpmw", "+s+d", one(0o130510), one(0o170770), M68000UP, 2))
        .push(row("cmpml", "+s+d", one(0o130610), one(0o170770), M68000UP, 2))
}

/// Decimal add, and add in its address, immediate, quick and extended forms.
fn add_rows(t: &mut Vec<OpCode>)
    requires
        forall|i: int| 0 <= i < old(t)@.len() ==> #[trigger] row_sound(old(t)@[i]),
    ensures
        final(t)@ == add_group(old(t)@),
        forall|i: int| 0 <= i < final(t)@.len() ==> #[trigger] row_sound(final(t)@[i]),
{
    assert(
        0o140400u32 & !0o170770u32 == 0
        && 0o140410u32 & !0o170770u32 == 0
        && 0o150300u32 & !0o170700u32 == 0
        && 0o150700u32 & !0o170700u32 == 0
        && 0o003000u32 & !0o177700u32 == 0
        && 0o003100u32 & !0o177700u32 == 0
        && 0o003200u32 & !0o177700u32 == 0
        && 0o050000u32 & !0o170700u32 == 0
        && 0o050100u32 & !0o170700u32 == 0
        && 0o050200u32 & !0o170700u32 == 0
        && 0o150000u32 & !0o170700u32 == 0
        && 0o150400u32 & !0o170700u32 == 0
        && 0o150100u32 & !0o170700u32 == 0
        && 0o150500u32 & !0o170700u32 == 0
        && 0o150200u32 & !0o170700u32 == 0
        && 0o150600u32 & !0o170700u32 == 0
        && 0o150400u32 & !0o170770u32 == 0
        && 0o150410u32 & !0o170770u32 == 0
        && 0o150500u32 & !0o170770u32 == 0
        && 0o150510u32 & !0o170770u32 == 0
        && 0o150600u32 & !0o170770u32 == 0
        && 0o150610u32 & !0o170770u32 == 0
        && (M68000UP) & !ALL_FLAGS == 0
        && (M68000UP) != 0
        && (M68000UP | MCFISA_A) & !ALL_FLAGS == 0
        && (M68000UP | MCFISA_A) != 0
        && (MCFISA_A) & !ALL_FLAGS == 0
        && (MCFISA_A) != 0
    ) by (bit_vector);
    push_one_word(t, "abcd", "DsDd", 0o140400, 0o170770, M68000UP, 2);
    push_one_word(t, "abcd", "-s-d", 0o140410, 0o170770, M68000UP, 2);

    push_one_word(t, "addaw", "*wAd", 0o150300, 0o170700, M68000UP, 2);
    push_one_word(t, "addal", "*lAd", 0o150700, 0o170700, M68000UP | MCFISA_A, 2);

    push_one_word(t, "addib", "#b$s", 0o003000, 0o177700, M68000UP, 4);
    push_one_word(t, "addiw", "#w$s", 0o003100, 0o177700, M68000UP, 4);
    push_one_word(t, "addil", "#l$s", 0o003200, 0o177700, M68000UP, 6);
    push_one_word(t, "addil", "#lDs", 0o003200, 0o177700, MCFISA_A, 6);

    push_one_word(t, "addqb", "Qd$b", 0o050000, 0o170700, M68000UP, 2);
    push_one_word(t, "addqw", "Qd%w", 0o050100, 0o170700, M68000UP, 2);
    push_one_word(t, "addql", "Qd%l", 0o050200, 0o170700, M68000UP | MCFISA_A, 2);

    // The add opcode can generate the adda, addi, and addq instructions.
    push_one_word(t, "addb", "Qd$b", 0o050000, 0o170700, M68000UP, 2);
    push_one_word(t, "addb", "#b$s", 0o003000, 0o177700, M68000UP, 4);
    push_one_word(t, "addb", ";bDd", 0o150000, 0o170700, M68000UP, 2);
    push_one_word(t, "addb", "Dd~b", 0o150400, 0o170700, M68000UP, 2);
    push_one_word(t, "addw", "Qd%w", 0o050100, 0o170700, M68000UP, 2);
    push_one_word(t, "addw", "*wAd", 0o150300, 0o170700, M68000UP, 2);
    push_one_word(t, "addw", "#w$s", 0o003100, 0o177700, M68000UP, 4);
    push_one_word(t, "addw", "*wDd", 0o150100, 0o170700, M68000UP, 2);
    push_one_word(t, "addw", "Dd~w", 0o150500, 0o170700, M68000UP, 2);
    push_one_word(t, "addl", "Qd%l", 0o050200, 0o170700, M68000UP | MCFISA_A, 2);
    push_one_word(t, "addl", "#l$s", 0o003200, 0o177700, M68000UP, 6);
    push_one_word(t, "addl", "#lDs", 0o003200, 0o177700, MCFISA_A, 6);
    push_one_word(t, "addl", "*lAd", 0o150700, 0o170700, M68000UP | MCFISA_A, 2);
    push_one_word(t, "addl", "*lDd", 0o150200, 0o170700, M68000UP | MCFISA_A, 2);
    push_one_word(t, "addl", "Dd~l", 0o150600, 0o170700, M68000UP | MCFISA_A, 2);

    push_one_word(t, "addxb", "DsDd", 0o150400, 0o170770, M68000UP, 2);
    push_one_word(t, "addxb", "-s-d", 0o150410, 0o170770, M68000UP, 2);
    push_one_word(t, "addxw", "DsDd", 0o150500, 0o170770, M68000UP, 2);
    push_one_word(t, "addxw", "-s-d", 0o150510, 0o170770, M68000UP, 2);
    push_one_word(t, "addxl", "DsDd", 0o150600, 0o170770, M68000UP | MCFISA_A, 2);
    push_one_word(t, "addxl", "-s-d", 0o150610, 0o170770, M68000UP, 2);
}

/// Logical and, immediate and general forms.
fn and_rows(t: &mut Vec<OpCode>)
    requires
        forall|i: int| 0 <= i < old(t)@.len() ==> #[trigger] row_sound(old(t)@[i]),
    ensures
        final(t)@ == and_group(old(t)@),
        forall|i: int| 0 <= i < final(t)@.len() ==> #[trigger] row_sound(final(t)@[i]),
{
    assert(
        0o001000u32 & !0o177700u32 == 0
        && 0o001074u32 & !0o177777u32 == 0
        && 0o001100u32 & !0o177700u32 == 0
        && 0o001174u32 & !0o177777u32 == 0
        && 0o001200u32 & !0o177700u32 == 0
        && 0o140000u32 & !0o170700u32 == 0
        && 0o140400u32 & !0o170700u32 == 0
        && 0o140100u32 & !0o170700u32 == 0
        && 0o140500u32 & !0o170700u32 == 0
        && 0o140200u32 & !0o170700u32 == 0
        && 0o140600u32 & !0o170700u32 == 0
        && (M68000UP) & !ALL_FLAGS == 0
        && (M68000UP) != 0
        && (MCFISA_A) & !ALL_FLAGS == 0
        && (MCFISA_A) != 0
        && (M68000UP | MCFISA_A) & !ALL_FLAGS == 0
        && (M68000UP | MCFISA_A) != 0
    ) by (bit_vector);
    push_one_word(t, "andib", "#b$s", 0o001000, 0o177700, M68000UP, 4);
    push_one_word(t, "andib", "#bCs", 0o001074, 0o177777, M68000UP, 4);
    push_one_word(t, "andiw", "#w$s", 0o001100, 0o177700, M68000UP, 4);
    push_one_word(t, "andiw", "#wSs", 0o001174, 0o177777, M68000UP, 4);
    push_one_word(t, "andil", "#l$s", 0o001200, 0o177700, M68000UP, 6);
    push_one_word(t, "andil", "#lDs", 0o001200, 0o177700, MCFISA_A, 6);
    push_one_word(t, "andi", "#w$s", 0o001100, 0o177700, M68000UP, 4);
    push_one_word(t, "andi", "#bCs", 0o001074, 0o177777, M68000UP, 4);
    push_one_word(t, "andi", "#wSs", 0o001174, 0o177777, M68000UP, 4);

    // The and opcode can generate the andi instruction.
    push_one_word(t, "andb", "#b$s", 0o001000, 0o177700, M68000UP, 4);
    push_one_word(t, "andb", "#bCs", 0o001074, 0o177777, M68000UP, 4);
    push_one_word(t, "andb", ";bDd", 0o140000, 0o170700, M68000UP, 2);
    push_one_word(t, "andb", "Dd~b", 0o140400, 0o170700, M68000UP, 2);
    push_one_word(t, "andw", "#w$s", 0o001100, 0o177700, M68000UP, 4);
    push_one_word(t, "andw", "#wSs", 0o001174, 0o177777, M68000UP, 4);
    push_one_word(t, "andw", ";wDd", 0o140100, 0o170700, M68000UP, 2);
    push_one_word(t, "andw", "Dd~w", 0o140500, 0o170700, M68000UP, 2);
    push_one_word(t, "andl", "#l$s", 0o001200, 0o177700, M68000UP, 6);
    push_one_word(t, "andl", "#lDs", 0o001200, 0o177700, MCFISA_A, 6);
    push_one_word(t, "andl", ";lDd", 0o140200, 0o170700, M68000UP | MCFISA_A, 2);
    push_one_word(t, "andl", "Dd~l", 0o140600, 0o170700, M68000UP | MCFISA_A, 2);
    push_one_word(t, "and", "#w$w", 0o001100, 0o177700, M68000UP, 4);
    push_one_word(t, "and", "#bCs", 0o001074, 0o177777, M68000UP, 4);
    push_one_word(t, "and", "#wSs", 0o001174, 0o177777, M68000UP, 4);
    push_one_word(t, "and", ";wDd", 0o140100, 0o170700, M68000UP, 2);
    push_one_word(t, "and", "Dd~w", 0o140500, 0o170700, M68000UP, 2);
}

/// Arithmetic shifts left and right.
fn shift_rows(t: &mut Vec<OpCode>)
    requires
        forall|i: int| 0 <= i < old(t)@.len() ==> #[trigger] row_sound(old(t)@[i]),
    ensures
        final(t)@ == shift_group(old(t)@),
        forall|i: int| 0 <= i < final(t)@.len() ==> #[trigger] row_sound(final(t)@[i]),
{
    assert(
        0o160400u32 & !0o170770u32 == 0
        && 0o160440u32 & !0o170770u32 == 0
        && 0o160500u32 & !0o170770u32 == 0
        && 0o160540u32 & !0o170770u32 == 0
        && 0o160700u32 & !0o177700u32 == 0
        && 0o160600u32 & !0o170770u32 == 0
        && 0o160640u32 & !0o170770u32 == 0
        && 0o160000u32 & !0o170770u32 == 0
        && 0o160040u32 & !0o170770u32 == 0
        && 0o160100u32 & !0o170770u32 == 0
        && 0o160140u32 & !0o170770u32 == 0
        && 0o160300u32 & !0o177700u32 == 0
        && 0o160200u32 & !0o170770u32 == 0
        && 0o160240u32 & !0o170770u32 == 0
        && (M68000UP) & !ALL_FLAGS == 0
        && (M68000UP) != 0
        && (M68000UP | MCFISA_A) & !ALL_FLAGS == 0
        && (M68000UP | MCFISA_A) != 0
    ) by (bit_vector);
    push_one_word(t, "aslb", "QdDs", 0o160400, 0o170770, M68000UP, 2);
    push_one_word(t, "aslb", "DdDs", 0o160440, 0o170770, M68000UP, 2);
    push_one_word(t, "aslw", "QdDs", 0o160500, 0o170770, M68000UP, 2);
    push_one_word(t, "aslw", "DdDs", 0o160540, 0o170770, M68000UP, 2);
    push_one_word(t, "aslw", "~s", 0o160700, 0o177700, M68000UP, 2);
    push_one_word(t, "asll", "QdDs", 0o160600, 0o170770, M68000UP | MCFISA_A, 2);
    push_one_word(t, "asll", "DdDs", 0o160640, 0o170770, M68000UP | MCFISA_A, 2);

    push_one_word(t, "asrb", "QdDs", 0o160000, 0o170770, M68000UP, 2);
    push_one_word(t, "asrb", "DdDs", 0o160040, 0o170770, M68000UP, 2);
    push_one_word(t, "asrw", "QdDs", 0o160100, 0o170770, M68000UP, 2);
    push_one_word(t, "asrw", "DdDs", 0o160140, 0o170770, M68000UP, 2);
    push_one_word(t, "asrw", "~s", 0o160300, 0o177700, M68000UP, 2);
    push_one_word(t, "asrl", "QdDs", 0o160200, 0o170770, M68000UP | MCFISA_A, 2);
    push_one_word(t, "asrl", "DdDs", 0o160240, 0o170770, M68000UP | MCFISA_A, 2);
}

/// Conditional branches (word, long and short displacement) and jumps.
fn branch_rows(t: &mut Vec<OpCode>)
    requires
        forall|i: int| 0 <= i < old(t)@.len() ==> #[trigger] row_sound(old(t)@[i]),
    ensures
        final(t)@ == branch_group(old(t)@),
        forall|i: int| 0 <= i < final(t)@.len() ==> #[trigger] row_sound(final(t)@[i]),
{
    assert(
        0o061000u32 & !0o177777u32 == 0
        && 0o061400u32 & !0o177777u32 == 0
        && 0o062000u32 & !0o177777u32 == 0
        && 0o062400u32 & !0o177777u32 == 0
        && 0o063000u32 & !0o177777u32 == 0
        && 0o063400u32 & !0o177777u32 == 0
        && 0o064000u32 & !0o177777u32 == 0
        && 0o064400u32 & !0o177777u32 == 0
        && 0o065000u32 & !0o177777u32 == 0
        && 0o065400u32 & !0o177777u32 == 0
        && 0o066000u32 & !0o177777u32 == 0
        && 0o066400u32 & !0o177777u32 == 0
        && 0o067000u32 & !0o177777u32 == 0
        && 0o067400u32 & !0o177777u32 == 0
        && 0o061377u32 & !0o177777u32 == 0
        && 0o061777u32 & !0o177777u32 == 0
        && 0o062377u32 & !0o177777u32 == 0
        && 0o062777u32 & !0o177777u32 == 0
        && 0o063377u32 & !0o177777u32 == 0
        && 0o063777u32 & !0o177777u32 == 0
        && 0o064377u32 & !0o177777u32 == 0
        && 0o064777u32 & !0o177777u32 == 0
        && 0o065377u32 & !0o177777u32 == 0
        && 0o065777u32 & !0o177777u32 == 0
        && 0o066377u32 & !0o177777u32 == 0
        && 0o066777u32 & !0o177777u32 == 0
        && 0o067377u32 & !0o177777u32 == 0
        && 0o067777u32 & !0o177777u32 == 0
        && 0o061000u32 & !0o177400u32 == 0
        && 0o061400u32 & !0o177400u32 == 0
        && 0o062000u32 & !0o177400u32 == 0
        && 0o062400u32 & !0o177400u32 == 0
        && 0o063000u32 & !0o177400u32 == 0
        && 0o063400u32 & !0o177400u32 == 0
        && 0o064000u32 & !0o177400u32 == 0
        && 0o064400u32 & !0o177400u32 == 0
        && 0o065000u32 & !0o177400u32 == 0
        && 0o065400u32 & !0o177400u32 == 0
        && 0o066000u32 & !0o177400u32 == 0
        && 0o066400u32 & !0o177400u32 == 0
        && 0o067000u32 & !0o177400u32 == 0
        && 0o067400u32 & !0o177400u32 == 0
        && (M68000UP | MCFISA_A) & !ALL_FLAGS == 0
        && (M68000UP | MCFISA_A) != 0
        && (M68020UP | CPU32 | FIDO_A | MCFISA_B | MCFISA_C) & !ALL_FLAGS == 0
        && (M68020UP | CPU32 | FIDO_A | MCFISA_B | MCFISA_C) != 0
    ) by (bit_vector);
    push_one_word(t, "bhiw", "BW", 0o061000, 0o177777, M68000UP | MCFISA_A, 2);
    push_one_word(t, "blsw", "BW", 0o061400, 0o177777, M68000UP | MCFISA_A, 2);
    push_one_word(t, "bccw", "BW", 0o062000, 0o177777, M68000UP | MCFISA_A, 2);
    push_one_word(t, "bcsw", "BW", 0o062400, 0o177777, M68000UP | MCFISA_A, 2);
    push_one_word(t, "bnew", "BW", 0o063000, 0o177777, M68000UP | MCFISA_A, 2);
    push_one_word(t, "beqw", "BW", 0o063400, 0o177777, M68000UP | MCFISA_A, 2);
    push_one_word(t, "bvcw", "BW", 0o064000, 0o177777, M68000UP | MCFISA_A, 2);
    push_one_word(t, "bvsw", "BW", 0o064400, 0o177777, M68000UP | MCFISA_A, 2);
    push_one_word(t, "bplw", "BW", 0o065000, 0o177777, M68000UP | MCFISA_A, 2);
    push_one_word(t, "bmiw", "BW", 0o065400, 0o177777, M68000UP | MCFISA_A, 2);
    push_one_word(t, "bgew", "BW", 0o066000, 0o177777, M68000UP | MCFISA_A, 2);
    push_one_word(t, "bltw", "BW", 0o066400, 0o177777, M68000UP | MCFISA_A, 2);
    push_one_word(t, "bgtw", "BW", 0o067000, 0o177777, M68000UP | MCFISA_A, 2);
    push_one_word(t, "blew", "BW", 0o067400, 0o177777, M68000UP | MCFISA_A, 2);

    push_one_word(t, "bhil", "BL", 0o061377, 0o177777, M68020UP | CPU32 | FIDO_A | MCFISA_B | MCFISA_C, 2);
    push_one_word(t, "blsl", "BL", 0o061777, 0o177777, M68020UP | CPU32 | FIDO_A | MCFISA_B | MCFISA_C, 2);
    push_one_word(t, "bccl", "BL", 0o062377, 0o177777, M68020UP | CPU32 | FIDO_A | MCFISA_B | MCFISA_C, 2);
    push_one_word(t, "bcsl", "BL", 0o062777, 0o177777, M68020UP | CPU32 | FIDO_A | MCFISA_B | MCFISA_C, 2);
    push_one_word(t, "bnel", "BL", 0o063377, 0o177777, M68020UP | CPU32 | FIDO_A | MCFISA_B | MCFISA_C, 2);
    push_one_word(t, "beql", "BL", 0o063777, 0o177777, M68020UP | CPU32 | FIDO_A | MCFISA_B | MCFISA_C, 2);
    push_one_word(t, "bvcl", "BL", 0o064377, 0o177777, M68020UP | CPU32 | FIDO_A | MCFISA_B | MCFISA_C, 2);
    push_one_word(t, "bvsl", "BL", 0o064777, 0o177777, M68020UP | CPU32 | FIDO_A | MCFISA_B | MCFISA_C, 2);
    push_one_word(t, "bpll", "BL", 0o065377, 0o177777, M68020UP | CPU32 | FIDO_A | MCFISA_B | MCFISA_C, 2);
    push_one_word(t, "bmil", "BL", 0o065777, 0o177777, M68020UP | CPU32 | FIDO_A | MCFISA_B | MCFISA_C, 2);
    push_one_word(t, "bgel", "BL", 0o066377, 0o177777, M68020UP | CPU32 | FIDO_A | MCFISA_B | MCFISA_C, 2);
    push_one_word(t, "bltl", "BL", 0o066777, 0o177777, M68020UP | CPU32 | FIDO_A | MCFISA_B | MCFISA_C, 2);
    push_one_word(t, "bgtl", "BL", 0o067377, 0o177777, M68020UP | CPU32 | FIDO_A | MCFISA_B | MCFISA_C, 2);
    push_one_word(t, "blel", "BL", 0o067777, 0o177777, M68020UP | CPU32 | FIDO_A | MCFISA_B | MCFISA_C, 2);

    push_one_word(t, "bhis", "BB", 0o061000, 0o177400, M68000UP | MCFISA_A, 2);
    push_one_word(t, "blss", "BB", 0o061400, 0o177400, M68000UP | MCFISA_A, 2);
    push_one_word(t, "bccs", "BB", 0o062000, 0o177400, M68000UP | MCFISA_A, 2);
    push_one_word(t, "bcss", "BB", 0o062400, 0o177400, M68000UP | MCFISA_A, 2);
    push_one_word(t, "bnes", "BB", 0o063000, 0o177400, M68000UP | MCFISA_A, 2);
    push_one_word(t, "beqs", "BB", 0o063400, 0o177400, M68000UP | MCFISA_A, 2);
    push_one_word(t, "bvcs", "BB", 0o064000, 0o177400, M68000UP | MCFISA_A, 2);
    push_one_word(t, "bvss", "BB", 0o064400, 0o177400, M68000UP | MCFISA_A, 2);
    push_one_word(t, "bpls", "BB", 0o065000, 0o177400, M68000UP | MCFISA_A, 2);
    push_one_word(t, "bmis", "BB", 0o065400, 0o177400, M68000UP | MCFISA_A, 2);
    push_one_word(t, "bges", "BB", 0o066000, 0o177400, M68000UP | MCFISA_A, 2);
    push_one_word(t, "blts", "BB", 0o066400, 0o177400, M68000UP | MCFISA_A, 2);
    push_one_word(t, "bgts", "BB", 0o067000, 0o177400, M68000UP | MCFISA_A, 2);
    push_one_word(t, "bles", "BB", 0o067400, 0o177400, M68000UP | MCFISA_A, 2);

    push_one_word(t, "jhi", "Bg", 0o061000, 0o177400, M68000UP | MCFISA_A, 2);
    push_one_word(t, "jls", "Bg", 0o061400, 0o177400, M68000UP | MCFISA_A, 2);
    push_one_word(t, "jcc", "Bg", 0o062000, 0o177400, M68000UP | MCFISA_A, 2);
    push_one_word(t, "jcs", "Bg", 0o062400, 0o177400, M68000UP | MCFISA_A, 2);
    push_one_word(t, "jne", "Bg", 0o063000, 0o177400, M68000UP | MCFISA_A, 2);
    push_one_word(t, "jeq", "Bg", 0o063400, 0o177400, M68000UP | MCFISA_A, 2);
    push_one_word(t, "jvc", "Bg", 0o064000, 0o177400, M68000UP | MCFISA_A, 2);
    push_one_word(t, "jvs", "Bg", 0o064400, 0o177400, M68000UP | MCFISA_A, 2);
    push_one_word(t, "jpl", "Bg", 0o065000, 0o177400, M68000UP | MCFISA_A, 2);
    push_one_word(t, "jmi", "Bg", 0o065400, 0o177400, M68000UP | MCFISA_A, 2);
    push_one_word(t, "jge", "Bg", 0o066000, 0o177400, M68000UP | MCFISA_A, 2);
    push_one_word(t, "jlt", "Bg", 0o066400, 0o177400, M68000UP | MCFISA_A, 2);
    push_one_word(t, "jgt", "Bg", 0o067000, 0o177400, M68000UP | MCFISA_A, 2);
    push_one_word(t, "jle", "Bg", 0o067400, 0o177400, M68000UP | MCFISA_A, 2);
}

/// Bit operations, bit fields, and the remaining b-instructions.
fn bit_rows(t: &mut Vec<OpCode>)
    requires
        forall|i: int| 0 <= i < old(t)@.len() ==> #[trigger] row_sound(old(t)@[i]),
    ensures
        final(t)@ == bit_group(old(t)@),
        forall|i: int| 0 <= i < final(t)@.len() ==> #[trigger] row_sound(final(t)@[i]),
{
    assert(
        0o000500u32 & !0o170700u32 == 0
        && 0o004100u32 & !0o177700u32 == 0
        && 0o000600u32 & !0o170700u32 == 0
        && 0o004200u32 & !0o177700u32 == 0
        && 0o165300u32 & !0o177700u32 == 0
        && 0u32 & !0o170000u32 == 0
        && 0o166300u32 & !0o177700u32 == 0
        && 0o165700u32 & !0o177700u32 == 0
        && 0u32 & !0o100000u32 == 0
        && 0o164700u32 & !0o177700u32 == 0
        && 0o166700u32 & !0o177700u32 == 0
        && 0o167700u32 & !0o177700u32 == 0
        && 0o167300u32 & !0o177700u32 == 0
        && 0o164300u32 & !0o177700u32 == 0
        && 0o045372u32 & !0o177777u32 == 0
        && 0o000300u32 & !0o177770u32 == 0
        && 0o044110u32 & !0o177770u32 == 0
        && 0o060000u32 & !0o177777u32 == 0
        && 0o060377u32 & !0o177777u32 == 0
        && 0o060000u32 & !0o177400u32 == 0
        && 0o000700u32 & !0o170700u32 == 0
        && 0o004300u32 & !0o177700u32 == 0
        && 0o060400u32 & !0o177777u32 == 0
        && 0o060777u32 & !0o177777u32 == 0
        && 0o060400u32 & !0o177400u32 == 0
        && 0o000400u32 & !0o170700u32 == 0
        && 0o004000u32 & !0o177700u32 == 0
        && 0o001300u32 & !0o177770u32 == 0
        && (M68000UP | MCFISA_A) & !ALL_FLAGS == 0
        && (M68000UP | MCFISA_A) != 0
        && (M68000UP) & !ALL_FLAGS == 0
        && (M68000UP) != 0
        && (MCFISA_A) & !ALL_FLAGS == 0
        && (MCFISA_A) != 0
        && (M68020UP) & !ALL_FLAGS == 0
        && (M68020UP) != 0
        && (CPU32 | FIDO_A) & !ALL_FLAGS == 0
        && (CPU32 | FIDO_A) != 0
        && (MCFISA_AA | MCFISA_C) & !ALL_FLAGS == 0
        && (MCFISA_AA | MCFISA_C) != 0
        && (M68010UP) & !ALL_FLAGS == 0
        && (M68010UP) != 0
        && (M68020UP | CPU32 | FIDO_A | MCFISA_B) & !ALL_FLAGS == 0
        && (M68020UP | CPU32 | FIDO_A | MCFISA_B) != 0
        && (M68020UP | CPU32 | FIDO_A | MCFISA_B | MCFISA_C) & !ALL_FLAGS == 0
        && (M68020UP | CPU32 | FIDO_A | MCFISA_B | MCFISA_C) != 0
        && (MCFISA_A | MCFISA_C) & !ALL_FLAGS == 0
        && (MCFISA_A | MCFISA_C) != 0
    ) by (bit_vector);
    push_one_word(t, "bchg", "Dd$s", 0o000500, 0o170700, M68000UP | MCFISA_A, 2);
    push_one_word(t, "bchg", "#b$s", 0o004100, 0o177700, M68000UP, 4);
    push_one_word(t, "bchg", "#bqs", 0o004100, 0o177700, MCFISA_A, 4);

    push_one_word(t, "bclr", "Dd$s", 0o000600, 0o170700, M68000UP | MCFISA_A, 2);
    push_one_word(t, "bclr", "#b$s", 0o004200, 0o177700, M68000UP, 4);
    push_one_word(t, "bclr", "#bqs", 0o004200, 0o177700, MCFISA_A, 4);

    push_two_words(t, "bfchg", "?sO2O3", 0o165300, 0, 0o177700, 0o170000, M68020UP, 4);
    push_two_words(t, "bfclr", "?sO2O3", 0o166300, 0, 0o177700, 0o170000, M68020UP, 4);
    push_two_words(t, "bfexts", "/sO2O3D1", 0o165700, 0, 0o177700, 0o100000, M68020UP, 4);
    push_two_words(t, "bfextu", "/sO2O3D1", 0o164700, 0, 0o177700, 0o100000, M68020UP, 4);
    push_two_words(t, "bfffo", "/sO2O3D1", 0o166700, 0, 0o177700, 0o100000, M68020UP, 4);
    push_two_words(t, "bfins", "D1?sO2O3", 0o167700, 0, 0o177700, 0o100000, M68020UP, 4);
    push_two_words(t, "bfset", "?sO2O3", 0o167300, 0, 0o177700, 0o170000, M68020UP, 4);
    push_two_words(t, "bftst", "/sO2O3", 0o164300, 0, 0o177700, 0o170000, M68020UP, 4);

    push_one_word(t, "bgnd", "", 0o045372, 0o177777, CPU32 | FIDO_A, 2);

    push_one_word(t, "bitrev", "Ds", 0o000300, 0o177770, MCFISA_AA | MCFISA_C, 2);

    push_one_word(t, "bkpt", "ts", 0o044110, 0o177770, M68010UP, 2);

    push_one_word(t, "braw", "BW", 0o060000, 0o177777, M68000UP | MCFISA_A, 2);
    push_one_word(t, "bral", "BL", 0o060377, 0o177777, M68020UP | CPU32 | FIDO_A | MCFISA_B, 2);
    push_one_word(t, "bras", "BB", 0o060000, 0o177400, M68000UP | MCFISA_A, 2);

    push_one_word(t, "bset", "Dd$s", 0o000700, 0o170700, M68000UP | MCFISA_A, 2);
    push_one_word(t, "bset", "Ddvs", 0o000700, 0o170700, MCFISA_A, 2);
    push_one_word(t, "bset", "#b$s", 0o004300, 0o177700, M68000UP, 4);
    push_one_word(t, "bset", "#bqs", 0o004300, 0o177700, MCFISA_A, 4);

    push_one_word(t, "bsrw", "BW", 0o060400, 0o177777, M68000UP | MCFISA_A, 2);
    push_one_word(t, "bsrl", "BL", 0o060777, 0o177777, M68020UP | CPU32 | FIDO_A | MCFISA_B | MCFISA_C, 2);
    push_one_word(t, "bsrs", "BB", 0o060400, 0o177400, M68000UP | MCFISA_A, 2);

    push_one_word(t, "btst", "Dd;b", 0o000400, 0o170700, M68000UP | MCFISA_A, 2);
    push_one_word(t, "btst", "#b@s", 0o004000, 0o177700, M68000UP, 4);
    push_one_word(t, "btst", "#bqs", 0o004000, 0o177700, MCFISA_A, 4);

    push_one_word(t, "byterev", "Ds", 0o001300, 0o177770, MCFISA_A | MCFISA_C, 2);
}

/// Module call, compare-and-swap, bounds checks, cache control, clear and compare.
fn compare_rows(t: &mut Vec<OpCode>)
    requires
        forall|i: int| 0 <= i < old(t)@.len() ==> #[trigger] row_sound(old(t)@[i]),
    ensures
        final(t)@ == compare_group(old(t)@),
        forall|i: int| 0 <= i < final(t)@.len() ==> #[trigger] row_sound(final(t)@[i]),
{
    assert(
        0o003300u32 & !0o177700u32 == 0
        && 0o006374u32 & !0o177777u32 == 0
        && 0u32 & !0o007070u32 == 0
        && 0o007374u32 & !0o177777u32 == 0
        && 0o005300u32 & !0o177700u32 == 0
        && 0u32 & !0o177070u32 == 0
        && 0o006300u32 & !0o177700u32 == 0
        && 0o007300u32 & !0o177700u32 == 0
        && 0o000300u32 & !0o177700u32 == 0
        && 0o004000u32 & !0o7777u32 == 0
        && 0o001300u32 & !0o177700u32 == 0
        && 0o002300u32 & !0o177700u32 == 0
        && 0o040400u32 & !0o170700u32 == 0
        && 0o040600u32 & !0o170700u32 == 0
        && (0xf400u32 | SCOPE_ALL) & !0xff38u32 == 0
        && (0xf400u32 | SCOPE_ALL) <= 0xffff
        && (0xf400u32 | SCOPE_LINE) & !0xff38u32 == 0
        && (0xf400u32 | SCOPE_LINE) <= 0xffff
        && (0xf400u32 | SCOPE_PAGE) & !0xff38u32 == 0
        && (0xf400u32 | SCOPE_PAGE) <= 0xffff
        && (0xf420u32 | SCOPE_ALL) & !0xff38u32 == 0
        && (0xf420u32 | SCOPE_ALL) <= 0xffff
        && (0xf420u32 | SCOPE_LINE) & !0xff38u32 == 0
        && (0xf420u32 | SCOPE_LINE) <= 0xffff
        && (0xf420u32 | SCOPE_PAGE) & !0xff38u32 == 0
        && (0xf420u32 | SCOPE_PAGE) <= 0xffff
        && 0o041000u32 & !0o177700u32 == 0
        && 0o041100u32 & !0o177700u32 == 0
        && 0o041200u32 & !0o177700u32 == 0
        && 0u32 & !0o7777u32 == 0
        && 0o130300u32 & !0o170700u32 == 0
        && 0o130700u32 & !0o170700u32 == 0
        && 0o006000u32 & !0o177700u32 == 0
        && 0o006100u32 & !0o177700u32 == 0
        && 0o006200u32 & !0o177700u32 == 0
        && 0o130410u32 & !0o170770u32 == 0
        && 0o130510u32 & !0o170770u32 == 0
        && 0o130610u32 & !0o170770u32 == 0
        && (M68020) & !ALL_FLAGS == 0
        && (M68020) != 0
        && (M68020UP) & !ALL_FLAGS == 0
        && (M68020UP) != 0
        && (M68020UP | CPU32 | FIDO_A) & !ALL_FLAGS == 0
        && (M68020UP | CPU32 | FIDO_A) != 0
        && (M68000UP) & !ALL_FLAGS == 0
        && (M68000UP) != 0
        && (M68040UP) & !ALL_FLAGS == 0
        && (M68040UP) != 0
        && (M68040UP | MCFISA_A) & !ALL_FLAGS == 0
        && (M68040UP | MCFISA_A) != 0
        && (M68000UP | MCFISA_A) & !ALL_FLAGS == 0
        && (M68000UP | MCFISA_A) != 0
        && (MCFISA_B | MCFISA_C) & !ALL_FLAGS == 0
        && (MCFISA_B | MCFISA_C) != 0
        && (MCFISA_A) & !ALL_FLAGS == 0
        && (MCFISA_A) != 0
    ) by (bit_vector);
    push_one_word(t, "callm", "#b!s", 0o003300, 0o177700, M68020, 4);

    push_two_words(t, "cas2w", "D3D6D2D5R1R4", 0o006374, 0, 0o177777, 0o007070, M68020UP, 6);
    push_two_words(t, "cas2w", "D3D6D2D5r1r4", 0o006374, 0, 0o177777, 0o007070, M68020UP, 6);
    push_two_words(t, "cas2l", "D3D6D2D5r1r4", 0o007374, 0, 0o177777, 0o007070, M68020UP, 6);
    push_two_words(t, "cas2l", "D3D6D2D5R1R4", 0o007374, 0, 0o177777, 0o007070, M68020UP, 6);

    push_two_words(t, "casb", "D3D2~s", 0o005300, 0, 0o177700, 0o177070, M68020UP, 4);
    push_two_words(t, "casw", "D3D2~s", 0o006300, 0, 0o177700, 0o177070, M68020UP, 4);
    push_two_words(t, "casl", "D3D2~s", 0o007300, 0, 0o177700, 0o177070, M68020UP, 4);

    push_two_words(t, "chk2b", "!sR1", 0o000300, 0o004000, 0o177700, 0o7777, M68020UP | CPU32 | FIDO_A, 4);
    push_two_words(t, "chk2w", "!sR1", 0o001300, 0o004000, 0o177700, 0o7777, M68020UP | CPU32 | FIDO_A, 4);
    push_two_words(t, "chk2l", "!sR1", 0o002300, 0o004000, 0o177700, 0o7777, M68020UP | CPU32 | FIDO_A, 4);

    push_one_word(t, "chkl", ";lDd", 0o040400, 0o170700, M68000UP, 2);
    push_one_word(t, "chkw", ";wDd", 0o040600, 0o170700, M68000UP, 2);

    push_one_word(t, "cinva", "ce", 0xf400 | SCOPE_ALL, 0xff38, M68040UP, 2);
    push_one_word(t, "cinvl", "ceas", 0xf400 | SCOPE_LINE, 0xff38, M68040UP, 2);
    push_one_word(t, "cinvp", "ceas", 0xf400 | SCOPE_PAGE, 0xff38, M68040UP, 2);
    push_one_word(t, "cpusha", "ce", 0xf420 | SCOPE_ALL, 0xff38, M68040UP, 2);
    push_one_word(t, "cpushl", "ceas", 0xf420 | SCOPE_LINE, 0xff38, M68040UP | MCFISA_A, 2);
    push_one_word(t, "cpushp", "ceas", 0xf420 | SCOPE_PAGE, 0xff38, M68040UP, 2);

    push_one_word(t, "clrb", "$s", 0o041000, 0o177700, M68000UP | MCFISA_A, 2);
    push_one_word(t, "clrw", "$s", 0o041100, 0o177700, M68000UP | MCFISA_A, 2);
    push_one_word(t, "clrl", "$s", 0o041200, 0o177700, M68000UP | MCFISA_A, 2);
    push_two_words(t, "cmp2b", "!sR1", 0o000300, 0, 0o177700, 0o7777, M68020UP | CPU32 | FIDO_A, 4);
    push_two_words(t, "cmp2w", "!sR1", 0o001300, 0, 0o177700, 0o7777, M68020UP | CPU32 | FIDO_A, 4);
    push_two_words(t, "cmp2l", "!sR1", 0o002300, 0, 0o177700, 0o7777, M68020UP | CPU32 | FIDO_A, 4);
    push_one_word(t, "cmpaw", "*wAd", 0o130300, 0o170700, M68000UP, 2);
    push_one_word(t, "cmpal", "*lAd", 0o130700, 0o170700, M68000UP | MCFISA_A, 2);
    push_one_word(t, "cmpib", "#b@s", 0o006000, 0o177700, M68000UP, 4);
    push_one_word(t, "cmpib", "#bDs", 0o006000, 0o177700, MCFISA_B | MCFISA_C, 4);
    push_one_word(t, "cmpiw", "#w@s", 0o006100, 0o177700, M68000UP, 4);
    push_one_word(t, "cmpiw", "#wDs", 0o006100, 0o177700, MCFISA_B | MCFISA_C, 4);
    push_one_word(t, "cmpil", "#l@s", 0o006200, 0o177700, M68000UP, 6);
    push_one_word(t, "cmpil", "#lDs", 0o006200, 0o177700, MCFISA_A, 6);
    push_one_word(t, "cmpmb", "+s+d", 0o130410, 0o170770, M68000UP, 2);
    push_one_word(t, "cmpmw", "+s+d", 0o130510, 0o170770, M68000UP, 2);
    push_one_word(t, "cmpml", "+s+d", 0o130610, 0o170770, M68000UP, 2);
}

} // verus!
