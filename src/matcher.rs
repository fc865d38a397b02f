//! Finding every definition of a table that a window of the word stream
//! matches under a given set of variants.
//!
//! The table is scanned in order and all matches are kept, in table order;
//! a caller that wants a single answer takes the first.
use vstd::prelude::*;

use crate::arch::ArchitectureSet;
use crate::opcode::{spec_word_count, OpCode};

verus! {

/// One matching definition: its position in the table and the number of
/// stream words its pattern covered.
#[derive(Clone, Copy, Debug, PartialEq, Eq, Structural)]
pub struct MatchResult {
    pub index: usize,
    pub consumed_words: usize,
}

/// The first `count` words packed into the shape of a pattern: the first
/// word in the upper half, the second (if taken) in the lower half.
pub open spec fn packed_words(words: Seq<u16>, count: nat) -> u32 {
    if count == 1 {
        (words[0] as u32) << 16u32
    } else {
        ((words[0] as u32) << 16u32) | (words[1] as u32)
    }
}

/// The definition applies to a selected variant, the stream holds the words
/// its pattern covers, and those words agree with the pattern on the mask.
pub open spec fn definition_matches(op: OpCode, arch: ArchitectureSet, words: Seq<u16>) -> bool {
    let w = spec_word_count(op.mask);
    &&& arch.bits & op.arch != 0
    &&& words.len() >= w
    &&& packed_words(words, w) & op.mask == op.opcode & op.mask
}

/// The matches among the first `n` rows, in table order.
pub open spec fn matches_upto(table: Seq<OpCode>, arch: ArchitectureSet, words: Seq<u16>, n: int) -> Seq<
    MatchResult,
>
    decreases n,
{
    if n <= 0 {
        Seq::empty()
    } else {
        let prev = matches_upto(table, arch, words, n - 1);
        if definition_matches(table[n - 1], arch, words) {
            prev.push(
                MatchResult {
                    index: (n - 1) as usize,
                    consumed_words: spec_word_count(table[n - 1].mask) as usize,
                },
            )
        } else {
            prev
        }
    }
}

/// All matches of the table, in table order.
pub open spec fn matches_of(table: Seq<OpCode>, arch: ArchitectureSet, words: Seq<u16>) -> Seq<
    MatchResult,
> {
    matches_upto(table, arch, words, table.len() as int)
}

/// Every definition of `table` that `words` matches under `architecture`,
/// in table order, each with the number of words it covers.
pub fn match_word(table: &[OpCode], architecture: ArchitectureSet, words: &[u16]) -> (r: Vec<
    MatchResult,
>)
    ensures
        r@ == matches_of(table@, architecture, words@),
{
    let mut out: Vec<MatchResult> = Vec::new();
    let mut i: usize = 0;
    while i < table.len()
        invariant
            i <= table@.len(),
            out@ == matches_upto(table@, architecture, words@, i as int),
        decreases table@.len() - i,
    {
        let op = &table[i];
        if architecture.bits & op.arch != 0 {
            let w = op.required_word_count();
            if words.len() >= w {
                let packed: u32 = if w == 1 {
                    (words[0] as u32) << 16
                } else {
                    ((words[0] as u32) << 16) | (words[1] as u32)
                };
                if packed & op.mask == op.opcode & op.mask {
                    out.push(MatchResult { index: i, consumed_words: w });
                }
            }
        }
        i += 1;
    }
    out
}

/// The match a single-result caller takes: the earliest in table order.
pub fn first_match(table: &[OpCode], architecture: ArchitectureSet, words: &[u16]) -> (r: Option<
    MatchResult,
>)
    ensures
        matches_of(table@, architecture, words@).len() == 0 ==> r.is_none(),
        matches_of(table@, architecture, words@).len() > 0 ==> r == Some(
            matches_of(table@, architecture, words@)[0],
        ),
{
    let all = match_word(table, architecture, words);
    if all.len() == 0 {
        None
    } else {
        Some(all[0])
    }
}

proof fn lemma_upto_facts(table: Seq<OpCode>, arch: ArchitectureSet, words: Seq<u16>, n: int)
    requires
        0 <= n <= table.len() <= usize::MAX,
    ensures
        ({
            let m = matches_upto(table, arch, words, n);
            &&& forall|k: int|
                0 <= k < m.len() ==> {
                    &&& 0 <= #[trigger] m[k].index < n
                    &&& definition_matches(table[m[k].index as int], arch, words)
                    &&& m[k].consumed_words == spec_word_count(table[m[k].index as int].mask)
                }
            &&& forall|j: int, k: int| 0 <= j < k < m.len() ==> #[trigger] m[j].index < #[trigger] m[k].index
            &&& forall|i: int|
                0 <= i < n && definition_matches(#[trigger] table[i], arch, words) ==> exists|k: int|
                    0 <= k < m.len() && #[trigger] m[k].index == i
        }),
    decreases n,
{
    if n > 0 {
        lemma_upto_facts(table, arch, words, n - 1);
        let prev = matches_upto(table, arch, words, n - 1);
        let m = matches_upto(table, arch, words, n);
        if definition_matches(table[n - 1], arch, words) {
            assert(m[prev.len() as int].index == n - 1);
            assert forall|i: int|
                0 <= i < n && definition_matches(#[trigger] table[i], arch, words) implies exists|k: int|
                0 <= k < m.len() && #[trigger] m[k].index == i by {
                if i == n - 1 {
                    assert(m[prev.len() as int].index == i);
                } else {
                    let k = choose|k: int| 0 <= k < prev.len() && #[trigger] prev[k].index == i;
                    assert(m[k] == prev[k]);
                }
            }
        }
    }
}

/// Every result names a row of the table that the words match under the
/// selected variants, and covers exactly the words of that row's pattern.
pub proof fn lemma_results_are_matches(table: Seq<OpCode>, arch: ArchitectureSet, words: Seq<u16>)
    requires
        table.len() <= usize::MAX,
    ensures
        forall|k: int|
            0 <= k < matches_of(table, arch, words).len() ==> {
                let m = #[trigger] matches_of(table, arch, words)[k];
                &&& 0 <= m.index < table.len()
                &&& definition_matches(table[m.index as int], arch, words)
                &&& m.consumed_words == spec_word_count(table[m.index as int].mask)
            },
{
    lemma_upto_facts(table, arch, words, table.len() as int);
}

/// A row appears among the results only if it shares a variant with the
/// selected set; selecting no variant gives no result at all.
pub proof fn lemma_architecture_gating(table: Seq<OpCode>, arch: ArchitectureSet, words: Seq<u16>)
    requires
        table.len() <= usize::MAX,
    ensures
        forall|k: int|
            0 <= k < matches_of(table, arch, words).len() ==> arch.spec_has_any(
                ArchitectureSet { bits: table[(#[trigger] matches_of(table, arch, words)[k]).index as int].arch },
            ),
        arch.bits == 0 ==> matches_of(table, arch, words).len() == 0,
{
    lemma_upto_facts(table, arch, words, table.len() as int);
    let m = matches_of(table, arch, words);
    if arch.bits == 0 && m.len() > 0 {
        let a = table[m[0].index as int].arch;
        assert(0u32 & a == 0) by (bit_vector);
    }
}

/// A row whose pattern covers more words than the stream holds never
/// appears among the results, whatever the words hold.
pub proof fn lemma_length_sufficiency(table: Seq<OpCode>, arch: ArchitectureSet, words: Seq<u16>)
    requires
        table.len() <= usize::MAX,
    ensures
        forall|k: int|
            0 <= k < matches_of(table, arch, words).len() ==> words.len() >= spec_word_count(
                table[(#[trigger] matches_of(table, arch, words)[k]).index as int].mask,
            ),
        forall|i: int, k: int|
            0 <= i < table.len() && words.len() < spec_word_count(#[trigger] table[i].mask) && 0 <= k
                < matches_of(table, arch, words).len() ==> #[trigger] matches_of(table, arch, words)[k].index
                != i,
{
    lemma_upto_facts(table, arch, words, table.len() as int);
}

/// Results come in table order, every matching row is among them, and the
/// first result is the earliest matching row: no row before it matches.
pub proof fn lemma_table_order(table: Seq<OpCode>, arch: ArchitectureSet, words: Seq<u16>)
    requires
        table.len() <= usize::MAX,
    ensures
        forall|j: int, k: int|
            0 <= j < k < matches_of(table, arch, words).len() ==> (#[trigger] matches_of(
                table,
                arch,
                words,
            )[j]).index < (#[trigger] matches_of(table, arch, words)[k]).index,
        forall|i: int|
            0 <= i < table.len() && definition_matches(#[trigger] table[i], arch, words) ==> exists|k: int|
                0 <= k < matches_of(table, arch, words).len() && #[trigger] matches_of(
                    table,
                    arch,
                    words,
                )[k].index == i,
        matches_of(table, arch, words).len() > 0 ==> forall|i: int|
            0 <= i < matches_of(table, arch, words)[0].index ==> !definition_matches(
                #[trigger] table[i],
                arch,
                words,
            ),
{
    lemma_upto_facts(table, arch, words, table.len() as int);
    let m = matches_of(table, arch, words);
    if m.len() > 0 {
        assert forall|i: int| 0 <= i < m[0].index implies !definition_matches(
            #[trigger] table[i],
            arch,
            words,
        ) by {
            if definition_matches(table[i], arch, words) {
                let k = choose|k: int| 0 <= k < m.len() && #[trigger] m[k].index == i;
                if k > 0 {
                    assert(m[0].index < m[k].index);
                }
            }
        }
    }
}

} // verus!
