use vstd::prelude::*;

use crate::assembly::{assembly_block, text_lines};
use crate::error::ExtractError;
use crate::extract::{example_outcome, expected_outcomes, function_sites};
use crate::location::range_slice;
use crate::tree::{Node, SourceRange};

verus! {

/// How many outcomes are examples.
pub open spec fn emitted_count(
    outs: Seq<(Seq<char>, Result<(Seq<u8>, Seq<Seq<char>>), ExtractError>)>,
) -> nat
    decreases outs.len(),
{
    if outs.len() == 0 {
        0
    } else {
        emitted_count(outs.drop_last()) + if outs.last().1 is Ok {
            1nat
        } else {
            0nat
        }
    }
}

proof fn lemma_emitted_count_bound(
    outs: Seq<(Seq<char>, Result<(Seq<u8>, Seq<Seq<char>>), ExtractError>)>,
)
    ensures
        emitted_count(outs) <= outs.len(),
        emitted_count(outs) == outs.len() <==> forall|i: int|
            0 <= i < outs.len() ==> (#[trigger] outs[i]).1 is Ok,
    decreases outs.len(),
{
    if outs.len() > 0 {
        let rest = outs.drop_last();
        lemma_emitted_count_bound(rest);
        if emitted_count(outs) == outs.len() {
            assert forall|i: int| 0 <= i < outs.len() implies (#[trigger] outs[i]).1 is Ok by {
                if i < rest.len() {
                    assert(rest[i] == outs[i]);
                }
            }
        }
        if forall|i: int| 0 <= i < outs.len() ==> (#[trigger] outs[i]).1 is Ok {
            assert forall|i: int| 0 <= i < rest.len() implies (#[trigger] rest[i]).1 is Ok by {
                assert(rest[i] == outs[i]);
            }
            assert(outs[outs.len() - 1].1 is Ok);
        }
    }
}

/// A file yields at most one example per named, locally defined function, and
/// exactly one per such function if and only if every one of them has a valid
/// range and a non-empty instruction block.
pub proof fn examples_at_most_functions(tree: Node, source: Seq<u8>, lines: Seq<Seq<char>>)
    ensures
        emitted_count(expected_outcomes(tree, source, lines)) <= function_sites(tree).len(),
        emitted_count(expected_outcomes(tree, source, lines)) == function_sites(tree).len()
            <==> forall|i: int|
            0 <= i < function_sites(tree).len() ==> range_slice(
                source,
                (#[trigger] function_sites(tree)[i]).1,
            ) is Some && assembly_block(lines, function_sites(tree)[i].0).len() > 0,
{
    let outs = expected_outcomes(tree, source, lines);
    let sites = function_sites(tree);
    lemma_emitted_count_bound(outs);
    assert forall|i: int| 0 <= i < sites.len() implies (#[trigger] outs[i]).1 is Ok <==> (
    range_slice(source, sites[i].1) is Some && assembly_block(lines, sites[i].0).len() > 0) by {
        assert(outs[i] == (sites[i].0, example_outcome(sites[i].0, sites[i].1, source, lines)));
    }
    if emitted_count(outs) == sites.len() {
        assert forall|i: int| 0 <= i < sites.len() implies range_slice(
            source,
            (#[trigger] sites[i]).1,
        ) is Some && assembly_block(lines, sites[i].0).len() > 0 by {
            assert(outs[i].1 is Ok);
        }
    }
    if forall|i: int|
        0 <= i < sites.len() ==> range_slice(source, (#[trigger] sites[i]).1) is Some
            && assembly_block(lines, sites[i].0).len() > 0 {
        assert forall|i: int| 0 <= i < outs.len() implies (#[trigger] outs[i]).1 is Ok by {
            assert(range_slice(source, sites[i].1) is Some);
        }
    }
}

/// Running extraction again on the same tree, source and disassembly gives the
/// same outcomes, so the same files with the same bytes.
pub proof fn rerun_gives_same_outcomes(
    tree1: Node,
    tree2: Node,
    source1: Seq<u8>,
    source2: Seq<u8>,
    text1: Seq<char>,
    text2: Seq<char>,
)
    requires
        tree1 == tree2,
        source1 == source2,
        text1 == text2,
    ensures
        expected_outcomes(tree1, source1, text_lines(text1)) == expected_outcomes(
            tree2,
            source2,
            text_lines(text2),
        ),
{
}

/// The source text of every example is exactly the bytes of the source file
/// from its range's begin offset up to its end offset.
pub proof fn example_source_is_exact_span(
    tree: Node,
    source: Seq<u8>,
    lines: Seq<Seq<char>>,
    i: int,
)
    requires
        0 <= i < function_sites(tree).len(),
        expected_outcomes(tree, source, lines)[i].1 is Ok,
    ensures
        expected_outcomes(tree, source, lines)[i].1->Ok_0.0 == source.subrange(
            function_sites(tree)[i].1.begin.offset as int,
            function_sites(tree)[i].1.end.offset as int,
        ),
{
}

/// A range that ends at the very end of the source resolves; an inverted range
/// does not.
pub proof fn range_boundaries(source: Seq<u8>, range: SourceRange)
    ensures
        range.begin.offset <= range.end.offset && range.end.offset == source.len() ==> range_slice(
            source,
            range,
        ) == Some(source.subrange(range.begin.offset as int, source.len() as int)),
        range.begin.offset > range.end.offset ==> range_slice(source, range) is None,
{
}

} // verus!
