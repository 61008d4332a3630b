//! Resolution of mapped locations: a symbolic signal identifier and zero or
//! more index expressions are folded, left to right and row-major, into one
//! flat offset against the per-template I/O table of the generated runtime.
use vstd::prelude::*;

use crate::c_code_generator::template_id_in_component;
use crate::c_elements::CProducer;
use crate::intermediate_representation::ir_interface::{
    produce_list_code, wf_instr, InstructionList, InstructionPointer, LocationRule,
};
use crate::intermediate_representation::lowering_spec::{
    instr_code, instr_expr, list_code, map_index_expr_aux, map_index_expr_inline,
    map_prologue_aux, mapped_dest_code, mapped_dest_expr, mapped_src_expr, spec_io_length,
    spec_io_offset, spec_sub_cmp_pos,
};
use crate::text::{dec_of, spec_dec, string_of, views};

verus! {

broadcast use crate::text::group_views_axioms;

/// The base-offset accessor of a named signal in the I/O table.
pub fn io_offset_access(pos: &String, signal_code: usize) -> (r: String)
    ensures
        r@ == spec_io_offset(pos@, signal_code as nat),
{
    let mut r = string_of("ctx->templateInsId2IOSignalInfo[");
    let tic = template_id_in_component(pos.clone());
    r.append(tic.as_str());
    r.append("].defs[");
    let code_txt = dec_of(signal_code);
    r.append(code_txt.as_str());
    r.append("].offset");
    r
}

/// The dimension-length accessor of a named signal in the I/O table.
pub fn io_length_access(pos: &String, signal_code: usize, dim: usize) -> (r: String)
    ensures
        r@ == spec_io_length(pos@, signal_code as nat, dim as nat),
{
    let mut r = string_of("ctx->templateInsId2IOSignalInfo[");
    let tic = template_id_in_component(pos.clone());
    r.append(tic.as_str());
    r.append("].defs[");
    let code_txt = dec_of(signal_code);
    r.append(code_txt.as_str());
    r.append("].lengths[");
    let dim_txt = dec_of(dim);
    r.append(dim_txt.as_str());
    r.append("]");
    r
}

/// Resolves a mapped destination (the staged variant of Store and of Call
/// with a final destination): the indexes are evaluated into a scratch
/// array, and the offset expression folds them row-major against the
/// dimension lengths of the addressed signal.
pub fn produce_mapped_dest(
    signal_code: usize,
    indexes: &InstructionList,
    producer: &CProducer,
    parallel: Option<bool>,
) -> (r: (Vec<String>, String))
    requires
        forall|j: int|
            0 <= j < indexes@.len() ==> wf_instr(
                *(#[trigger] indexes@[j]),
                producer.string_table@.len() as int,
            ),
    ensures
        views(r.0@) == mapped_dest_code(indexes@, *producer, parallel),
        r.1@ == mapped_dest_expr(
            spec_sub_cmp_pos("cmp_index_ref"@),
            signal_code as nat,
            indexes@,
        ),
    decreases indexes@, 2int,
{
    let mut pos = string_of("mySubcomponents[");
    pos.append("cmp_index_ref");
    pos.append("]");
    proof {
        assert(pos@ =~= spec_sub_cmp_pos("cmp_index_ref"@));
    }
    let mut map_prologue: Vec<String> = Vec::new();
    let mut map_access = io_offset_access(&pos, signal_code);
    if indexes.len() > 0 {
        map_prologue.push(string_of("{"));
        let mut decl = string_of("uint map_index_aux[");
        let len_txt = dec_of(indexes.len());
        decl.append(len_txt.as_str());
        decl.append("];");
        map_prologue.push(decl);
        let ghost header = seq![
            "{"@,
            "uint map_index_aux["@ + spec_dec(indexes@.len() as nat) + "];"@,
        ];
        proof {
            assert(views(map_prologue@) =~= header);
        }
        let mut i: usize = 0;
        while i < indexes.len()
            invariant
                i <= indexes.len(),
                forall|j: int|
                    0 <= j < indexes@.len() ==> wf_instr(
                        *(#[trigger] indexes@[j]),
                        producer.string_table@.len() as int,
                    ),
                views(map_prologue@) == header + map_prologue_aux(
                    indexes@.take(i as int),
                    *producer,
                    parallel,
                ),
            decreases indexes.len() - i,
        {
            let (mut index_code, index_exp) = indexes[i].produce_c(producer, parallel);
            map_prologue.append(&mut index_code);
            let mut stage = string_of("map_index_aux[");
            let i_txt = dec_of(i);
            stage.append(i_txt.as_str());
            stage.append("]=");
            stage.append(index_exp.as_str());
            stage.append(";");
            map_prologue.push(stage);
            proof {
                assert(indexes@.take(i + 1).drop_last() =~= indexes@.take(i as int));
                assert(indexes@.take(i + 1).last() == indexes@[i as int]);
                assert(views(map_prologue@) =~= header + map_prologue_aux(
                    indexes@.take(i + 1),
                    *producer,
                    parallel,
                ));
            }
            i += 1;
        }
        proof {
            assert(indexes@.take(indexes@.len() as int) =~= indexes@);
        }
        let mut map_index = string_of("map_index_aux[0]");
        let mut k: usize = 1;
        while k < indexes.len()
            invariant
                1 <= k,
                indexes@.len() > 0,
                k <= indexes.len(),
                map_index@ == map_index_expr_aux(pos@, signal_code as nat, k - 1),
            decreases indexes.len() - k,
        {
            let mut next = string_of("(");
            next.append(map_index.as_str());
            next.append(")*");
            let len_access = io_length_access(&pos, signal_code, k - 1);
            next.append(len_access.as_str());
            next.append("+map_index_aux[");
            let k_txt = dec_of(k);
            next.append(k_txt.as_str());
            next.append("]");
            map_index = next;
            k += 1;
        }
        map_access.append("+");
        map_access.append(map_index.as_str());
    }
    (map_prologue, map_access)
}

/// Resolves a mapped source (the inline variant of Load): the index
/// statements are emitted in order and the offset expression folds the
/// index expressions directly.
pub fn produce_mapped_src(
    cmp_expr: &String,
    signal_code: usize,
    indexes: &InstructionList,
    producer: &CProducer,
    parallel: Option<bool>,
) -> (r: (Vec<String>, String))
    requires
        forall|j: int|
            0 <= j < indexes@.len() ==> wf_instr(
                *(#[trigger] indexes@[j]),
                producer.string_table@.len() as int,
            ),
    ensures
        views(r.0@) == list_code(indexes@, *producer, parallel),
        r.1@ == mapped_src_expr(
            spec_sub_cmp_pos(cmp_expr@),
            signal_code as nat,
            indexes@,
            *producer,
            parallel,
        ),
    decreases indexes@, 2int,
{
    let mut pos = string_of("mySubcomponents[");
    pos.append(cmp_expr.as_str());
    pos.append("]");
    proof {
        assert(pos@ =~= spec_sub_cmp_pos(cmp_expr@));
    }
    let code = produce_list_code(indexes, producer, parallel);
    let mut map_access = io_offset_access(&pos, signal_code);
    if indexes.len() > 0 {
        let (_, first_exp) = indexes[0].produce_c(producer, parallel);
        let mut map_index = first_exp;
        proof {
            assert(indexes@.take(1).len() == 1);
            assert(indexes@.take(1)[0] == indexes@[0]);
            assert(map_index@ == map_index_expr_inline(
                pos@,
                signal_code as nat,
                indexes@.take(1),
                *producer,
                parallel,
            ));
        }
        let mut k: usize = 1;
        while k < indexes.len()
            invariant
                1 <= k,
                k <= indexes.len(),
                forall|j: int|
                    0 <= j < indexes@.len() ==> wf_instr(
                        *(#[trigger] indexes@[j]),
                        producer.string_table@.len() as int,
                    ),
                map_index@ == map_index_expr_inline(
                    pos@,
                    signal_code as nat,
                    indexes@.take(k as int),
                    *producer,
                    parallel,
                ),
            decreases indexes.len() - k,
        {
            let (_, index_exp) = indexes[k].produce_c(producer, parallel);
            let mut next = string_of("(");
            next.append(map_index.as_str());
            next.append(")*");
            let len_access = io_length_access(&pos, signal_code, k - 1);
            next.append(len_access.as_str());
            next.append("+");
            next.append(index_exp.as_str());
            map_index = next;
            proof {
                assert(indexes@.take(k + 1).drop_last() =~= indexes@.take(k as int));
                assert(indexes@.take(k + 1).last() == indexes@[k as int]);
            }
            k += 1;
        }
        proof {
            assert(indexes@.take(indexes@.len() as int) =~= indexes@);
        }
        map_access.append("+");
        map_access.append(map_index.as_str());
    }
    (code, map_access)
}

/// The row-major folding rule of mapped locations, on concrete values: the
/// accumulator starts at the first index, and each further dimension folds
/// as `acc * length[i - 1] + index[i]`.
pub open spec fn spec_flat_offset(lengths: Seq<u64>, indexes: Seq<u64>, k: int) -> int
    decreases k,
{
    if k <= 0 {
        if 0 < indexes.len() {
            indexes[0] as int
        } else {
            0
        }
    } else {
        spec_flat_offset(lengths, indexes, k - 1) * (lengths[k - 1] as int) + (indexes[k] as int)
    }
}

/// The fold of non-negative indexes never goes negative.
proof fn lemma_flat_offset_nonneg(lengths: Seq<u64>, indexes: Seq<u64>, k: int)
    requires
        k < indexes.len(),
        indexes.len() == lengths.len() + 1,
        forall|j: int| 0 <= j < lengths.len() ==> #[trigger] lengths[j] >= 1,
    ensures
        0 <= spec_flat_offset(lengths, indexes, k),
    decreases (if k > 0 { k } else { 0int }),
{
    if k > 0 {
        lemma_flat_offset_nonneg(lengths, indexes, k - 1);
        let prev = spec_flat_offset(lengths, indexes, k - 1);
        assert(prev * (lengths[k - 1] as int) >= 0) by (nonlinear_arith)
            requires
                prev >= 0,
                lengths[k - 1] >= 1,
        ;
    }
}

/// With every dimension length at least one, the fold never shrinks.
proof fn lemma_flat_offset_mono(lengths: Seq<u64>, indexes: Seq<u64>, k1: int, k2: int)
    requires
        0 <= k1 <= k2,
        k2 < indexes.len(),
        indexes.len() == lengths.len() + 1,
        forall|j: int| 0 <= j < lengths.len() ==> #[trigger] lengths[j] >= 1,
    ensures
        0 <= spec_flat_offset(lengths, indexes, k1) <= spec_flat_offset(lengths, indexes, k2),
    decreases k2 - k1,
{
    lemma_flat_offset_nonneg(lengths, indexes, k1);
    if k1 < k2 {
        lemma_flat_offset_mono(lengths, indexes, k1, k2 - 1);
        let prev = spec_flat_offset(lengths, indexes, k2 - 1);
        assert(prev * (lengths[k2 - 1] as int) >= prev) by (nonlinear_arith)
            requires
                prev >= 0,
                lengths[k2 - 1] >= 1,
        ;
    }
}

/// Folds concrete multi-dimensional indexes into one flat offset, exactly
/// as the generated program folds a mapped location at its runtime. Returns
/// nothing when the offset does not fit the machine word.
pub fn flat_mapped_offset(lengths: &Vec<u64>, indexes: &Vec<u64>) -> (r: Option<u64>)
    requires
        indexes.len() == lengths.len() + 1,
        forall|j: int| 0 <= j < lengths@.len() ==> #[trigger] lengths@[j] >= 1,
    ensures
        match r {
            Some(v) => v == spec_flat_offset(lengths@, indexes@, lengths@.len() as int),
            None => spec_flat_offset(lengths@, indexes@, lengths@.len() as int) > u64::MAX,
        },
{
    let mut acc: u64 = indexes[0];
    let mut k: usize = 1;
    let mut overflowed = false;
    while k < indexes.len() && !overflowed
        invariant
            1 <= k <= indexes.len(),
            indexes.len() == lengths.len() + 1,
            forall|j: int| 0 <= j < lengths@.len() ==> #[trigger] lengths@[j] >= 1,
            !overflowed ==> acc == spec_flat_offset(lengths@, indexes@, k - 1),
            overflowed ==> spec_flat_offset(lengths@, indexes@, lengths@.len() as int)
                > u64::MAX,
        decreases indexes.len() - k + (if overflowed { 0int } else { 1int }),
    {
        match acc.checked_mul(lengths[k - 1]) {
            None => {
                proof {
                    assert((acc as int) * (lengths@[k - 1] as int) > u64::MAX);
                    assert(spec_flat_offset(lengths@, indexes@, k as int) > u64::MAX);
                    lemma_flat_offset_mono(lengths@, indexes@, k as int, lengths@.len() as int);
                }
                overflowed = true;
            },
            Some(prod) => {
                match prod.checked_add(indexes[k]) {
                    None => {
                        proof {
                            assert(spec_flat_offset(lengths@, indexes@, k as int) > u64::MAX);
                            lemma_flat_offset_mono(
                                lengths@,
                                indexes@,
                                k as int,
                                lengths@.len() as int,
                            );
                        }
                        overflowed = true;
                    },
                    Some(v) => {
                        acc = v;
                        k += 1;
                    },
                }
            },
        }
    }
    if overflowed {
        None
    } else {
        Some(acc)
    }
}

} // verus!
