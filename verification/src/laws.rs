//! The properties of the translation protocol, stated once and proved over
//! the specification functions that every lowering routine is bound to.
use vstd::prelude::*;

use crate::c_code_generator::{spec_build_call, spec_build_conditional, spec_merge, spec_set_list};
use crate::c_elements::CProducer;
use crate::circuit_design::circuit::{circuit_code, Circuit};
use crate::circuit_design::template::{template_create_body, TemplateCodeInfo};
use crate::intermediate_representation::ir_interface::{
    CreateCmpBucket, Instruction, LoopBucket, StatusInput,
};
use crate::intermediate_representation::lowering_spec::{
    create_cmp_code, create_is_complete, create_loop_header, create_name_stmt, instr_code,
    instr_expr, list_code, loop_code, run_call_instrs, spec_counter_decrease, spec_is_true,
    spec_sub_cmp_counter, trigger_code,
};
use crate::text::spec_dec;

verus! {

/// Lowering is deterministic: two lowerings of the same instruction tree
/// with the same producer metadata and the same parallel context yield
/// identical statement sequences and identical value handles.
pub proof fn lemma_lowering_deterministic(
    code1: Seq<Seq<char>>,
    expr1: Seq<char>,
    code2: Seq<Seq<char>>,
    expr2: Seq<char>,
    i: Instruction,
    p: CProducer,
    par: Option<bool>,
)
    requires
        code1 == instr_code(i, p, par),
        expr1 == instr_expr(i, p, par),
        code2 == instr_code(i, p, par),
        expr2 == instr_expr(i, p, par),
    ensures
        code1 == code2,
        expr1 == expr2,
{
}

/// The whole generated source unit is deterministic too: identical circuit
/// and producer metadata yield identical emission.
pub proof fn lemma_emission_deterministic(
    code1: Seq<Seq<char>>,
    code2: Seq<Seq<char>>,
    c: Circuit,
    p: CProducer,
)
    requires
        code1 == circuit_code(c, p),
        code2 == circuit_code(c, p),
    ensures
        code1 == code2,
{
}

/// A dense creation (every position materialized) loops over all instance
/// ordinals `0 .. number_of_cmp`; when the template is instantiated as an
/// array, the emitted name statement suffixes the base name with the
/// rendered array position of the iteration ordinal.
pub proof fn lemma_dense_create_loop(b: CreateCmpBucket, p: CProducer, par: Option<bool>)
    requires
        create_is_complete(b),
    ensures
        create_loop_header(b).first() == "for (uint i = 0; i < "@ + spec_dec(
            b.number_of_cmp as nat,
        ) + "; i++) {"@,
        create_cmp_code(b, p, par).contains(
            "for (uint i = 0; i < "@ + spec_dec(b.number_of_cmp as nat) + "; i++) {"@,
        ),
        b.number_of_cmp > 1 ==> create_name_stmt(b) == "std::string new_cmp_name = \""@
            + b.name_subcomponent@ + "\"+generate_position_array(aux_dimensions,"@ + spec_dec(
            b.dimensions@.len() as nat,
        ) + ",i);"@,
{
    let loop_line = "for (uint i = 0; i < "@ + spec_dec(b.number_of_cmp as nat) + "; i++) {"@;
    let code = create_cmp_code(b, p, par);
    let pre = instr_code(*b.sub_cmp_id, p, par).len() + 4 + (if b.number_of_cmp > 1 {
        1int
    } else {
        0int
    }) + (if b.uniform_parallel is None {
        1int
    } else {
        0int
    });
    assert(code[pre] == loop_line);
    assert(code.contains(loop_line));
}

/// A sparse creation loops over exactly the recorded positions, in recorded
/// order: the emitted position array lists them verbatim and the loop bound
/// is their count, not the instance count.
pub proof fn lemma_sparse_create_loop(b: CreateCmpBucket)
    requires
        !create_is_complete(b),
    ensures
        create_loop_header(b).first() == "uint aux_positions["@ + spec_dec(
            b.defined_positions@.len() as nat,
        ) + "] = "@ + spec_set_list(b.defined_positions@.map_values(|x: (usize, bool)| x.0))
            + ";"@,
        create_loop_header(b)[1] == "for (uint i_aux = 0; i_aux < "@ + spec_dec(
            b.defined_positions@.len() as nat,
        ) + "; i_aux++) {"@,
        create_loop_header(b)[2] == "uint i = aux_positions[i_aux];"@,
{
}

/// A created instance without declared inputs has its run routine invoked
/// immediately after creation, with either parallel flag: no input write
/// could ever trigger it.
pub proof fn lemma_zero_input_auto_run(t: TemplateCodeInfo)
    requires
        t.number_of_inputs == 0,
    ensures
        template_create_body(t, true).last() == spec_build_call(
            t.header@ + "_run"@,
            seq!["coffset"@, "ctx"@],
        ) + ";"@,
        template_create_body(t, false).last() == spec_build_call(
            t.header@ + "_run"@,
            seq!["coffset"@, "ctx"@],
        ) + ";"@,
{
}

/// The input-counter policy of a store or call into a sub-component input.
/// With status *not-last* the counter is decremented and asserted to stay
/// positive, and no run instruction is emitted. With status *last* the
/// counter is decremented, asserted to have reached zero, and the run
/// instructions follow unconditionally. With status *unknown* the run
/// instructions stand only inside a conditional that the generated program
/// takes exactly when the decremented counter reaches zero.
pub proof fn lemma_input_counter_policy(
    indexed: bool,
    header: Seq<char>,
    uniform: bool,
    size: nat,
)
    ensures
        trigger_code(indexed, header, StatusInput::NoLast, Some(uniform), size) == seq![
            "// no need to run sub component"@,
            spec_counter_decrease(size) + ";"@,
            "assert("@ + spec_sub_cmp_counter() + " > 0);"@,
        ],
        trigger_code(indexed, header, StatusInput::Last, Some(uniform), size) == seq![
            "// need to run sub component"@,
            spec_counter_decrease(size) + ";"@,
            "assert(!("@ + spec_sub_cmp_counter() + "));"@,
        ] + run_call_instrs(indexed, header, uniform),
        trigger_code(indexed, header, StatusInput::Unknown, Some(uniform), size) == seq![
            "// run sub component if needed"@,
            spec_build_conditional(
                "!("@ + spec_counter_decrease(size) + ")"@,
                run_call_instrs(indexed, header, uniform),
                Seq::<Seq<char>>::empty(),
            ),
        ],
{
}

/// Store and Call share the sub-component activation protocol verbatim: a
/// store and a final call destination with the same address descriptor, the
/// same location rule and the same size emit identical trigger statements.
pub proof fn lemma_store_call_share_trigger(
    s: crate::intermediate_representation::ir_interface::StoreBucket,
    d: crate::intermediate_representation::ir_interface::FinalData,
)
    requires
        s.dest_address_type == d.dest_address_type,
        s.dest == d.dest,
        s.context.size == d.context.size,
    ensures
        crate::intermediate_representation::lowering_spec::store_trigger_code(s)
            == crate::intermediate_representation::lowering_spec::final_trigger_code(d),
{
}

/// A loop re-evaluates its condition on every iteration: the condition's
/// statements stand before the loop construct, and stand again at the end
/// of the textual loop body, after the body's own statements.
pub proof fn lemma_loop_reevaluates_condition(b: LoopBucket, p: CProducer, par: Option<bool>)
    ensures
        loop_code(b, p, par).take(
            instr_code(*b.continue_condition, p, par).len() as int,
        ) == instr_code(*b.continue_condition, p, par),
        loop_code(b, p, par).last() == "while("@ + spec_is_true(
            instr_expr(*b.continue_condition, p, par),
        ) + "){\n"@ + spec_merge(
            list_code(b.body@, p, par) + instr_code(*b.continue_condition, p, par),
        ) + "}"@,
{
    let cond = instr_code(*b.continue_condition, p, par);
    assert(loop_code(b, p, par).take(cond.len() as int) =~= cond);
}

} // verus!
