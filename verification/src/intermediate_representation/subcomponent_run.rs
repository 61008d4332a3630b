//! The sub-component activation protocol that Store and Call share: the
//! input counter of the addressed sub-component is decremented, and its run
//! routine is invoked inline, on a worker thread, or behind a runtime test,
//! as the input status and the parallel knowledge dictate. This is one
//! routine on purpose: both instruction kinds must emit identical code.
use vstd::prelude::*;

use crate::c_code_generator::{build_call, build_conditional};
use crate::c_elements::CProducer;
use crate::intermediate_representation::ir_interface::StatusInput;
use crate::intermediate_representation::lowering_spec::{
    opt_str_view, output_notify_block, output_wait_block, run_call_instrs, run_name,
    trigger_code, trigger_tail,
};
use crate::text::{dec_of, string_of, views};

verus! {

broadcast use crate::text::group_views_axioms;

/// The ready-flag notification a producer emits after writing one of its
/// own output signals.
pub fn produce_notify(idx: &String) -> (r: Vec<String>)
    ensures
        views(r@) == output_notify_block(idx@),
{
    let mut r: Vec<String> = Vec::new();
    let mut lock_line = string_of("ctx->componentMemory[ctx_index].mutexes[");
    lock_line.append(idx.as_str());
    lock_line.append("].lock();");
    r.push(lock_line);
    let mut set_line = string_of("ctx->componentMemory[ctx_index].outputIsSet[");
    set_line.append(idx.as_str());
    set_line.append("]=true;");
    r.push(set_line);
    let mut unlock_line = string_of("ctx->componentMemory[ctx_index].mutexes[");
    unlock_line.append(idx.as_str());
    unlock_line.append("].unlock();");
    r.push(unlock_line);
    let mut notify_line = string_of("ctx->componentMemory[ctx_index].cvs[");
    notify_line.append(idx.as_str());
    notify_line.append("].notify_all();");
    r.push(notify_line);
    proof {
        assert(views(r@) =~= output_notify_block(idx@));
    }
    r
}

/// The guarded wait a reader performs before taking an output signal of a
/// parallel sub-component.
pub fn produce_wait(cmp: &String, idx: &String, size: usize) -> (r: Vec<String>)
    ensures
        views(r@) == output_wait_block(cmp@, idx@, size as nat),
{
    let mut r: Vec<String> = Vec::new();
    r.push(string_of("{"));
    let mut aux1 = string_of("int aux1 = ");
    aux1.append(cmp.as_str());
    aux1.append(";");
    r.push(aux1);
    let mut aux2 = string_of("int aux2 = ");
    aux2.append(idx.as_str());
    aux2.append(";");
    r.push(aux2);
    let mut for_line = string_of("for (int i = 0; i < ");
    let size_txt = dec_of(size);
    for_line.append(size_txt.as_str());
    for_line.append("; i++) {");
    r.push(for_line);
    r.push(string_of("ctx->numThreadMutex.lock();"));
    r.push(string_of("ctx->numThread--;"));
    r.push(string_of("ctx->numThreadMutex.unlock();"));
    r.push(string_of("ctx->ntcvs.notify_one();"));
    r.push(string_of(
        "std::unique_lock<std::mutex> lk(ctx->componentMemory[mySubcomponents[aux1]].mutexes[aux2 + i]);",
    ));
    r.push(string_of(
        "ctx->componentMemory[mySubcomponents[aux1]].cvs[aux2 + i].wait(lk, [ctx,mySubcomponents,aux1,aux2, i]() {return ctx->componentMemory[mySubcomponents[aux1]].outputIsSet[aux2 + i];});",
    ));
    r.push(string_of("std::unique_lock<std::mutex> lkt(ctx->numThreadMutex);"));
    r.push(string_of("ctx->ntcvs.wait(lkt, [ctx]() {return ctx->numThread < ctx->maxThread; });"));
    r.push(string_of("ctx->numThread++;"));
    r.push(string_of("}"));
    r.push(string_of("}"));
    proof {
        assert(views(r@) =~= output_wait_block(cmp@, idx@, size as nat));
    }
    r
}

/// The name of the run routine to invoke for the addressed sub-component.
fn produce_run_name(indexed: bool, header: &Option<String>, parallel: bool) -> (r: String)
    ensures
        r@ == run_name(indexed, opt_str_view(*header), parallel),
{
    let header_txt = match header {
        Some(h) => h.clone(),
        None => String::new(),
    };
    if indexed {
        let mut r = header_txt;
        if parallel {
            r.append("_run_parallel");
        } else {
            r.append("_run");
        }
        r
    } else {
        let mut r = if parallel {
            string_of("(*_functionTableParallel[")
        } else {
            string_of("(*_functionTable[")
        };
        r.append(header_txt.as_str());
        r.append("])");
        r
    }
}

/// The statements that invoke the run routine: a plain call when
/// sequential, a bounded worker-thread spawn when parallel.
fn produce_run_call(indexed: bool, header: &Option<String>, parallel: bool) -> (r: Vec<String>)
    ensures
        views(r@) == run_call_instrs(indexed, opt_str_view(*header), parallel),
{
    let name = produce_run_name(indexed, header, parallel);
    let mut r: Vec<String> = Vec::new();
    if parallel {
        let mut spawn = string_of("ctx->componentMemory[ctx_index].sbct[cmp_index_ref] = std::thread(");
        spawn.append(name.as_str());
        spawn.append(",mySubcomponents[cmp_index_ref],ctx);");
        r.push(spawn);
        r.push(string_of("std::unique_lock<std::mutex> lkt(ctx->numThreadMutex);"));
        r.push(string_of(
            "ctx->ntcvs.wait(lkt, [ctx]() {return ctx->numThread < ctx->maxThread; });",
        ));
        r.push(string_of("ctx->numThread++;"));
    } else {
        let call_args = vec![string_of("mySubcomponents[cmp_index_ref]"), string_of("ctx")];
        proof {
            assert(views(call_args@) =~= seq!["mySubcomponents[cmp_index_ref]"@, "ctx"@]);
        }
        let mut call_stmt = build_call(name, call_args);
        call_stmt.append(";");
        r.push(call_stmt);
    }
    proof {
        assert(views(r@) =~= run_call_instrs(indexed, opt_str_view(*header), parallel));
    }
    r
}

/// The text of the counter decrement, `counter -= size`.
fn produce_counter_decrease(size: usize) -> (r: String)
    ensures
        r@ == crate::intermediate_representation::lowering_spec::spec_counter_decrease(
            size as nat,
        ),
{
    let mut r = string_of("ctx->componentMemory[mySubcomponents[cmp_index_ref]].inputCounter");
    r.append(" -= ");
    let size_txt = dec_of(size);
    r.append(size_txt.as_str());
    r
}

/// The policy step for a *last* or *unknown* input once the run
/// instructions are fixed.
fn produce_trigger_tail(status: StatusInput, size: usize, call_instrs: Vec<String>) -> (r: Vec<
    String,
>)
    requires
        !(status is NoLast),
    ensures
        views(r@) == trigger_tail(status, size as nat, views(call_instrs@)),
{
    let ghost entry_calls = call_instrs@;
    let mut r: Vec<String> = Vec::new();
    let decrease = produce_counter_decrease(size);
    match status {
        StatusInput::Unknown => {
            r.push(string_of("// run sub component if needed"));
            let mut condition = string_of("!(");
            condition.append(decrease.as_str());
            condition.append(")");
            let conditional = build_conditional(condition, call_instrs, Vec::new());
            r.push(conditional);
            proof {
                assert(views(Seq::<String>::empty()) =~= Seq::<Seq<char>>::empty());
            }
        },
        _ => {
            r.push(string_of("// need to run sub component"));
            let mut decrease_stmt = decrease;
            decrease_stmt.append(";");
            r.push(decrease_stmt);
            let mut zero_check = string_of("assert(!(");
            zero_check.append(
                "ctx->componentMemory[mySubcomponents[cmp_index_ref]].inputCounter",
            );
            zero_check.append("));");
            r.push(zero_check);
            let mut calls = call_instrs;
            r.append(&mut calls);
        },
    }
    proof {
        assert(views(r@) =~= trigger_tail(status, size as nat, views(entry_calls)));
    }
    r
}

/// The full trigger protocol for a store or call into a sub-component
/// input. Store and Call both call this one routine.
pub fn produce_trigger(
    indexed: bool,
    header: &Option<String>,
    status: StatusInput,
    uniform_parallel: Option<bool>,
    size: usize,
) -> (r: Vec<String>)
    ensures
        views(r@) == trigger_code(
            indexed,
            opt_str_view(*header),
            status,
            uniform_parallel,
            size as nat,
        ),
{
    let mut r: Vec<String> = Vec::new();
    match status {
        StatusInput::NoLast => {
            r.push(string_of("// no need to run sub component"));
            let mut decrease_stmt = produce_counter_decrease(size);
            decrease_stmt.append(";");
            r.push(decrease_stmt);
            let mut positive_check = string_of("assert(");
            positive_check.append(
                "ctx->componentMemory[mySubcomponents[cmp_index_ref]].inputCounter",
            );
            positive_check.append(" > 0);");
            r.push(positive_check);
        },
        _ => {
            match uniform_parallel {
                Some(parallel) => {
                    let call_instrs = produce_run_call(indexed, header, parallel);
                    let mut tail = produce_trigger_tail(status, size, call_instrs);
                    r.append(&mut tail);
                },
                None => {
                    r.push(string_of("if (mySubcomponentsParallel[cmp_index_ref]){"));
                    let parallel_calls = produce_run_call(indexed, header, true);
                    let mut parallel_tail = produce_trigger_tail(status, size, parallel_calls);
                    r.append(&mut parallel_tail);
                    r.push(string_of("} else {"));
                    let sequential_calls = produce_run_call(indexed, header, false);
                    let mut sequential_tail = produce_trigger_tail(status, size, sequential_calls);
                    r.append(&mut sequential_tail);
                    r.push(string_of("}"));
                },
            }
        },
    }
    proof {
        assert(views(r@) =~= trigger_code(
            indexed,
            opt_str_view(*header),
            status,
            uniform_parallel,
            size as nat,
        ));
    }
    r
}

} // verus!
