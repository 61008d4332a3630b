//! The specification of the translation protocol: for every instruction kind
//! this module states, character by character, the ordered statement list and
//! the optional value handle that lowering produces. The executable lowering
//! routines of the bucket modules are proved equal to these functions.
use vstd::prelude::*;

use crate::c_code_generator::{
    spec_bool, spec_build_call, spec_build_conditional, spec_circuit_constants,
    spec_expaux, spec_failed_assert_message, spec_lvar, spec_merge, spec_set_list,
    spec_set_list_bool, spec_signal_values, spec_template_id_in_component,
};
use crate::c_elements::CProducer;
use crate::intermediate_representation::ir_interface::{
    AddressType, AssertBucket, BranchBucket, CallBucket, CreateCmpBucket, FinalData,
    InputInformation, InstrContext, Instruction, InstructionPointer, LoadBucket, LocationRule,
    LogBucket, LogBucketArg, LoopBucket, ReturnBucket, ReturnType, StatusInput, StoreBucket,
    ValueBucket, ValueType,
};
use crate::text::spec_dec;

verus! {

// ---------------------------------------------------------------------------
// Pure text fragments of the generated runtime.
// ---------------------------------------------------------------------------
/// The slot expression of a sub-component held in the parent's table.
pub open spec fn spec_sub_cmp_pos(cmp: Seq<char>) -> Seq<char> {
    "mySubcomponents["@ + cmp + "]"@
}

/// The signal-array start offset of a sub-component, read through its slot.
pub open spec fn spec_sub_cmp_start(cmp: Seq<char>) -> Seq<char> {
    "ctx->componentMemory["@ + spec_sub_cmp_pos(cmp) + "].signalStart"@
}

/// The base offset of a named signal in the per-template I/O table.
pub open spec fn spec_io_offset(pos: Seq<char>, signal_code: nat) -> Seq<char> {
    "ctx->templateInsId2IOSignalInfo["@ + spec_template_id_in_component(pos) + "].defs["@
        + spec_dec(signal_code) + "].offset"@
}

/// One dimension length of a named signal in the per-template I/O table.
pub open spec fn spec_io_length(pos: Seq<char>, signal_code: nat, dim: nat) -> Seq<char> {
    "ctx->templateInsId2IOSignalInfo["@ + spec_template_id_in_component(pos) + "].defs["@
        + spec_dec(signal_code) + "].lengths["@ + spec_dec(dim) + "]"@
}

/// The truthiness test delegated to the field arithmetic library.
pub open spec fn spec_is_true(e: Seq<char>) -> Seq<char> {
    "Fr_isTrue("@ + e + ")"@
}

/// The input counter of the sub-component addressed by `cmp_index_ref`.
pub open spec fn spec_sub_cmp_counter() -> Seq<char> {
    "ctx->componentMemory[mySubcomponents[cmp_index_ref]].inputCounter"@
}

/// The statement expression that decrements the input counter by `size`.
pub open spec fn spec_counter_decrease(size: nat) -> Seq<char> {
    spec_sub_cmp_counter() + " -= "@ + spec_dec(size)
}

// ---------------------------------------------------------------------------
// The lowering of instruction trees.
// ---------------------------------------------------------------------------
/// The ordered statements that lowering one instruction produces.
pub open spec fn instr_code(i: Instruction, p: CProducer, par: Option<bool>) -> Seq<Seq<char>>
    decreases i, 0int,
{
    match i {
        Instruction::Value(b) => Seq::<Seq<char>>::empty(),
        Instruction::Load(b) => load_code(b, p, par),
        Instruction::Store(b) => store_code(b, p, par),
        Instruction::Branch(b) => branch_code(b, p, par),
        Instruction::Loop(b) => loop_code(b, p, par),
        Instruction::CreateCmp(b) => create_cmp_code(b, p, par),
        Instruction::Call(b) => call_code(b, p, par),
        Instruction::Assert(b) => assert_code(b, p, par),
        Instruction::Return(b) => return_code(b, p, par),
        Instruction::Log(b) => log_code(b, p, par),
    }
}

/// The value handle that lowering one instruction produces; empty when the
/// instruction computes no value.
pub open spec fn instr_expr(i: Instruction, p: CProducer, par: Option<bool>) -> Seq<char>
    decreases i, 0int,
{
    match i {
        Instruction::Value(b) => value_expr(b),
        Instruction::Load(b) => load_expr(b, p, par),
        Instruction::Call(b) => call_expr(b),
        _ => Seq::<char>::empty(),
    }
}

/// The concatenated statements of an instruction sequence.
pub open spec fn list_code(l: Seq<InstructionPointer>, p: CProducer, par: Option<bool>) -> Seq<
    Seq<char>,
>
    decreases l, 0int,
{
    if l.len() == 0 {
        Seq::<Seq<char>>::empty()
    } else {
        list_code(l.drop_last(), p, par) + instr_code(*l.last(), p, par)
    }
}

// ---------------------------------------------------------------------------
// Value.
// ---------------------------------------------------------------------------
/// A literal: a plain index for a small integer, a reference into the
/// constant table for a big field constant.
pub open spec fn value_expr(b: ValueBucket) -> Seq<char> {
    match b.parse_as {
        ValueType::U32 => spec_dec(b.value as nat),
        ValueType::BigInt => "&"@ + spec_circuit_constants(spec_dec(b.value as nat)),
    }
}

// ---------------------------------------------------------------------------
// Mapped locations (named signal plus folded indexes).
// ---------------------------------------------------------------------------
/// The folded flat-offset expression over the `map_index_aux` scratch array,
/// after the first `k + 1` indexes have been folded in.
pub open spec fn map_index_expr_aux(pos: Seq<char>, signal_code: nat, k: int) -> Seq<char>
    decreases k,
{
    if k <= 0 {
        "map_index_aux[0]"@
    } else {
        "("@ + map_index_expr_aux(pos, signal_code, k - 1) + ")*"@
            + spec_io_length(pos, signal_code, (k - 1) as nat) + "+map_index_aux["@
            + spec_dec(k as nat) + "]"@
    }
}

/// The statements that evaluate the indexes of a mapped destination and
/// stage each into the `map_index_aux` scratch array.
pub open spec fn map_prologue_aux(
    indexes: Seq<InstructionPointer>,
    p: CProducer,
    par: Option<bool>,
) -> Seq<Seq<char>>
    decreases indexes, 0int,
{
    if indexes.len() == 0 {
        Seq::<Seq<char>>::empty()
    } else {
        map_prologue_aux(indexes.drop_last(), p, par) + instr_code(*indexes.last(), p, par)
            + seq![
            "map_index_aux["@ + spec_dec((indexes.len() - 1) as nat) + "]="@
                + instr_expr(*indexes.last(), p, par) + ";"@,
        ]
    }
}

/// The statements of a mapped destination resolution (staged variant, used
/// by Store and by Call with a final destination).
pub open spec fn mapped_dest_code(
    indexes: Seq<InstructionPointer>,
    p: CProducer,
    par: Option<bool>,
) -> Seq<Seq<char>>
    decreases indexes, 1int,
{
    if indexes.len() == 0 {
        Seq::<Seq<char>>::empty()
    } else {
        seq!["{"@, "uint map_index_aux["@ + spec_dec(indexes.len() as nat) + "];"@]
            + map_prologue_aux(indexes, p, par)
    }
}

/// The offset expression of a mapped destination resolution (staged variant).
pub open spec fn mapped_dest_expr(
    pos: Seq<char>,
    signal_code: nat,
    indexes: Seq<InstructionPointer>,
) -> Seq<char> {
    if indexes.len() == 0 {
        spec_io_offset(pos, signal_code)
    } else {
        spec_io_offset(pos, signal_code) + "+"@ + map_index_expr_aux(
            pos,
            signal_code,
            indexes.len() - 1,
        )
    }
}

/// The folded flat-offset expression of a mapped source, written directly
/// over the index expressions (inline variant, used by Load).
pub open spec fn map_index_expr_inline(
    pos: Seq<char>,
    signal_code: nat,
    indexes: Seq<InstructionPointer>,
    p: CProducer,
    par: Option<bool>,
) -> Seq<char>
    decreases indexes, 0int,
{
    if indexes.len() == 0 {
        Seq::<char>::empty()
    } else if indexes.len() == 1 {
        instr_expr(*indexes[0], p, par)
    } else {
        "("@ + map_index_expr_inline(pos, signal_code, indexes.drop_last(), p, par) + ")*"@
            + spec_io_length(pos, signal_code, (indexes.len() - 2) as nat) + "+"@ + instr_expr(
            *indexes.last(),
            p,
            par,
        )
    }
}

/// The offset expression of a mapped source resolution (inline variant).
pub open spec fn mapped_src_expr(
    pos: Seq<char>,
    signal_code: nat,
    indexes: Seq<InstructionPointer>,
    p: CProducer,
    par: Option<bool>,
) -> Seq<char>
    decreases indexes, 1int,
{
    if indexes.len() == 0 {
        spec_io_offset(pos, signal_code)
    } else {
        spec_io_offset(pos, signal_code) + "+"@ + map_index_expr_inline(
            pos,
            signal_code,
            indexes,
            p,
            par,
        )
    }
}

// ---------------------------------------------------------------------------
// The synchronization blocks of the concurrency protocol.
// ---------------------------------------------------------------------------
/// The guarded wait a reader performs before taking an output signal of a
/// parallel sub-component: it releases its worker slot, blocks until the
/// producer sets the ready flag, and re-acquires a slot.
pub open spec fn output_wait_block(cmp: Seq<char>, idx: Seq<char>, size: nat) -> Seq<Seq<char>> {
    seq![
        "{"@,
        "int aux1 = "@ + cmp + ";"@,
        "int aux2 = "@ + idx + ";"@,
        "for (int i = 0; i < "@ + spec_dec(size) + "; i++) {"@,
        "ctx->numThreadMutex.lock();"@,
        "ctx->numThread--;"@,
        "ctx->numThreadMutex.unlock();"@,
        "ctx->ntcvs.notify_one();"@,
        "std::unique_lock<std::mutex> lk(ctx->componentMemory[mySubcomponents[aux1]].mutexes[aux2 + i]);"@,
        "ctx->componentMemory[mySubcomponents[aux1]].cvs[aux2 + i].wait(lk, [ctx,mySubcomponents,aux1,aux2, i]() {return ctx->componentMemory[mySubcomponents[aux1]].outputIsSet[aux2 + i];});"@,
        "std::unique_lock<std::mutex> lkt(ctx->numThreadMutex);"@,
        "ctx->ntcvs.wait(lkt, [ctx]() {return ctx->numThread < ctx->maxThread; });"@,
        "ctx->numThread++;"@,
        "}"@,
        "}"@,
    ]
}

/// The statements a producer emits after writing one of its own output
/// signals: set the ready flag under the lock, then notify the waiters.
pub open spec fn output_notify_block(idx: Seq<char>) -> Seq<Seq<char>> {
    seq![
        "ctx->componentMemory[ctx_index].mutexes["@ + idx + "].lock();"@,
        "ctx->componentMemory[ctx_index].outputIsSet["@ + idx + "]=true;"@,
        "ctx->componentMemory[ctx_index].mutexes["@ + idx + "].unlock();"@,
        "ctx->componentMemory[ctx_index].cvs["@ + idx + "].notify_all();"@,
    ]
}

// ---------------------------------------------------------------------------
// The sub-component trigger protocol shared by Store and Call.
// ---------------------------------------------------------------------------
/// The name of the run routine of the addressed sub-component: a direct
/// routine name for an indexed destination, a dispatch-table lookup for a
/// mapped one.
pub open spec fn run_name(indexed: bool, header: Seq<char>, parallel: bool) -> Seq<char> {
    if indexed {
        if parallel {
            header + "_run_parallel"@
        } else {
            header + "_run"@
        }
    } else {
        if parallel {
            "(*_functionTableParallel["@ + header + "])"@
        } else {
            "(*_functionTable["@ + header + "])"@
        }
    }
}

/// The statements that invoke the sub-component's run routine: a plain call
/// when sequential, a worker-thread spawn bounded by the worker budget when
/// parallel.
pub open spec fn run_call_instrs(indexed: bool, header: Seq<char>, parallel: bool) -> Seq<
    Seq<char>,
> {
    if parallel {
        seq![
            "ctx->componentMemory[ctx_index].sbct[cmp_index_ref] = std::thread("@ + run_name(
                indexed,
                header,
                true,
            ) + ",mySubcomponents[cmp_index_ref],ctx);"@,
            "std::unique_lock<std::mutex> lkt(ctx->numThreadMutex);"@,
            "ctx->ntcvs.wait(lkt, [ctx]() {return ctx->numThread < ctx->maxThread; });"@,
            "ctx->numThread++;"@,
        ]
    } else {
        seq![
            spec_build_call(
                run_name(indexed, header, false),
                seq!["mySubcomponents[cmp_index_ref]"@, "ctx"@],
            ) + ";"@,
        ]
    }
}

/// The policy step once the run instructions are fixed: for a *last* input
/// the counter is decremented, asserted zero, and the run is unconditional;
/// for an *unknown* status the decrement and the zero test guard the run at
/// the runtime of the generated program.
pub open spec fn trigger_tail(status: StatusInput, size: nat, call_instrs: Seq<Seq<char>>) -> Seq<
    Seq<char>,
> {
    if status is Unknown {
        seq![
            "// run sub component if needed"@,
            spec_build_conditional(
                "!("@ + spec_counter_decrease(size) + ")"@,
                call_instrs,
                Seq::<Seq<char>>::empty(),
            ),
        ]
    } else {
        seq![
            "// need to run sub component"@,
            spec_counter_decrease(size) + ";"@,
            "assert(!("@ + spec_sub_cmp_counter() + "));"@,
        ] + call_instrs
    }
}

/// The full trigger protocol for a store or call into a sub-component input:
/// decrement the input counter and decide, by the input status and the
/// parallel knowledge, whether and how the sub-component's run is invoked.
pub open spec fn trigger_code(
    indexed: bool,
    header: Seq<char>,
    status: StatusInput,
    uniform_parallel: Option<bool>,
    size: nat,
) -> Seq<Seq<char>> {
    if status is NoLast {
        seq![
            "// no need to run sub component"@,
            spec_counter_decrease(size) + ";"@,
            "assert("@ + spec_sub_cmp_counter() + " > 0);"@,
        ]
    } else {
        match uniform_parallel {
            Some(parallel) => trigger_tail(status, size, run_call_instrs(indexed, header, parallel)),
            None => seq!["if (mySubcomponentsParallel[cmp_index_ref]){"@] + trigger_tail(
                status,
                size,
                run_call_instrs(indexed, header, true),
            ) + seq!["} else {"@] + trigger_tail(
                status,
                size,
                run_call_instrs(indexed, header, false),
            ) + seq!["}"@],
        }
    }
}

/// The text of an optional header: empty where none is known.
pub open spec fn opt_str_view(h: Option<String>) -> Seq<char> {
    match h {
        Some(s) => s@,
        None => Seq::<char>::empty(),
    }
}

/// The header used by the trigger protocol for a destination: the template
/// header for an indexed rule, the stored template ordinal for a mapped one.
pub open spec fn dest_header(dest: LocationRule) -> Seq<char> {
    match dest {
        LocationRule::Indexed { location, template_header } => match template_header {
            Some(h) => h@,
            None => Seq::<char>::empty(),
        },
        LocationRule::Mapped { .. } => spec_template_id_in_component(
            spec_sub_cmp_pos("cmp_index_ref"@),
        ),
    }
}

// ---------------------------------------------------------------------------
// Load.
// ---------------------------------------------------------------------------
/// The slot-index expression of the addressed sub-component of a load.
pub open spec fn load_cmp_expr(b: LoadBucket, p: CProducer, par: Option<bool>) -> Seq<char>
    decreases b, 0int,
{
    match b.address_type {
        AddressType::SubcmpSignal { cmp_address, .. } => instr_expr(*cmp_address, p, par),
        _ => Seq::<char>::empty(),
    }
}

/// The statements of the source resolution of a load.
pub open spec fn load_src_code(b: LoadBucket, p: CProducer, par: Option<bool>) -> Seq<Seq<char>>
    decreases b, 0int,
{
    match b.src {
        LocationRule::Indexed { location, template_header } => instr_code(*location, p, par),
        LocationRule::Mapped { signal_code, indexes } => list_code(indexes@, p, par),
    }
}

/// The offset expression of the source resolution of a load.
pub open spec fn load_src_index(b: LoadBucket, p: CProducer, par: Option<bool>) -> Seq<char>
    decreases b, 1int,
{
    match b.src {
        LocationRule::Indexed { location, template_header } => instr_expr(*location, p, par),
        LocationRule::Mapped { signal_code, indexes } => mapped_src_expr(
            spec_sub_cmp_pos(load_cmp_expr(b, p, par)),
            signal_code as nat,
            indexes@,
            p,
            par,
        ),
    }
}

/// The guarded wait of a load from a parallel sub-component's output: the
/// wait is emitted directly when the sub-component is statically parallel,
/// and behind a runtime test when only execution can tell.
pub open spec fn load_wait_code(b: LoadBucket, p: CProducer, par: Option<bool>) -> Seq<Seq<char>>
    decreases b, 2int,
{
    match b.address_type {
        AddressType::SubcmpSignal { uniform_parallel_value, is_output, .. } => {
            if is_output {
                match uniform_parallel_value {
                    Some(true) => output_wait_block(
                        load_cmp_expr(b, p, par),
                        load_src_index(b, p, par),
                        b.context.size as nat,
                    ),
                    Some(false) => Seq::<Seq<char>>::empty(),
                    None => seq![
                        "if (mySubcomponentsParallel["@ + load_cmp_expr(b, p, par) + "]){"@,
                    ] + output_wait_block(
                        load_cmp_expr(b, p, par),
                        load_src_index(b, p, par),
                        b.context.size as nat,
                    ) + seq!["}"@],
                }
            } else {
                Seq::<Seq<char>>::empty()
            }
        },
        _ => Seq::<Seq<char>>::empty(),
    }
}

/// A load resolves its address, emits the guarded wait where the protocol
/// asks for one, and produces the pointer expression of the resolved slot.
pub open spec fn load_code(b: LoadBucket, p: CProducer, par: Option<bool>) -> Seq<Seq<char>>
    decreases b, 3int,
{
    let cmp_part = match b.address_type {
        AddressType::SubcmpSignal { cmp_address, .. } => instr_code(*cmp_address, p, par),
        _ => Seq::<Seq<char>>::empty(),
    };
    cmp_part + load_src_code(b, p, par) + load_wait_code(b, p, par)
}

/// The pointer expression a load returns for the resolved slot.
pub open spec fn load_expr(b: LoadBucket, p: CProducer, par: Option<bool>) -> Seq<char>
    decreases b, 2int,
{
    match b.address_type {
        AddressType::Variable => "&"@ + spec_lvar(load_src_index(b, p, par)),
        AddressType::Signal => "&"@ + spec_signal_values(load_src_index(b, p, par)),
        AddressType::SubcmpSignal { .. } => "&ctx->signalValues["@ + spec_sub_cmp_start(
            load_cmp_expr(b, p, par),
        ) + " + "@ + load_src_index(b, p, par) + "]"@,
    }
}

// ---------------------------------------------------------------------------
// Store.
// ---------------------------------------------------------------------------
/// The statements of the destination resolution of a store.
pub open spec fn store_dest_code(b: StoreBucket, p: CProducer, par: Option<bool>) -> Seq<
    Seq<char>,
>
    decreases b, 0int,
{
    match b.dest {
        LocationRule::Indexed { location, template_header } => instr_code(*location, p, par),
        LocationRule::Mapped { signal_code, indexes } => mapped_dest_code(indexes@, p, par),
    }
}

/// The offset expression of the destination resolution of a store.
pub open spec fn store_dest_index(b: StoreBucket, p: CProducer, par: Option<bool>) -> Seq<char>
    decreases b, 0int,
{
    match b.dest {
        LocationRule::Indexed { location, template_header } => instr_expr(*location, p, par),
        LocationRule::Mapped { signal_code, indexes } => mapped_dest_expr(
            spec_sub_cmp_pos("cmp_index_ref"@),
            signal_code as nat,
            indexes@,
        ),
    }
}

/// The destination pointer expression of a store.
pub open spec fn store_dest_expr(b: StoreBucket, p: CProducer, par: Option<bool>) -> Seq<char>
    decreases b, 1int,
{
    match b.dest_address_type {
        AddressType::Variable => "&"@ + spec_lvar(store_dest_index(b, p, par)),
        AddressType::Signal => "&"@ + spec_signal_values(store_dest_index(b, p, par)),
        AddressType::SubcmpSignal { .. } => "&ctx->signalValues["@ + spec_sub_cmp_start(
            "cmp_index_ref"@,
        ) + " + "@ + store_dest_index(b, p, par) + "]"@,
    }
}

/// Whether a store writes one of this component's own outputs while the
/// enclosing template instance runs in parallel.
pub open spec fn store_notifies(b: StoreBucket, par: Option<bool>) -> bool {
    b.dest_address_type is Signal && par == Some(true) && b.dest_is_output
}

/// The size-aware copy of the source value, with the ready-flag notification
/// appended when the store writes an own output of a parallel component.
pub open spec fn store_copy_code(b: StoreBucket, p: CProducer, par: Option<bool>) -> Seq<
    Seq<char>,
>
    decreases b, 0int,
{
    if b.context.size > 1 {
        seq![
            spec_build_call(
                "Fr_copyn"@,
                seq!["aux_dest"@, instr_expr(*b.src, p, par), spec_dec(b.context.size as nat)],
            ) + ";"@,
        ] + if store_notifies(b, par) {
            seq!["{"@, "for (int i = 0; i < "@ + spec_dec(b.context.size as nat) + "; i++) {"@]
                + output_notify_block("aux_dest_index+i"@) + seq!["}"@, "}"@, "}"@]
        } else {
            Seq::<Seq<char>>::empty()
        }
    } else {
        seq![
            spec_build_call("Fr_copy"@, seq!["aux_dest"@, instr_expr(*b.src, p, par)]) + ";"@,
        ] + if store_notifies(b, par) {
            output_notify_block("aux_dest_index"@) + seq!["}"@]
        } else {
            Seq::<Seq<char>>::empty()
        }
    }
}

/// The trigger protocol a store runs when its destination is a sub-component
/// input, and nothing otherwise.
pub open spec fn store_trigger_code(b: StoreBucket) -> Seq<Seq<char>> {
    match b.dest_address_type {
        AddressType::SubcmpSignal { uniform_parallel_value, input_information, .. } => {
            match input_information {
                InputInformation::Input { status } => trigger_code(
                    b.dest is Indexed,
                    dest_header(b.dest),
                    status,
                    uniform_parallel_value,
                    b.context.size as nat,
                ),
                InputInformation::NoInput => Seq::<Seq<char>>::empty(),
            }
        },
        _ => Seq::<Seq<char>>::empty(),
    }
}

/// The statements that resolve the addressed sub-component of a store and
/// pin its slot index in `cmp_index_ref`.
pub open spec fn store_cmp_code(b: StoreBucket, p: CProducer, par: Option<bool>) -> Seq<Seq<char>>
    decreases b, 1int,
{
    match b.dest_address_type {
        AddressType::SubcmpSignal { cmp_address, .. } => instr_code(*cmp_address, p, par) + seq![
            "{"@,
            "uint cmp_index_ref = "@ + instr_expr(*cmp_address, p, par) + ";"@,
        ],
        _ => Seq::<Seq<char>>::empty(),
    }
}

/// The statements that keep the destination index for the notification of a
/// parallel output store.
pub open spec fn store_aux_keep(b: StoreBucket, p: CProducer, par: Option<bool>) -> Seq<Seq<char>>
    decreases b, 1int,
{
    if store_notifies(b, par) {
        seq!["{"@, "uint aux_dest_index = "@ + store_dest_index(b, p, par) + ";"@]
    } else {
        Seq::<Seq<char>>::empty()
    }
}

/// The statements that open the copy block: pin the destination pointer and
/// evaluate the source.
pub open spec fn store_open_code(b: StoreBucket, p: CProducer, par: Option<bool>) -> Seq<
    Seq<char>,
>
    decreases b, 2int,
{
    seq![
        "{"@,
        "PFrElement aux_dest = "@ + store_dest_expr(b, p, par) + ";"@,
        "// load src"@,
    ] + instr_code(*b.src, p, par) + seq!["// end load src"@]
}

/// The closing braces of the sub-component and mapped-destination blocks.
pub open spec fn store_close_code(b: StoreBucket) -> Seq<Seq<char>> {
    (if b.dest_address_type is SubcmpSignal {
        seq!["}"@]
    } else {
        Seq::<Seq<char>>::empty()
    }) + (match b.dest {
        LocationRule::Mapped { signal_code, indexes } => if indexes.len() > 0 {
            seq!["}"@]
        } else {
            Seq::<Seq<char>>::empty()
        },
        _ => Seq::<Seq<char>>::empty(),
    })
}

/// A store resolves its destination, evaluates its source, emits the
/// size-aware copy, and runs the sub-component trigger protocol where the
/// destination is a sub-component input.
pub open spec fn store_code(b: StoreBucket, p: CProducer, par: Option<bool>) -> Seq<Seq<char>>
    decreases b, 3int,
{
    store_cmp_code(b, p, par) + store_dest_code(b, p, par) + store_aux_keep(b, p, par)
        + store_open_code(b, p, par) + store_copy_code(b, p, par) + seq!["}"@]
        + store_trigger_code(b) + store_close_code(b)
}

// ---------------------------------------------------------------------------
// Branch and Loop.
// ---------------------------------------------------------------------------
/// A branch lowers its condition, then folds both branches into one
/// conditional statement whose else block is omitted when empty.
pub open spec fn branch_code(b: BranchBucket, p: CProducer, par: Option<bool>) -> Seq<Seq<char>>
    decreases b, 0int,
{
    instr_code(*b.cond, p, par) + seq![
        spec_build_conditional(
            spec_is_true(instr_expr(*b.cond, p, par)),
            list_code(b.if_branch@, p, par),
            list_code(b.else_branch@, p, par),
        ),
    ]
}

/// A loop emits its condition's statements before the loop construct and
/// again at the end of the loop body, so that a side-effecting condition is
/// re-evaluated on every iteration.
pub open spec fn loop_code(b: LoopBucket, p: CProducer, par: Option<bool>) -> Seq<Seq<char>>
    decreases b, 0int,
{
    instr_code(*b.continue_condition, p, par) + seq![
        "while("@ + spec_is_true(instr_expr(*b.continue_condition, p, par)) + "){\n"@ + spec_merge(
            list_code(b.body@, p, par) + instr_code(*b.continue_condition, p, par),
        ) + "}"@,
    ]
}

// ---------------------------------------------------------------------------
// CreateCmp.
// ---------------------------------------------------------------------------
/// Whether every array position of the created component is materialized.
pub open spec fn create_is_complete(b: CreateCmpBucket) -> bool {
    b.defined_positions.len() == b.number_of_cmp
}

/// The loop header of the creation loop: over all positions for a dense
/// array, over exactly the recorded positions for a sparse one.
pub open spec fn create_loop_header(b: CreateCmpBucket) -> Seq<Seq<char>> {
    if create_is_complete(b) {
        seq!["for (uint i = 0; i < "@ + spec_dec(b.number_of_cmp as nat) + "; i++) {"@]
            + (if b.uniform_parallel is None {
            seq!["bool status_parallel = aux_parallel[i];"@]
        } else {
            Seq::<Seq<char>>::empty()
        })
    } else {
        seq![
            "uint aux_positions["@ + spec_dec(b.defined_positions.len() as nat) + "] = "@
                + spec_set_list(b.defined_positions@.map_values(|x: (usize, bool)| x.0)) + ";"@,
            "for (uint i_aux = 0; i_aux < "@ + spec_dec(b.defined_positions.len() as nat)
                + "; i_aux++) {"@,
            "uint i = aux_positions[i_aux];"@,
        ] + (if b.uniform_parallel is None {
            seq!["bool status_parallel = aux_parallel[i_aux];"@]
        } else {
            Seq::<Seq<char>>::empty()
        })
    }
}

/// The unique display name of the created instance: suffixed with the
/// rendered array position when the template is instantiated as an array.
pub open spec fn create_name_stmt(b: CreateCmpBucket) -> Seq<char> {
    if b.number_of_cmp > 1 {
        "std::string new_cmp_name = \""@ + b.name_subcomponent@
            + "\"+generate_position_array(aux_dimensions,"@ + spec_dec(b.dimensions.len() as nat)
            + ",i);"@
    } else {
        "std::string new_cmp_name = \""@ + b.name_subcomponent@ + "\";"@
    }
}

/// The statements that create one instance: the create entry point is chosen
/// statically when the parallel-ness is uniform, and by a runtime branch on
/// the stored per-position flag otherwise.
pub open spec fn create_call_stmts(b: CreateCmpBucket) -> Seq<Seq<char>> {
    let args = "csoffset,aux_cmp_num,ctx,new_cmp_name,myId"@;
    match b.uniform_parallel {
        None => seq![
            "mySubcomponentsParallel[aux_create+i] = status_parallel;"@,
            "if (status_parallel) "@ + b.symbol@ + "_create_parallel("@ + args + ");"@,
            "else "@ + b.symbol@ + "_create("@ + args + ");"@,
        ],
        Some(u) => (if b.is_part_mixed_array_not_uniform_parallel {
            seq!["mySubcomponentsParallel[aux_create+i] = "@ + spec_bool(u) + ";"@]
        } else {
            Seq::<Seq<char>>::empty()
        }) + seq![
            b.symbol@ + (if u {
                "_create_parallel("@
            } else {
                "_create("@
            }) + args + ");"@,
        ],
    }
}

/// A create-component instruction lowers to a loop over the materialized
/// positions; each iteration names the instance, lays out its offsets, calls
/// the template's create entry point and records the new slot. An instance
/// without declared inputs is run by its create routine, not here.
pub open spec fn create_cmp_code(b: CreateCmpBucket, p: CProducer, par: Option<bool>) -> Seq<
    Seq<char>,
>
    decreases b, 0int,
{
    instr_code(*b.sub_cmp_id, p, par) + seq![
        "{"@,
        "uint aux_create = "@ + instr_expr(*b.sub_cmp_id, p, par) + ";"@,
        "int aux_cmp_num = "@ + spec_dec(b.component_offset as nat) + "+ctx_index+1;"@,
        "uint csoffset = mySignalStart+"@ + spec_dec(b.signal_offset as nat) + ";"@,
    ] + (if b.number_of_cmp > 1 {
        seq![
            "uint aux_dimensions["@ + spec_dec(b.dimensions.len() as nat) + "] = "@
                + spec_set_list(b.dimensions@) + ";"@,
        ]
    } else {
        Seq::<Seq<char>>::empty()
    }) + (if b.uniform_parallel is None {
        seq![
            "bool aux_parallel["@ + spec_dec(b.number_of_cmp as nat) + "] = "@
                + spec_set_list_bool(b.defined_positions@.map_values(|x: (usize, bool)| x.1))
                + ";"@,
        ]
    } else {
        Seq::<Seq<char>>::empty()
    }) + create_loop_header(b) + seq![create_name_stmt(b)] + create_call_stmts(b) + seq![
        "mySubcomponents[aux_create+i] = aux_cmp_num;"@,
        "csoffset += "@ + spec_dec(b.signal_offset_jump as nat) + ";"@,
        "aux_cmp_num += "@ + spec_dec(b.component_offset_jump as nat) + ";"@,
        "}"@,
        "}"@,
    ]
}

// ---------------------------------------------------------------------------
// Call.
// ---------------------------------------------------------------------------
/// The staged size of the first `k` arguments in the call arena.
pub open spec fn args_prefix_size(types: Seq<InstrContext>, k: int) -> nat
    decreases k,
{
    if k <= 0 {
        0
    } else {
        args_prefix_size(types, k - 1) + types[k - 1].size as nat
    }
}

/// The statements that copy the first `k` arguments of a call into its
/// scratch arena, each by its own size.
pub open spec fn call_args_code(b: CallBucket, p: CProducer, par: Option<bool>, k: int) -> Seq<
    Seq<char>,
>
    decreases b, k,
{
    if k <= 0 || k > b.arguments@.len() {
        Seq::<Seq<char>>::empty()
    } else {
        let pos = "&lvarcall["@ + spec_dec(args_prefix_size(b.argument_types@, k - 1)) + "]"@;
        let src = instr_expr(*b.arguments@[k - 1], p, par);
        let copy_stmt = if b.argument_types@[k - 1].size > 1 {
            spec_build_call(
                "Fr_copyn"@,
                seq![pos, src, spec_dec(b.argument_types@[k - 1].size as nat)],
            ) + ";"@
        } else {
            spec_build_call("Fr_copy"@, seq![pos, src]) + ";"@
        };
        call_args_code(b, p, par, k - 1) + seq!["// copying argument "@ + spec_dec((k - 1) as nat)]
            + instr_code(*b.arguments@[k - 1], p, par) + seq![copy_stmt] + seq![
            "// end copying argument "@ + spec_dec((k - 1) as nat),
        ]
    }
}

/// The value handle of a call: the designated temporary slot for an
/// intermediate return, and nothing for a final one.
pub open spec fn call_expr(b: CallBucket) -> Seq<char> {
    match b.return_info {
        ReturnType::Intermediate { op_aux_no } => "&"@ + spec_expaux(spec_dec(op_aux_no as nat)),
        ReturnType::Final(_) => Seq::<char>::empty(),
    }
}

/// The statements of the destination resolution of a call with a final
/// destination; the rules are those of a store destination.
pub open spec fn final_dest_code(d: FinalData, p: CProducer, par: Option<bool>) -> Seq<Seq<char>>
    decreases d, 0int,
{
    match d.dest {
        LocationRule::Indexed { location, template_header } => instr_code(*location, p, par),
        LocationRule::Mapped { signal_code, indexes } => mapped_dest_code(indexes@, p, par),
    }
}

/// The offset expression of the destination resolution of a call with a
/// final destination.
pub open spec fn final_dest_index(d: FinalData, p: CProducer, par: Option<bool>) -> Seq<char>
    decreases d, 0int,
{
    match d.dest {
        LocationRule::Indexed { location, template_header } => instr_expr(*location, p, par),
        LocationRule::Mapped { signal_code, indexes } => mapped_dest_expr(
            spec_sub_cmp_pos("cmp_index_ref"@),
            signal_code as nat,
            indexes@,
        ),
    }
}

/// The destination pointer expression of a call with a final destination.
pub open spec fn final_dest_expr(d: FinalData, p: CProducer, par: Option<bool>) -> Seq<char>
    decreases d, 1int,
{
    match d.dest_address_type {
        AddressType::Variable => "&"@ + spec_lvar(final_dest_index(d, p, par)),
        AddressType::Signal => "&"@ + spec_signal_values(final_dest_index(d, p, par)),
        AddressType::SubcmpSignal { .. } => "&ctx->signalValues["@ + spec_sub_cmp_start(
            "cmp_index_ref"@,
        ) + " + "@ + final_dest_index(d, p, par) + "]"@,
    }
}

/// Whether a final call destination writes an own output of a parallel
/// component, so that the ready-flag notification is emitted.
pub open spec fn final_notifies(d: FinalData, par: Option<bool>) -> bool {
    d.dest_address_type is Signal && par == Some(true) && d.dest_is_output
}

/// The ready-flag notification after a call writes an own output signal.
pub open spec fn final_notify_code(d: FinalData, p: CProducer, par: Option<bool>) -> Seq<
    Seq<char>,
>
    decreases d, 1int,
{
    if final_notifies(d, par) {
        if d.context.size > 0 {
            seq!["{"@, "for (int i = 0; i < "@ + spec_dec(d.context.size as nat) + "; i++) {"@]
                + output_notify_block(final_dest_index(d, p, par) + "+i"@) + seq!["}"@, "}"@]
        } else {
            output_notify_block(final_dest_index(d, p, par))
        }
    } else {
        Seq::<Seq<char>>::empty()
    }
}

/// The trigger protocol a call runs when its final destination is a
/// sub-component input; the rules are shared verbatim with Store.
pub open spec fn final_trigger_code(d: FinalData) -> Seq<Seq<char>> {
    match d.dest_address_type {
        AddressType::SubcmpSignal { uniform_parallel_value, input_information, .. } => {
            match input_information {
                InputInformation::Input { status } => trigger_code(
                    d.dest is Indexed,
                    dest_header(d.dest),
                    status,
                    uniform_parallel_value,
                    d.context.size as nat,
                ),
                InputInformation::NoInput => Seq::<Seq<char>>::empty(),
            }
        },
        _ => Seq::<Seq<char>>::empty(),
    }
}

/// The statements that resolve the addressed sub-component of a final call
/// destination and pin its slot index in `cmp_index_ref`.
pub open spec fn final_cmp_code(d: FinalData, p: CProducer, par: Option<bool>) -> Seq<Seq<char>>
    decreases d, 1int,
{
    match d.dest_address_type {
        AddressType::SubcmpSignal { cmp_address, .. } => instr_code(*cmp_address, p, par) + seq![
            "{"@,
            "uint cmp_index_ref = "@ + instr_expr(*cmp_address, p, par) + ";"@,
        ],
        _ => Seq::<Seq<char>>::empty(),
    }
}

/// The closing brace of a mapped final destination, emitted right after the
/// call statement.
pub open spec fn final_close_mapped(d: FinalData) -> Seq<Seq<char>> {
    match d.dest {
        LocationRule::Mapped { signal_code, indexes } => if indexes.len() > 0 {
            seq!["}"@]
        } else {
            Seq::<Seq<char>>::empty()
        },
        _ => Seq::<Seq<char>>::empty(),
    }
}

/// The closing brace of the sub-component block of a final destination.
pub open spec fn final_close_cmp(d: FinalData) -> Seq<Seq<char>> {
    if d.dest_address_type is SubcmpSignal {
        seq!["}"@]
    } else {
        Seq::<Seq<char>>::empty()
    }
}

/// The call statement that hands the callee its context, the staged arena,
/// the caller identity, the destination pointer and the result size.
pub open spec fn final_call_stmt(symbol: Seq<char>, d: FinalData, p: CProducer, par: Option<bool>) -> Seq<char>
    decreases d, 2int,
{
    spec_build_call(
        symbol,
        seq![
            "ctx"@,
            "lvarcall"@,
            "myId"@,
            final_dest_expr(d, p, par),
            spec_dec(d.context.size as nat),
        ],
    ) + ";"@
}

/// The statements that perform the call itself and deliver its result.
pub open spec fn call_result_code(b: CallBucket, p: CProducer, par: Option<bool>) -> Seq<
    Seq<char>,
>
    decreases b, 0int,
{
    match b.return_info {
        ReturnType::Intermediate { op_aux_no } => seq![
            spec_build_call(
                b.symbol@,
                seq![
                    "ctx"@,
                    "lvarcall"@,
                    "myId"@,
                    "&"@ + spec_expaux(spec_dec(op_aux_no as nat)),
                    "1"@,
                ],
            ) + ";"@,
        ],
        ReturnType::Final(d) => final_cmp_code(d, p, par) + final_dest_code(d, p, par) + seq![
            final_call_stmt(b.symbol@, d, p, par),
        ] + final_close_mapped(d) + final_notify_code(d, p, par) + final_trigger_code(d)
            + final_close_cmp(d),
    }
}

/// A call stages its arguments into a contiguous scratch arena and invokes
/// the callee; the result lands in a temporary slot or in a caller-supplied
/// destination that follows the store rules.
pub open spec fn call_code(b: CallBucket, p: CProducer, par: Option<bool>) -> Seq<Seq<char>>
    decreases b, b.arguments@.len() + 1,
{
    seq![
        "{\n"@,
        "// start of call bucket"@,
        "FrElement lvarcall["@ + spec_dec(b.arena_size as nat) + "];"@,
    ] + call_args_code(b, p, par, b.arguments@.len() as int) + call_result_code(b, p, par) + seq![
        "// end call bucket"@,
        "}\n"@,
    ]
}

// ---------------------------------------------------------------------------
// Assert, Return, Log.
// ---------------------------------------------------------------------------
/// An assert evaluates its condition and emits the runtime truthiness check;
/// a failure aborts the generated program with the source line and the
/// template diagnostic identifier.
pub open spec fn assert_code(b: AssertBucket, p: CProducer, par: Option<bool>) -> Seq<Seq<char>>
    decreases b, 0int,
{
    let is_true = spec_is_true(instr_expr(*b.evaluate, p, par));
    instr_code(*b.evaluate, p, par) + seq![
        "if (!"@ + is_true + ") "@ + spec_failed_assert_message(
            b.line as nat,
            b.message_id as nat,
        ) + ";"@,
        "assert("@ + is_true + ");"@,
    ]
}

/// A return evaluates its value, copies it into the caller-supplied
/// destination by the expected size, and emits the return statement.
pub open spec fn return_code(b: ReturnBucket, p: CProducer, par: Option<bool>) -> Seq<Seq<char>>
    decreases b, 0int,
{
    let copy_stmt = if b.with_size > 1 {
        spec_build_call(
            "Fr_copyn"@,
            seq!["destination"@, instr_expr(*b.value, p, par), "destination_size"@],
        ) + ";"@
    } else {
        spec_build_call("Fr_copy"@, seq!["destination"@, instr_expr(*b.value, p, par)]) + ";"@
    };
    seq!["// return bucket"@] + instr_code(*b.value, p, par) + seq![copy_stmt, "return;"@]
}

/// The statements that print one log operand: an expression operand is
/// stringified through the field library, a string operand is printed
/// verbatim from the string table.
pub open spec fn log_arg_code(a: LogBucketArg, p: CProducer, par: Option<bool>) -> Seq<Seq<char>>
    decreases a, 0int,
{
    match a {
        LogBucketArg::LogExp(e) => instr_code(*e, p, par) + seq![
            "{"@,
            "char* temp = Fr_element2str("@ + instr_expr(*e, p, par) + ");"@,
            "printf(\"%s\",temp);"@,
            "delete [] temp;"@,
            "}"@,
        ],
        LogBucketArg::LogStr(id) => seq![
            "{"@,
            "printf(\""@ + (if (id as nat) < p.string_table@.len() {
                p.string_table@[id as int]@
            } else {
                Seq::<char>::empty()
            }) + "\");"@,
            "}"@,
        ],
    }
}

/// The separator block printed between two neighbouring log operands.
pub open spec fn log_space_block() -> Seq<Seq<char>> {
    seq!["{"@, "printf(\" \");"@, "}"@]
}

/// The statements that print the first `k` operands of a log, separated by
/// single spaces.
pub open spec fn log_args_code(b: LogBucket, p: CProducer, par: Option<bool>, k: int) -> Seq<
    Seq<char>,
>
    decreases b, k,
{
    if k <= 0 || k > b.argsprint@.len() {
        Seq::<Seq<char>>::empty()
    } else {
        log_args_code(b, p, par, k - 1) + log_arg_code(b.argsprint@[k - 1], p, par) + (if k
            != b.argsprint@.len() {
            log_space_block()
        } else {
            Seq::<Seq<char>>::empty()
        })
    }
}

/// A log prints its operands in order, separated by single spaces, and ends
/// the line with a newline.
pub open spec fn log_code(b: LogBucket, p: CProducer, par: Option<bool>) -> Seq<Seq<char>>
    decreases b, b.argsprint@.len() + 1,
{
    log_args_code(b, p, par, b.argsprint@.len() as int) + seq![
        "{"@,
        "printf(\"\\n\");"@,
        "}"@,
    ]
}

} // verus!
