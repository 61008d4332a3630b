//! The instruction model: a closed, tagged union of every runtime operation
//! a circuit program can perform, together with the address and location
//! descriptors its memory-touching instructions carry, and the
//! well-formedness conditions that the upstream producer of the trees
//! guarantees and the lowering relies on.
use vstd::prelude::*;

use crate::c_elements::CProducer;
pub use crate::intermediate_representation::assert_bucket::AssertBucket;
pub use crate::intermediate_representation::branch_bucket::BranchBucket;
pub use crate::intermediate_representation::call_bucket::{CallBucket, FinalData, ReturnType};
pub use crate::intermediate_representation::create_component_bucket::CreateCmpBucket;
pub use crate::intermediate_representation::load_bucket::LoadBucket;
pub use crate::intermediate_representation::log_bucket::{LogBucket, LogBucketArg};
pub use crate::intermediate_representation::loop_bucket::LoopBucket;
use crate::intermediate_representation::lowering_spec::{instr_code, instr_expr};
pub use crate::intermediate_representation::return_bucket::ReturnBucket;
pub use crate::intermediate_representation::store_bucket::StoreBucket;
pub use crate::intermediate_representation::value_bucket::ValueBucket;
use crate::text::views;

verus! {

/// An owned node of an instruction tree.
pub type InstructionPointer = Box<Instruction>;

/// An owned instruction sequence.
pub type InstructionList = Vec<InstructionPointer>;

/// How many field elements an instruction touches.
#[derive(Clone, Copy)]
pub struct InstrContext {
    pub size: usize,
}

/// How a literal is to be read: a small machine integer, or an index into
/// the table of big field constants.
#[derive(Clone, Copy)]
pub enum ValueType {
    BigInt,
    U32,
}

/// Whether a write into a sub-component input is known to be the last
/// missing one, known not to be, or undecidable before execution.
#[derive(Clone, Copy)]
pub enum StatusInput {
    Last,
    NoLast,
    Unknown,
}

/// Classifies a sub-component signal write: an input write carries its
/// last-input status.
#[derive(Clone, Copy)]
pub enum InputInformation {
    NoInput,
    Input { status: StatusInput },
}

/// Where a value lives: a local variable slot, an own signal, or a signal
/// of a named sub-component.
pub enum AddressType {
    Variable,
    Signal,
    SubcmpSignal {
        cmp_address: InstructionPointer,
        uniform_parallel_value: Option<bool>,
        is_output: bool,
        input_information: InputInformation,
    },
}

/// How a signal offset is found: a precomputed expression, or a symbolic
/// signal identifier with indexes folded against the per-template I/O table.
pub enum LocationRule {
    Indexed { location: InstructionPointer, template_header: Option<String> },
    Mapped { signal_code: usize, indexes: Vec<InstructionPointer> },
}

/// The closed instruction set.
pub enum Instruction {
    Value(ValueBucket),
    Load(LoadBucket),
    Store(StoreBucket),
    Branch(BranchBucket),
    CreateCmp(CreateCmpBucket),
    Loop(LoopBucket),
    Call(CallBucket),
    Assert(AssertBucket),
    Return(ReturnBucket),
    Log(LogBucket),
}

// ---------------------------------------------------------------------------
// Well-formedness: what the upstream producer of the trees guarantees.
// A combination outside these conditions is an internal-invariant violation
// and is rejected before any lowering starts.
// ---------------------------------------------------------------------------
/// The conditions on an address/location pair used as a write destination:
/// a mapped location only addresses a sub-component, a sub-component write
/// carries input information, and a triggering indexed write knows the
/// target template's header.
pub open spec fn wf_dest(addr: AddressType, dest: LocationRule) -> bool {
    &&& (dest is Mapped ==> addr is SubcmpSignal)
    &&& (addr matches AddressType::SubcmpSignal { input_information, .. } ==> {
        &&& input_information is Input
        &&& (dest matches LocationRule::Indexed { template_header, .. } ==> ((
        input_information matches InputInformation::Input { status } && !(status is NoLast))
            ==> template_header is Some))
    })
}

/// Well-formedness of one instruction, against a string table of `nstr`
/// entries.
pub open spec fn wf_instr(i: Instruction, nstr: int) -> bool
    decreases i, 2int,
{
    match i {
        Instruction::Value(b) => true,
        Instruction::Load(b) => {
            &&& wf_address(b.address_type, nstr)
            &&& wf_location(b.src, nstr)
            &&& (b.src is Mapped ==> b.address_type is SubcmpSignal)
        },
        Instruction::Store(b) => {
            &&& wf_address(b.dest_address_type, nstr)
            &&& wf_location(b.dest, nstr)
            &&& wf_instr(*b.src, nstr)
            &&& wf_dest(b.dest_address_type, b.dest)
        },
        Instruction::Branch(b) => {
            &&& wf_instr(*b.cond, nstr)
            &&& wf_list(b.if_branch@, nstr)
            &&& wf_list(b.else_branch@, nstr)
        },
        Instruction::CreateCmp(b) => wf_instr(*b.sub_cmp_id, nstr),
        Instruction::Loop(b) => {
            &&& wf_instr(*b.continue_condition, nstr)
            &&& wf_list(b.body@, nstr)
        },
        Instruction::Call(b) => {
            &&& wf_list(b.arguments@, nstr)
            &&& b.argument_types.len() == b.arguments.len()
            &&& crate::intermediate_representation::lowering_spec::args_prefix_size(
                b.argument_types@,
                b.argument_types@.len() as int,
            ) <= usize::MAX
            &&& match b.return_info {
                ReturnType::Intermediate { op_aux_no } => true,
                ReturnType::Final(d) => {
                    &&& wf_address(d.dest_address_type, nstr)
                    &&& wf_location(d.dest, nstr)
                    &&& wf_dest(d.dest_address_type, d.dest)
                },
            }
        },
        Instruction::Assert(b) => wf_instr(*b.evaluate, nstr),
        Instruction::Return(b) => wf_instr(*b.value, nstr),
        Instruction::Log(b) => forall|j: int|
            0 <= j < b.argsprint@.len() ==> wf_log_arg(#[trigger] b.argsprint@[j], nstr),
    }
}

/// Lowers an instruction sequence in order, concatenating the statements;
/// the value handles of the elements are discarded.
pub fn produce_list_code(l: &InstructionList, producer: &CProducer, parallel: Option<bool>) -> (r:
    Vec<String>)
    requires
        wf_list(l@, producer.string_table@.len() as int),
    ensures
        views(r@) == crate::intermediate_representation::lowering_spec::list_code(
            l@,
            *producer,
            parallel,
        ),
    decreases l@, 0int,
{
    let mut acc: Vec<String> = Vec::new();
    let mut i: usize = 0;
    while i < l.len()
        invariant
            i <= l.len(),
            wf_list(l@, producer.string_table@.len() as int),
            views(acc@) == crate::intermediate_representation::lowering_spec::list_code(
                l@.take(i as int),
                *producer,
                parallel,
            ),
        decreases l.len() - i,
    {
        let (mut code, _) = l[i].produce_c(producer, parallel);
        acc.append(&mut code);
        proof {
            assert(l@.take(i + 1).drop_last() =~= l@.take(i as int));
            assert(l@.take(i + 1).last() == l@[i as int]);
            assert(views(acc@) =~= crate::intermediate_representation::lowering_spec::list_code(
                l@.take(i + 1),
                *producer,
                parallel,
            ));
        }
        i += 1;
    }
    proof {
        assert(l@.take(l@.len() as int) =~= l@);
    }
    acc
}

/// Well-formedness of one log operand.
pub open spec fn wf_log_arg(a: LogBucketArg, nstr: int) -> bool
    decreases a, 3int,
{
    match a {
        LogBucketArg::LogExp(e) => wf_instr(*e, nstr),
        LogBucketArg::LogStr(id) => (id as int) < nstr,
    }
}

/// Well-formedness of every instruction of a sequence.
pub open spec fn wf_list(l: Seq<InstructionPointer>, nstr: int) -> bool
    decreases l, 3int,
{
    forall|j: int| 0 <= j < l.len() ==> wf_instr(*(#[trigger] l[j]), nstr)
}

/// Well-formedness of an address descriptor.
pub open spec fn wf_address(a: AddressType, nstr: int) -> bool
    decreases a, 3int,
{
    match a {
        AddressType::SubcmpSignal { cmp_address, .. } => wf_instr(*cmp_address, nstr),
        _ => true,
    }
}

/// Well-formedness of a location rule.
pub open spec fn wf_location(l: LocationRule, nstr: int) -> bool
    decreases l, 3int,
{
    match l {
        LocationRule::Indexed { location, .. } => wf_instr(*location, nstr),
        LocationRule::Mapped { indexes, .. } => forall|j: int|
            0 <= j < indexes@.len() ==> wf_instr(*(#[trigger] indexes@[j]), nstr),
    }
}

impl Instruction {
    /// Lowers this instruction: the ordered target statements, and the
    /// expression denoting the computed value where one exists.
    pub fn produce_c(&self, producer: &CProducer, parallel: Option<bool>) -> (r: (
        Vec<String>,
        String,
    ))
        requires
            wf_instr(*self, producer.string_table@.len() as int),
        ensures
            views(r.0@) == instr_code(*self, *producer, parallel),
            r.1@ == instr_expr(*self, *producer, parallel),
        decreases *self, 1int,
    {
        match self {
            Instruction::Value(b) => b.produce_c(producer, parallel),
            Instruction::Load(b) => b.produce_c(producer, parallel),
            Instruction::Store(b) => b.produce_c(producer, parallel),
            Instruction::Branch(b) => b.produce_c(producer, parallel),
            Instruction::CreateCmp(b) => b.produce_c(producer, parallel),
            Instruction::Loop(b) => b.produce_c(producer, parallel),
            Instruction::Call(b) => b.produce_c(producer, parallel),
            Instruction::Assert(b) => b.produce_c(producer, parallel),
            Instruction::Return(b) => b.produce_c(producer, parallel),
            Instruction::Log(b) => b.produce_c(producer, parallel),
        }
    }
}

} // verus!
