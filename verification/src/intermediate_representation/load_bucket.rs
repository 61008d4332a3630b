//! A read of a value slot. A load from an output signal of a parallel
//! sub-component first performs the guarded wait of the concurrency
//! protocol, then hands back the pointer expression of the resolved slot.
use vstd::prelude::*;

use crate::c_code_generator::{lvar, signal_values};
use crate::c_elements::CProducer;
use crate::intermediate_representation::address_resolution::produce_mapped_src;
use crate::intermediate_representation::ir_interface::{
    wf_address, wf_location, AddressType, Instruction, InstrContext, InstructionPointer,
    LocationRule,
};
use crate::intermediate_representation::lowering_spec::{
    load_cmp_expr, load_code, load_expr, load_src_code, load_src_index, load_wait_code,
    spec_sub_cmp_start,
};
use crate::intermediate_representation::subcomponent_run::produce_wait;
use crate::text::{string_of, views};

verus! {

broadcast use crate::text::group_views_axioms;

pub struct LoadBucket {
    pub line: usize,
    pub message_id: usize,
    pub address_type: AddressType,
    pub src: LocationRule,
    pub context: InstrContext,
}

impl LoadBucket {
    pub fn into_instruction(self) -> (r: Instruction)
        ensures
            r == Instruction::Load(self),
    {
        Instruction::Load(self)
    }

    pub fn allocate(self) -> (r: InstructionPointer)
        ensures
            *r == Instruction::Load(self),
    {
        Box::new(self.into_instruction())
    }

    pub fn get_line(&self) -> (r: usize)
        ensures
            r == self.line,
    {
        self.line
    }

    pub fn get_message_id(&self) -> (r: usize)
        ensures
            r == self.message_id,
    {
        self.message_id
    }

    /// Resolves the address, emits the guarded wait where the protocol asks
    /// for one, and returns the pointer expression of the resolved slot.
    pub fn produce_c(&self, producer: &CProducer, parallel: Option<bool>) -> (r: (
        Vec<String>,
        String,
    ))
        requires
            wf_address(self.address_type, producer.string_table@.len() as int),
            wf_location(self.src, producer.string_table@.len() as int),
            self.src is Mapped ==> self.address_type is SubcmpSignal,
        ensures
            views(r.0@) == load_code(*self, *producer, parallel),
            r.1@ == load_expr(*self, *producer, parallel),
        decreases *self, 3int,
    {
        let mut prologue: Vec<String> = Vec::new();
        let cmp_index_ref: String;
        if let AddressType::SubcmpSignal { cmp_address, .. } = &self.address_type {
            let (mut cmp_prologue, cmp_index) = cmp_address.produce_c(producer, parallel);
            prologue.append(&mut cmp_prologue);
            cmp_index_ref = cmp_index;
        } else {
            cmp_index_ref = String::new();
        }
        proof {
            assert(cmp_index_ref@ == load_cmp_expr(*self, *producer, parallel));
        }
        let src_index: String;
        match &self.src {
            LocationRule::Indexed { location, .. } => {
                let (mut src_prologue, idx) = location.produce_c(producer, parallel);
                prologue.append(&mut src_prologue);
                src_index = idx;
            },
            LocationRule::Mapped { signal_code, indexes } => {
                let (mut src_prologue, idx) = produce_mapped_src(
                    &cmp_index_ref,
                    *signal_code,
                    indexes,
                    producer,
                    parallel,
                );
                prologue.append(&mut src_prologue);
                src_index = idx;
            },
        }
        proof {
            assert(src_index@ == load_src_index(*self, *producer, parallel));
            assert(views(prologue@) =~= (match self.address_type {
                AddressType::SubcmpSignal { cmp_address, .. } => crate::intermediate_representation::lowering_spec::instr_code(
                    *cmp_address,
                    *producer,
                    parallel,
                ),
                _ => Seq::<Seq<char>>::empty(),
            }) + load_src_code(*self, *producer, parallel));
        }
        if let AddressType::SubcmpSignal { uniform_parallel_value, is_output, .. } =
            &self.address_type {
            if *is_output {
                match uniform_parallel_value {
                    Some(true) => {
                        let mut wait = produce_wait(&cmp_index_ref, &src_index, self.context.size);
                        prologue.append(&mut wait);
                    },
                    Some(false) => {},
                    None => {
                        let mut guard = string_of("if (mySubcomponentsParallel[");
                        guard.append(cmp_index_ref.as_str());
                        guard.append("]){");
                        prologue.push(guard);
                        let mut wait = produce_wait(&cmp_index_ref, &src_index, self.context.size);
                        prologue.append(&mut wait);
                        prologue.push(string_of("}"));
                    },
                }
            }
        }
        proof {
            assert(views(prologue@) =~= load_code(*self, *producer, parallel));
        }
        let access: String;
        match &self.address_type {
            AddressType::Variable => {
                let mut a = string_of("&");
                let slot = lvar(src_index);
                a.append(slot.as_str());
                access = a;
            },
            AddressType::Signal => {
                let mut a = string_of("&");
                let slot = signal_values(src_index);
                a.append(slot.as_str());
                access = a;
            },
            AddressType::SubcmpSignal { .. } => {
                let mut start = string_of("ctx->componentMemory[");
                start.append("mySubcomponents[");
                start.append(cmp_index_ref.as_str());
                start.append("]");
                start.append("].signalStart");
                let mut a = string_of("&ctx->signalValues[");
                a.append(start.as_str());
                a.append(" + ");
                a.append(src_index.as_str());
                a.append("]");
                proof {
                    assert(a@ =~= "&ctx->signalValues["@ + spec_sub_cmp_start(cmp_index_ref@)
                        + " + "@ + src_index@ + "]"@);
                }
                access = a;
            },
        }
        proof {
            assert(access@ == load_expr(*self, *producer, parallel));
        }
        (prologue, access)
    }
}

} // verus!
