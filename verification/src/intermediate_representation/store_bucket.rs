//! A write of a value into a resolved destination. A store into a
//! sub-component input runs the shared activation protocol; a store into an
//! own output of a parallel component notifies the waiting readers.
use vstd::prelude::*;

use crate::c_code_generator::{build_call, lvar, signal_values, template_id_in_component};
use crate::c_elements::CProducer;
use crate::intermediate_representation::address_resolution::produce_mapped_dest;
use crate::intermediate_representation::ir_interface::{
    wf_address, wf_dest, wf_instr, wf_location, AddressType, InputInformation, Instruction,
    InstrContext, InstructionPointer, LocationRule,
};
use crate::intermediate_representation::lowering_spec::{
    dest_header, instr_code, instr_expr, spec_sub_cmp_start, store_aux_keep, store_cmp_code,
    store_code, store_copy_code, store_dest_code, store_dest_expr, store_dest_index,
    store_notifies, store_open_code, store_trigger_code, opt_str_view,
};
use crate::intermediate_representation::subcomponent_run::{produce_notify, produce_trigger};
use crate::text::{dec_of, string_of, views};

verus! {

broadcast use crate::text::group_views_axioms;

pub struct StoreBucket {
    pub line: usize,
    pub message_id: usize,
    pub context: InstrContext,
    pub dest_is_output: bool,
    pub dest_address_type: AddressType,
    pub dest: LocationRule,
    pub src: InstructionPointer,
}

impl StoreBucket {
    pub fn into_instruction(self) -> (r: Instruction)
        ensures
            r == Instruction::Store(self),
    {
        Instruction::Store(self)
    }

    pub fn allocate(self) -> (r: InstructionPointer)
        ensures
            *r == Instruction::Store(self),
    {
        Box::new(self.into_instruction())
    }

    pub fn get_line(&self) -> (r: usize)
        ensures
            r == self.line,
    {
        self.line
    }

    pub fn get_message_id(&self) -> (r: usize)
        ensures
            r == self.message_id,
    {
        self.message_id
    }

    /// Resolves the destination, evaluates the source, emits the size-aware
    /// copy, and runs the sub-component activation protocol where the
    /// destination is a sub-component input.
    #[verifier::rlimit(100)]
    pub fn produce_c(&self, producer: &CProducer, parallel: Option<bool>) -> (r: (
        Vec<String>,
        String,
    ))
        requires
            wf_address(self.dest_address_type, producer.string_table@.len() as int),
            wf_location(self.dest, producer.string_table@.len() as int),
            wf_instr(*self.src, producer.string_table@.len() as int),
            wf_dest(self.dest_address_type, self.dest),
        ensures
            views(r.0@) == store_code(*self, *producer, parallel),
            r.1@ == Seq::<char>::empty(),
        decreases *self, 4int,
    {
        let mut prologue: Vec<String> = Vec::new();
        // Sub-component resolution: pin the slot index in cmp_index_ref.
        if let AddressType::SubcmpSignal { cmp_address, .. } = &self.dest_address_type {
            let (mut cmp_prologue, cmp_index) = cmp_address.produce_c(producer, parallel);
            prologue.append(&mut cmp_prologue);
            prologue.push(string_of("{"));
            let mut pin = string_of("uint cmp_index_ref = ");
            pin.append(cmp_index.as_str());
            pin.append(";");
            prologue.push(pin);
        }
        proof {
            assert(views(prologue@) =~= store_cmp_code(*self, *producer, parallel));
        }
        // Destination resolution, and the header the trigger protocol uses.
        let dest_index: String;
        let my_template_header: Option<String>;
        match &self.dest {
            LocationRule::Indexed { location, template_header } => {
                let (mut dest_prologue, idx) = location.produce_c(producer, parallel);
                prologue.append(&mut dest_prologue);
                dest_index = idx;
                my_template_header = match template_header {
                    Some(h) => Some(h.clone()),
                    None => None,
                };
            },
            LocationRule::Mapped { signal_code, indexes } => {
                let (mut dest_prologue, idx) = produce_mapped_dest(
                    *signal_code,
                    indexes,
                    producer,
                    parallel,
                );
                prologue.append(&mut dest_prologue);
                dest_index = idx;
                let mut pos = string_of("mySubcomponents[");
                pos.append("cmp_index_ref");
                pos.append("]");
                my_template_header = Some(template_id_in_component(pos));
            },
        }
        proof {
            assert(dest_index@ == store_dest_index(*self, *producer, parallel));
            assert(opt_str_view(my_template_header) == dest_header(self.dest));
            assert(views(prologue@) =~= store_cmp_code(*self, *producer, parallel)
                + store_dest_code(*self, *producer, parallel));
        }
        // The destination pointer expression.
        let dest: String;
        match &self.dest_address_type {
            AddressType::Variable => {
                let mut a = string_of("&");
                let slot = lvar(dest_index.clone());
                a.append(slot.as_str());
                dest = a;
            },
            AddressType::Signal => {
                let mut a = string_of("&");
                let slot = signal_values(dest_index.clone());
                a.append(slot.as_str());
                dest = a;
            },
            AddressType::SubcmpSignal { .. } => {
                let mut start = string_of("ctx->componentMemory[");
                start.append("mySubcomponents[");
                start.append("cmp_index_ref");
                start.append("]");
                start.append("].signalStart");
                let mut a = string_of("&ctx->signalValues[");
                a.append(start.as_str());
                a.append(" + ");
                a.append(dest_index.as_str());
                a.append("]");
                proof {
                    assert(a@ =~= "&ctx->signalValues["@ + spec_sub_cmp_start("cmp_index_ref"@)
                        + " + "@ + dest_index@ + "]"@);
                }
                dest = a;
            },
        }
        proof {
            assert(dest@ == store_dest_expr(*self, *producer, parallel));
        }
        // Keep the destination index for the notification of a parallel
        // output store.
        let is_parallel = match parallel {
            Some(true) => true,
            _ => false,
        };
        let notifies = match &self.dest_address_type {
            AddressType::Signal => is_parallel && self.dest_is_output,
            _ => false,
        };
        proof {
            assert(notifies == store_notifies(*self, parallel));
        }
        if notifies {
            prologue.push(string_of("{"));
            let mut keep = string_of("uint aux_dest_index = ");
            keep.append(dest_index.as_str());
            keep.append(";");
            prologue.push(keep);
        }
        proof {
            assert(views(prologue@) =~= store_cmp_code(*self, *producer, parallel)
                + store_dest_code(*self, *producer, parallel) + store_aux_keep(
                *self,
                *producer,
                parallel,
            ));
        }
        // Open the copy block, pin the destination pointer, load the source.
        prologue.push(string_of("{"));
        let mut pin_dest = string_of("PFrElement aux_dest = ");
        pin_dest.append(dest.as_str());
        pin_dest.append(";");
        prologue.push(pin_dest);
        prologue.push(string_of("// load src"));
        let (mut src_prologue, src) = self.src.produce_c(producer, parallel);
        prologue.append(&mut src_prologue);
        prologue.push(string_of("// end load src"));
        proof {
            assert(views(prologue@) =~= store_cmp_code(*self, *producer, parallel)
                + store_dest_code(*self, *producer, parallel) + store_aux_keep(
                *self,
                *producer,
                parallel,
            ) + store_open_code(*self, *producer, parallel));
        }
        // The size-aware copy, with the ready-flag notification for a
        // parallel output store.
        if self.context.size > 1 {
            let copy_arguments = vec![string_of("aux_dest"), src, dec_of(self.context.size)];
            proof {
                assert(views(copy_arguments@) =~= seq![
                    "aux_dest"@,
                    instr_expr(*self.src, *producer, parallel),
                    crate::text::spec_dec(self.context.size as nat),
                ]);
            }
            let mut copy_stmt = build_call(string_of("Fr_copyn"), copy_arguments);
            copy_stmt.append(";");
            prologue.push(copy_stmt);
            if notifies {
                prologue.push(string_of("{"));
                let mut for_line = string_of("for (int i = 0; i < ");
                let size_txt = dec_of(self.context.size);
                for_line.append(size_txt.as_str());
                for_line.append("; i++) {");
                prologue.push(for_line);
                let indexed_slot = string_of("aux_dest_index+i");
                let mut notify = produce_notify(&indexed_slot);
                prologue.append(&mut notify);
                prologue.push(string_of("}"));
                prologue.push(string_of("}"));
                prologue.push(string_of("}"));
            }
        } else {
            let copy_arguments = vec![string_of("aux_dest"), src];
            proof {
                assert(views(copy_arguments@) =~= seq![
                    "aux_dest"@,
                    instr_expr(*self.src, *producer, parallel),
                ]);
            }
            let mut copy_stmt = build_call(string_of("Fr_copy"), copy_arguments);
            copy_stmt.append(";");
            prologue.push(copy_stmt);
            if notifies {
                let slot = string_of("aux_dest_index");
                let mut notify = produce_notify(&slot);
                prologue.append(&mut notify);
                prologue.push(string_of("}"));
            }
        }
        proof {
            assert(views(prologue@) =~= store_cmp_code(*self, *producer, parallel)
                + store_dest_code(*self, *producer, parallel) + store_aux_keep(
                *self,
                *producer,
                parallel,
            ) + store_open_code(*self, *producer, parallel) + store_copy_code(
                *self,
                *producer,
                parallel,
            ));
        }
        prologue.push(string_of("}"));
        // The shared sub-component activation protocol.
        if let AddressType::SubcmpSignal { uniform_parallel_value, input_information, .. } =
            &self.dest_address_type {
            if let InputInformation::Input { status } = input_information {
                let indexed = match &self.dest {
                    LocationRule::Indexed { .. } => true,
                    _ => false,
                };
                let mut trigger = produce_trigger(
                    indexed,
                    &my_template_header,
                    *status,
                    *uniform_parallel_value,
                    self.context.size,
                );
                prologue.append(&mut trigger);
            }
        }
        proof {
            assert(views(prologue@) =~= store_cmp_code(*self, *producer, parallel)
                + store_dest_code(*self, *producer, parallel) + store_aux_keep(
                *self,
                *producer,
                parallel,
            ) + store_open_code(*self, *producer, parallel) + store_copy_code(
                *self,
                *producer,
                parallel,
            ) + seq!["}"@] + store_trigger_code(*self));
        }
        // Close the sub-component and mapped-destination blocks.
        if let AddressType::SubcmpSignal { .. } = &self.dest_address_type {
            prologue.push(string_of("}"));
        }
        if let LocationRule::Mapped { indexes, .. } = &self.dest {
            if indexes.len() > 0 {
                prologue.push(string_of("}"));
            }
        }
        proof {
            assert(views(prologue@) =~= store_code(*self, *producer, parallel));
        }
        (prologue, String::new())
    }
}

} // verus!
