//! A call of a generated function. Arguments are staged by size into a
//! contiguous scratch arena; the result lands in a temporary slot or in a
//! caller-supplied final destination that follows the store rules, shared
//! activation protocol included.
use vstd::prelude::*;

use crate::c_code_generator::{build_call, expaux, lvar, signal_values, template_id_in_component};
use crate::c_elements::CProducer;
use crate::intermediate_representation::address_resolution::produce_mapped_dest;
use crate::intermediate_representation::ir_interface::{
    wf_address, wf_dest, wf_list, wf_location, AddressType, InputInformation, Instruction,
    InstrContext, InstructionList, InstructionPointer, LocationRule,
};
use crate::intermediate_representation::lowering_spec::{
    args_prefix_size, call_args_code, call_code, call_expr, call_result_code, dest_header,
    final_call_stmt, final_close_cmp, final_close_mapped, final_cmp_code, final_dest_code,
    final_dest_expr, final_dest_index, final_notifies, final_notify_code, final_trigger_code,
    instr_code, instr_expr, opt_str_view, spec_sub_cmp_start,
};
use crate::intermediate_representation::subcomponent_run::{produce_notify, produce_trigger};
use crate::text::{dec_of, spec_dec, string_of, views};

verus! {

broadcast use crate::text::group_views_axioms;

pub struct FinalData {
    // greater than one only with signals
    pub context: InstrContext,
    pub dest_is_output: bool,
    pub dest_address_type: AddressType,
    pub dest: LocationRule,
}

pub enum ReturnType {
    Intermediate { op_aux_no: usize },
    Final(FinalData),
}

pub struct CallBucket {
    pub line: usize,
    pub message_id: usize,
    pub symbol: String,
    pub argument_types: Vec<InstrContext>,
    pub arguments: InstructionList,
    pub arena_size: usize,
    pub return_info: ReturnType,
}

/// Prefix sums of the argument sizes never shrink.
proof fn lemma_args_prefix_mono(types: Seq<InstrContext>, k1: int, k2: int)
    requires
        0 <= k1 <= k2,
    ensures
        args_prefix_size(types, k1) <= args_prefix_size(types, k2),
    decreases k2 - k1,
{
    if k1 < k2 {
        lemma_args_prefix_mono(types, k1, k2 - 1);
    }
}

impl CallBucket {
    pub fn into_instruction(self) -> (r: Instruction)
        ensures
            r == Instruction::Call(self),
    {
        Instruction::Call(self)
    }

    pub fn allocate(self) -> (r: InstructionPointer)
        ensures
            *r == Instruction::Call(self),
    {
        Box::new(self.into_instruction())
    }

    pub fn get_line(&self) -> (r: usize)
        ensures
            r == self.line,
    {
        self.line
    }

    pub fn get_message_id(&self) -> (r: usize)
        ensures
            r == self.message_id,
    {
        self.message_id
    }

    /// Stages the arguments into the call arena and performs the call; a
    /// final destination follows the store rules, the shared activation
    /// protocol included.
    #[verifier::rlimit(100)]
    pub fn produce_c(&self, producer: &CProducer, parallel: Option<bool>) -> (r: (
        Vec<String>,
        String,
    ))
        requires
            wf_list(self.arguments@, producer.string_table@.len() as int),
            self.argument_types.len() == self.arguments.len(),
            args_prefix_size(self.argument_types@, self.argument_types@.len() as int)
                <= usize::MAX,
            (self.return_info matches ReturnType::Final(d) ==> {
                &&& wf_address(d.dest_address_type, producer.string_table@.len() as int)
                &&& wf_location(d.dest, producer.string_table@.len() as int)
                &&& wf_dest(d.dest_address_type, d.dest)
            }),
        ensures
            views(r.0@) == call_code(*self, *producer, parallel),
            r.1@ == call_expr(*self),
        decreases *self, 4int,
    {
        let mut prologue: Vec<String> = Vec::new();
        prologue.push(string_of("{\n"));
        prologue.push(string_of("// start of call bucket"));
        let mut arena = string_of("FrElement lvarcall[");
        let arena_txt = dec_of(self.arena_size);
        arena.append(arena_txt.as_str());
        arena.append("];");
        prologue.push(arena);
        let ghost header = seq![
            "{\n"@,
            "// start of call bucket"@,
            "FrElement lvarcall["@ + spec_dec(self.arena_size as nat) + "];"@,
        ];
        proof {
            assert(views(prologue@) =~= header);
        }
        // Stage the arguments, each copied by its own size at its running
        // offset in the arena.
        let mut count: usize = 0;
        let mut i: usize = 0;
        while i < self.arguments.len()
            invariant
                i <= self.arguments.len(),
                wf_list(self.arguments@, producer.string_table@.len() as int),
                self.argument_types.len() == self.arguments.len(),
                args_prefix_size(self.argument_types@, self.argument_types@.len() as int)
                    <= usize::MAX,
                count == args_prefix_size(self.argument_types@, i as int),
                views(prologue@) == header + call_args_code(*self, *producer, parallel, i as int),
            decreases self.arguments.len() - i,
        {
            let mut open_comment = string_of("// copying argument ");
            let i_txt = dec_of(i);
            open_comment.append(i_txt.as_str());
            prologue.push(open_comment);
            let (mut prologue_value, src) = self.arguments[i].produce_c(producer, parallel);
            prologue.append(&mut prologue_value);
            let mut arena_position = string_of("&lvarcall[");
            let count_txt = dec_of(count);
            arena_position.append(count_txt.as_str());
            arena_position.append("]");
            let size_i = self.argument_types[i].size;
            let copy_stmt = if size_i > 1 {
                let copy_arguments = vec![arena_position, src, dec_of(size_i)];
                proof {
                    assert(views(copy_arguments@) =~= seq![
                        "&lvarcall["@ + spec_dec(count as nat) + "]"@,
                        instr_expr(*self.arguments@[i as int], *producer, parallel),
                        spec_dec(size_i as nat),
                    ]);
                }
                build_call(string_of("Fr_copyn"), copy_arguments)
            } else {
                let copy_arguments = vec![arena_position, src];
                proof {
                    assert(views(copy_arguments@) =~= seq![
                        "&lvarcall["@ + spec_dec(count as nat) + "]"@,
                        instr_expr(*self.arguments@[i as int], *producer, parallel),
                    ]);
                }
                build_call(string_of("Fr_copy"), copy_arguments)
            };
            let mut copy_line = copy_stmt;
            copy_line.append(";");
            prologue.push(copy_line);
            let mut close_comment = string_of("// end copying argument ");
            let i_txt2 = dec_of(i);
            close_comment.append(i_txt2.as_str());
            prologue.push(close_comment);
            proof {
                lemma_args_prefix_mono(
                    self.argument_types@,
                    i + 1,
                    self.argument_types@.len() as int,
                );
                assert(views(prologue@) =~= header + call_args_code(
                    *self,
                    *producer,
                    parallel,
                    i + 1,
                ));
            }
            count += size_i;
            i += 1;
        }
        // Perform the call and deliver its result.
        let result: String;
        match &self.return_info {
            ReturnType::Intermediate { op_aux_no } => {
                let exp_aux_index = dec_of(*op_aux_no);
                let mut result_ref = string_of("&");
                let slot = expaux(exp_aux_index);
                result_ref.append(slot.as_str());
                let call_arguments = vec![
                    string_of("ctx"),
                    string_of("lvarcall"),
                    string_of("myId"),
                    result_ref.clone(),
                    string_of("1"),
                ];
                proof {
                    assert(views(call_arguments@) =~= seq![
                        "ctx"@,
                        "lvarcall"@,
                        "myId"@,
                        "&"@ + crate::c_code_generator::spec_expaux(
                            spec_dec(*op_aux_no as nat),
                        ),
                        "1"@,
                    ]);
                }
                let mut call_stmt = build_call(self.symbol.clone(), call_arguments);
                call_stmt.append(";");
                prologue.push(call_stmt);
                result = result_ref;
            },
            ReturnType::Final(data) => {
                // Sub-component resolution, as in a store.
                if let AddressType::SubcmpSignal { cmp_address, .. } = &data.dest_address_type {
                    let (mut cmp_prologue, cmp_index) = cmp_address.produce_c(producer, parallel);
                    prologue.append(&mut cmp_prologue);
                    prologue.push(string_of("{"));
                    let mut pin = string_of("uint cmp_index_ref = ");
                    pin.append(cmp_index.as_str());
                    pin.append(";");
                    prologue.push(pin);
                }
                proof {
                    assert(views(prologue@) =~= header + call_args_code(
                        *self,
                        *producer,
                        parallel,
                        self.arguments@.len() as int,
                    ) + final_cmp_code(*data, *producer, parallel));
                }
                // Destination resolution.
                let dest_index: String;
                let my_template_header: Option<String>;
                match &data.dest {
                    LocationRule::Indexed { location, template_header } => {
                        let (mut dest_prologue, idx) = location.produce_c(producer, parallel);
                        prologue.append(&mut dest_prologue);
                        dest_index = idx;
                        my_template_header = match template_header {
                            Some(h) => Some(h.clone()),
                            None => None,
                        };
                    },
                    LocationRule::Mapped { signal_code, indexes } => {
                        let (mut dest_prologue, idx) = produce_mapped_dest(
                            *signal_code,
                            indexes,
                            producer,
                            parallel,
                        );
                        prologue.append(&mut dest_prologue);
                        dest_index = idx;
                        let mut pos = string_of("mySubcomponents[");
                        pos.append("cmp_index_ref");
                        pos.append("]");
                        my_template_header = Some(template_id_in_component(pos));
                    },
                }
                proof {
                    assert(dest_index@ == final_dest_index(*data, *producer, parallel));
                    assert(opt_str_view(my_template_header) == dest_header(data.dest));
                }
                // The destination pointer expression.
                let result_ref: String;
                match &data.dest_address_type {
                    AddressType::Variable => {
                        let mut a = string_of("&");
                        let slot = lvar(dest_index.clone());
                        a.append(slot.as_str());
                        result_ref = a;
                    },
                    AddressType::Signal => {
                        let mut a = string_of("&");
                        let slot = signal_values(dest_index.clone());
                        a.append(slot.as_str());
                        result_ref = a;
                    },
                    AddressType::SubcmpSignal { .. } => {
                        let mut start = string_of("ctx->componentMemory[");
                        start.append("mySubcomponents[");
                        start.append("cmp_index_ref");
                        start.append("]");
                        start.append("].signalStart");
                        let mut a = string_of("&ctx->signalValues[");
                        a.append(start.as_str());
                        a.append(" + ");
                        a.append(dest_index.as_str());
                        a.append("]");
                        proof {
                            assert(a@ =~= "&ctx->signalValues["@ + spec_sub_cmp_start(
                                "cmp_index_ref"@,
                            ) + " + "@ + dest_index@ + "]"@);
                        }
                        result_ref = a;
                    },
                }
                proof {
                    assert(result_ref@ == final_dest_expr(*data, *producer, parallel));
                }
                let call_arguments = vec![
                    string_of("ctx"),
                    string_of("lvarcall"),
                    string_of("myId"),
                    result_ref,
                    dec_of(data.context.size),
                ];
                proof {
                    assert(views(call_arguments@) =~= seq![
                        "ctx"@,
                        "lvarcall"@,
                        "myId"@,
                        final_dest_expr(*data, *producer, parallel),
                        spec_dec(data.context.size as nat),
                    ]);
                }
                let mut call_stmt = build_call(self.symbol.clone(), call_arguments);
                call_stmt.append(";");
                prologue.push(call_stmt);
                // Close a mapped destination right after the call.
                if let LocationRule::Mapped { indexes, .. } = &data.dest {
                    if indexes.len() > 0 {
                        prologue.push(string_of("}"));
                    }
                }
                // Notify readers when a parallel output was written.
                let is_parallel = match parallel {
                    Some(true) => true,
                    _ => false,
                };
                let notifies = match &data.dest_address_type {
                    AddressType::Signal => is_parallel && data.dest_is_output,
                    _ => false,
                };
                proof {
                    assert(notifies == final_notifies(*data, parallel));
                }
                if notifies {
                    if data.context.size > 0 {
                        prologue.push(string_of("{"));
                        let mut for_line = string_of("for (int i = 0; i < ");
                        let size_txt = dec_of(data.context.size);
                        for_line.append(size_txt.as_str());
                        for_line.append("; i++) {");
                        prologue.push(for_line);
                        let mut slot = dest_index.clone();
                        slot.append("+i");
                        let mut notify = produce_notify(&slot);
                        prologue.append(&mut notify);
                        prologue.push(string_of("}"));
                        prologue.push(string_of("}"));
                    } else {
                        let mut notify = produce_notify(&dest_index);
                        prologue.append(&mut notify);
                    }
                }
                proof {
                    assert(views(prologue@) =~= header + call_args_code(
                        *self,
                        *producer,
                        parallel,
                        self.arguments@.len() as int,
                    ) + final_cmp_code(*data, *producer, parallel) + final_dest_code(
                        *data,
                        *producer,
                        parallel,
                    ) + seq![final_call_stmt(self.symbol@, *data, *producer, parallel)]
                        + final_close_mapped(*data) + final_notify_code(
                        *data,
                        *producer,
                        parallel,
                    ));
                }
                // The shared sub-component activation protocol.
                if let AddressType::SubcmpSignal { uniform_parallel_value, input_information, .. } =
                    &data.dest_address_type {
                    if let InputInformation::Input { status } = input_information {
                        let indexed = match &data.dest {
                            LocationRule::Indexed { .. } => true,
                            _ => false,
                        };
                        let mut trigger = produce_trigger(
                            indexed,
                            &my_template_header,
                            *status,
                            *uniform_parallel_value,
                            data.context.size,
                        );
                        prologue.append(&mut trigger);
                    }
                    prologue.push(string_of("}"));
                }
                result = String::new();
            },
        }
        prologue.push(string_of("// end call bucket"));
        prologue.push(string_of("}\n"));
        proof {
            assert(views(prologue@) =~= call_code(*self, *producer, parallel));
        }
        (prologue, result)
    }
}

} // verus!
