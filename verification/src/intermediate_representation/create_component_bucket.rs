//! Creation of the instances of a sub-component array: a loop over all
//! positions for a dense array, or exactly over the recorded positions for
//! a sparse one, choosing the parallel or sequential create entry point.
use vstd::prelude::*;

use crate::c_code_generator::{bool_literal, set_list, set_list_bool};
use crate::c_elements::CProducer;
use crate::intermediate_representation::ir_interface::{
    wf_instr, Instruction, InstructionPointer,
};
use crate::intermediate_representation::lowering_spec::{
    create_call_stmts, create_cmp_code, create_loop_header, create_name_stmt, instr_code,
    instr_expr,
};
use crate::text::{dec_of, spec_dec, string_of, views};

verus! {

broadcast use crate::text::group_views_axioms;

pub struct CreateCmpBucket {
    pub line: usize,
    pub message_id: usize,
    pub template_id: usize,
    pub cmp_unique_id: usize,
    pub symbol: String,
    pub sub_cmp_id: InstructionPointer,
    pub name_subcomponent: String,
    /// The materialized array positions, each with its parallel flag.
    pub defined_positions: Vec<(usize, bool)>,
    /// Part of a mixed array whose parallel-ness is not uniform.
    pub is_part_mixed_array_not_uniform_parallel: bool,
    /// The statically known parallel flag, where it is uniform.
    pub uniform_parallel: Option<bool>,
    /// The dimensions of the component array.
    pub dimensions: Vec<usize>,
    /// Signal offset relative to the start of the parent's signals.
    pub signal_offset: usize,
    pub signal_offset_jump: usize,
    /// Slot offset relative to the parent's component id.
    pub component_offset: usize,
    pub component_offset_jump: usize,
    pub number_of_cmp: usize,
    pub has_inputs: bool,
}

impl CreateCmpBucket {
    pub fn into_instruction(self) -> (r: Instruction)
        ensures
            r == Instruction::CreateCmp(self),
    {
        Instruction::CreateCmp(self)
    }

    pub fn allocate(self) -> (r: InstructionPointer)
        ensures
            *r == Instruction::CreateCmp(self),
    {
        Box::new(self.into_instruction())
    }

    pub fn get_line(&self) -> (r: usize)
        ensures
            r == self.line,
    {
        self.line
    }

    pub fn get_message_id(&self) -> (r: usize)
        ensures
            r == self.message_id,
    {
        self.message_id
    }

    /// The materialized positions of the array, in recorded order.
    fn position_list(&self) -> (r: Vec<usize>)
        ensures
            r@ == self.defined_positions@.map_values(|x: (usize, bool)| x.0),
    {
        let mut r: Vec<usize> = Vec::new();
        let mut i: usize = 0;
        while i < self.defined_positions.len()
            invariant
                i <= self.defined_positions.len(),
                r@ == self.defined_positions@.take(i as int).map_values(|x: (usize, bool)| x.0),
            decreases self.defined_positions.len() - i,
        {
            r.push(self.defined_positions[i].0);
            proof {
                assert(r@ =~= self.defined_positions@.take(i + 1).map_values(
                    |x: (usize, bool)| x.0,
                ));
            }
            i += 1;
        }
        proof {
            assert(self.defined_positions@.take(self.defined_positions@.len() as int)
                =~= self.defined_positions@);
        }
        r
    }

    /// The per-position parallel flags, in recorded order.
    fn parallel_list(&self) -> (r: Vec<bool>)
        ensures
            r@ == self.defined_positions@.map_values(|x: (usize, bool)| x.1),
    {
        let mut r: Vec<bool> = Vec::new();
        let mut i: usize = 0;
        while i < self.defined_positions.len()
            invariant
                i <= self.defined_positions.len(),
                r@ == self.defined_positions@.take(i as int).map_values(|x: (usize, bool)| x.1),
            decreases self.defined_positions.len() - i,
        {
            r.push(self.defined_positions[i].1);
            proof {
                assert(r@ =~= self.defined_positions@.take(i + 1).map_values(
                    |x: (usize, bool)| x.1,
                ));
            }
            i += 1;
        }
        proof {
            assert(self.defined_positions@.take(self.defined_positions@.len() as int)
                =~= self.defined_positions@);
        }
        r
    }

    /// Emits the creation loop: offsets are laid out from the parent's base
    /// offsets plus the per-position jumps, the instance name is suffixed
    /// with its array position when the template is instantiated as an
    /// array, and an instance without declared inputs is run by its create
    /// routine immediately.
    #[verifier::rlimit(100)]
    pub fn produce_c(&self, producer: &CProducer, parallel: Option<bool>) -> (r: (
        Vec<String>,
        String,
    ))
        requires
            wf_instr(*self.sub_cmp_id, producer.string_table@.len() as int),
        ensures
            views(r.0@) == create_cmp_code(*self, *producer, parallel),
            r.1@ == Seq::<char>::empty(),
        decreases *self, 0int,
    {
        let complete_array: bool = self.defined_positions.len() == self.number_of_cmp;
        let mut instructions: Vec<String> = Vec::new();
        let (mut scmp_idx_instructions, scmp_idx) = self.sub_cmp_id.produce_c(producer, parallel);
        instructions.append(&mut scmp_idx_instructions);
        instructions.push(string_of("{"));
        let mut aux_create = string_of("uint aux_create = ");
        aux_create.append(scmp_idx.as_str());
        aux_create.append(";");
        instructions.push(aux_create);
        let mut aux_cmp_num = string_of("int aux_cmp_num = ");
        let component_offset_txt = dec_of(self.component_offset);
        aux_cmp_num.append(component_offset_txt.as_str());
        aux_cmp_num.append("+ctx_index+1;");
        instructions.push(aux_cmp_num);
        let mut csoffset = string_of("uint csoffset = mySignalStart+");
        let signal_offset_txt = dec_of(self.signal_offset);
        csoffset.append(signal_offset_txt.as_str());
        csoffset.append(";");
        instructions.push(csoffset);
        if self.number_of_cmp > 1 {
            let mut dims = string_of("uint aux_dimensions[");
            let dims_len_txt = dec_of(self.dimensions.len());
            dims.append(dims_len_txt.as_str());
            dims.append("] = ");
            let dims_list = set_list(&self.dimensions);
            dims.append(dims_list.as_str());
            dims.append(";");
            instructions.push(dims);
        }
        // The per-position flags, where the array is not uniform in its
        // parallel-ness.
        if self.uniform_parallel.is_none() {
            let mut flags = string_of("bool aux_parallel[");
            let cmp_count_txt = dec_of(self.number_of_cmp);
            flags.append(cmp_count_txt.as_str());
            flags.append("] = ");
            let parallel_flags = self.parallel_list();
            let flags_list = set_list_bool(&parallel_flags);
            flags.append(flags_list.as_str());
            flags.append(";");
            instructions.push(flags);
        }
        // The creation loop: dense arrays traverse every position, sparse
        // ones exactly the recorded positions, in recorded order.
        if complete_array {
            let mut for_line = string_of("for (uint i = 0; i < ");
            let cmp_count_txt = dec_of(self.number_of_cmp);
            for_line.append(cmp_count_txt.as_str());
            for_line.append("; i++) {");
            instructions.push(for_line);
            if self.uniform_parallel.is_none() {
                instructions.push(string_of("bool status_parallel = aux_parallel[i];"));
            }
        } else {
            let mut positions = string_of("uint aux_positions[");
            let pos_count_txt = dec_of(self.defined_positions.len());
            positions.append(pos_count_txt.as_str());
            positions.append("] = ");
            let position_values = self.position_list();
            let positions_list = set_list(&position_values);
            positions.append(positions_list.as_str());
            positions.append(";");
            instructions.push(positions);
            let mut for_line = string_of("for (uint i_aux = 0; i_aux < ");
            let pos_count_txt2 = dec_of(self.defined_positions.len());
            for_line.append(pos_count_txt2.as_str());
            for_line.append("; i_aux++) {");
            instructions.push(for_line);
            instructions.push(string_of("uint i = aux_positions[i_aux];"));
            if self.uniform_parallel.is_none() {
                instructions.push(string_of("bool status_parallel = aux_parallel[i_aux];"));
            }
        }
        proof {
            assert(views(instructions@) =~= instr_code(*self.sub_cmp_id, *producer, parallel)
                + seq![
                "{"@,
                "uint aux_create = "@ + instr_expr(*self.sub_cmp_id, *producer, parallel) + ";"@,
                "int aux_cmp_num = "@ + spec_dec(self.component_offset as nat) + "+ctx_index+1;"@,
                "uint csoffset = mySignalStart+"@ + spec_dec(self.signal_offset as nat) + ";"@,
            ] + (if self.number_of_cmp > 1 {
                seq![
                    "uint aux_dimensions["@ + spec_dec(self.dimensions@.len() as nat) + "] = "@
                        + crate::c_code_generator::spec_set_list(self.dimensions@) + ";"@,
                ]
            } else {
                Seq::<Seq<char>>::empty()
            }) + (if self.uniform_parallel is None {
                seq![
                    "bool aux_parallel["@ + spec_dec(self.number_of_cmp as nat) + "] = "@
                        + crate::c_code_generator::spec_set_list_bool(
                        self.defined_positions@.map_values(|x: (usize, bool)| x.1),
                    ) + ";"@,
                ]
            } else {
                Seq::<Seq<char>>::empty()
            }) + create_loop_header(*self));
        }
        // The unique instance name.
        if self.number_of_cmp > 1 {
            let mut name_line = string_of("std::string new_cmp_name = \"");
            name_line.append(self.name_subcomponent.as_str());
            name_line.append("\"+generate_position_array(aux_dimensions,");
            let dims_len_txt = dec_of(self.dimensions.len());
            name_line.append(dims_len_txt.as_str());
            name_line.append(",i);");
            instructions.push(name_line);
        } else {
            let mut name_line = string_of("std::string new_cmp_name = \"");
            name_line.append(self.name_subcomponent.as_str());
            name_line.append("\";");
            instructions.push(name_line);
        }
        // The create entry point: chosen statically where the parallel-ness
        // is uniform, and by a runtime branch on the stored flag otherwise.
        match self.uniform_parallel {
            None => {
                instructions.push(string_of(
                    "mySubcomponentsParallel[aux_create+i] = status_parallel;",
                ));
                let mut par_call = string_of("if (status_parallel) ");
                par_call.append(self.symbol.as_str());
                par_call.append("_create_parallel(");
                par_call.append("csoffset,aux_cmp_num,ctx,new_cmp_name,myId");
                par_call.append(");");
                instructions.push(par_call);
                let mut seq_call = string_of("else ");
                seq_call.append(self.symbol.as_str());
                seq_call.append("_create(");
                seq_call.append("csoffset,aux_cmp_num,ctx,new_cmp_name,myId");
                seq_call.append(");");
                instructions.push(seq_call);
            },
            Some(uniform) => {
                if self.is_part_mixed_array_not_uniform_parallel {
                    let mut flag_line = string_of("mySubcomponentsParallel[aux_create+i] = ");
                    let flag_txt = bool_literal(uniform);
                    flag_line.append(flag_txt.as_str());
                    flag_line.append(";");
                    instructions.push(flag_line);
                }
                let mut create_call = self.symbol.clone();
                if uniform {
                    create_call.append("_create_parallel(");
                } else {
                    create_call.append("_create(");
                }
                create_call.append("csoffset,aux_cmp_num,ctx,new_cmp_name,myId");
                create_call.append(");");
                instructions.push(create_call);
            },
        }
        instructions.push(string_of("mySubcomponents[aux_create+i] = aux_cmp_num;"));
        let mut soffset_jump = string_of("csoffset += ");
        let soffset_jump_txt = dec_of(self.signal_offset_jump);
        soffset_jump.append(soffset_jump_txt.as_str());
        soffset_jump.append(";");
        instructions.push(soffset_jump);
        let mut coffset_jump = string_of("aux_cmp_num += ");
        let coffset_jump_txt = dec_of(self.component_offset_jump);
        coffset_jump.append(coffset_jump_txt.as_str());
        coffset_jump.append(";");
        instructions.push(coffset_jump);
        instructions.push(string_of("}"));
        instructions.push(string_of("}"));
        proof {
            assert(seq![create_name_stmt(*self)].len() == 1);
            assert(views(instructions@) =~= create_cmp_code(*self, *producer, parallel));
        }
        (instructions, String::new())
    }
}

} // verus!
