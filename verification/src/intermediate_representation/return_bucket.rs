//! A return from a generated function: the value is copied into the
//! caller-supplied destination by the expected result size.
use vstd::prelude::*;

use crate::c_code_generator::{add_return, build_call};
use crate::c_elements::CProducer;
use crate::intermediate_representation::ir_interface::{
    wf_instr, Instruction, InstructionPointer,
};
use crate::intermediate_representation::lowering_spec::return_code;
use crate::text::{dec_of, string_of, views};

verus! {

broadcast use crate::text::group_views_axioms;

pub struct ReturnBucket {
    pub line: usize,
    pub message_id: usize,
    pub with_size: usize,
    pub value: InstructionPointer,
}

impl ReturnBucket {
    pub fn into_instruction(self) -> (r: Instruction)
        ensures
            r == Instruction::Return(self),
    {
        Instruction::Return(self)
    }

    pub fn allocate(self) -> (r: InstructionPointer)
        ensures
            *r == Instruction::Return(self),
    {
        Box::new(self.into_instruction())
    }

    pub fn get_line(&self) -> (r: usize)
        ensures
            r == self.line,
    {
        self.line
    }

    pub fn get_message_id(&self) -> (r: usize)
        ensures
            r == self.message_id,
    {
        self.message_id
    }

    /// Evaluates the value, copies it into the caller's destination slot
    /// (element-wise for a sized result), and returns.
    pub fn produce_c(&self, producer: &CProducer, parallel: Option<bool>) -> (r: (
        Vec<String>,
        String,
    ))
        requires
            wf_instr(*self.value, producer.string_table@.len() as int),
        ensures
            views(r.0@) == return_code(*self, *producer, parallel),
            r.1@ == Seq::<char>::empty(),
        decreases *self, 0int,
    {
        let mut instructions: Vec<String> = Vec::new();
        instructions.push(string_of("// return bucket"));
        let (mut instructions_value, src) = self.value.produce_c(producer, parallel);
        instructions.append(&mut instructions_value);
        let copy_call = if self.with_size > 1 {
            let copy_arguments = vec![string_of("destination"), src, string_of("destination_size")];
            proof {
                assert(views(copy_arguments@) =~= seq![
                    "destination"@,
                    crate::intermediate_representation::lowering_spec::instr_expr(
                        *self.value,
                        *producer,
                        parallel,
                    ),
                    "destination_size"@,
                ]);
            }
            build_call(string_of("Fr_copyn"), copy_arguments)
        } else {
            let copy_arguments = vec![string_of("destination"), src];
            proof {
                assert(views(copy_arguments@) =~= seq![
                    "destination"@,
                    crate::intermediate_representation::lowering_spec::instr_expr(
                        *self.value,
                        *producer,
                        parallel,
                    ),
                ]);
            }
            build_call(string_of("Fr_copy"), copy_arguments)
        };
        let mut copy_stmt = copy_call;
        copy_stmt.append(";");
        instructions.push(copy_stmt);
        instructions.push(add_return());
        proof {
            assert(views(instructions@) =~= return_code(*self, *producer, parallel));
        }
        (instructions, String::new())
    }
}

} // verus!
