//! A loop over a field-element condition. The condition's statements are
//! emitted before the loop construct and re-emitted at the end of the body,
//! so that a side-effecting condition is re-evaluated on every iteration.
use vstd::prelude::*;

use crate::c_code_generator::merge_code;
use crate::c_elements::CProducer;
use crate::intermediate_representation::ir_interface::{
    produce_list_code, wf_instr, wf_list, Instruction, InstructionList, InstructionPointer,
};
use crate::intermediate_representation::lowering_spec::{instr_code, list_code, loop_code};
use crate::text::{string_of, views};

verus! {

broadcast use crate::text::group_views_axioms;

pub struct LoopBucket {
    pub line: usize,
    pub message_id: usize,
    pub continue_condition: InstructionPointer,
    pub body: InstructionList,
}

impl LoopBucket {
    pub fn into_instruction(self) -> (r: Instruction)
        ensures
            r == Instruction::Loop(self),
    {
        Instruction::Loop(self)
    }

    pub fn allocate(self) -> (r: InstructionPointer)
        ensures
            *r == Instruction::Loop(self),
    {
        Box::new(self.into_instruction())
    }

    pub fn get_line(&self) -> (r: usize)
        ensures
            r == self.line,
    {
        self.line
    }

    pub fn get_message_id(&self) -> (r: usize)
        ensures
            r == self.message_id,
    {
        self.message_id
    }

    /// Lowers condition and body; the condition's statements stand both
    /// before the loop test and again at the end of the loop body.
    pub fn produce_c(&self, producer: &CProducer, parallel: Option<bool>) -> (r: (
        Vec<String>,
        String,
    ))
        requires
            wf_instr(*self.continue_condition, producer.string_table@.len() as int),
            wf_list(self.body@, producer.string_table@.len() as int),
        ensures
            views(r.0@) == loop_code(*self, *producer, parallel),
            r.1@ == Seq::<char>::empty(),
        decreases *self, 0int,
    {
        let (continue_code, continue_result) = self.continue_condition.produce_c(
            producer,
            parallel,
        );
        let mut continue_test = string_of("Fr_isTrue(");
        continue_test.append(continue_result.as_str());
        continue_test.append(")");
        let mut body = produce_list_code(&self.body, producer, parallel);
        // Lowering is deterministic, so re-lowering the condition yields the
        // same statements: they are re-emitted at the end of the body.
        let (mut repeated_condition, _) = self.continue_condition.produce_c(producer, parallel);
        body.append(&mut repeated_condition);
        proof {
            assert(views(body@) =~= list_code(self.body@, *producer, parallel) + instr_code(
                *self.continue_condition,
                *producer,
                parallel,
            ));
        }
        let mut while_loop = string_of("while(");
        while_loop.append(continue_test.as_str());
        while_loop.append("){\n");
        let merged_body = merge_code(&body);
        while_loop.append(merged_body.as_str());
        while_loop.append("}");
        let mut loop_c = continue_code;
        loop_c.push(while_loop);
        proof {
            assert(views(loop_c@) =~= loop_code(*self, *producer, parallel));
        }
        (loop_c, String::new())
    }
}

} // verus!
