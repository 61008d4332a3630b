//! A two-way branch on the truthiness of a field element.
use vstd::prelude::*;

use crate::c_code_generator::build_conditional;
use crate::c_elements::CProducer;
use crate::intermediate_representation::ir_interface::{
    produce_list_code, wf_instr, wf_list, Instruction, InstructionList, InstructionPointer,
};
use crate::intermediate_representation::lowering_spec::branch_code;
use crate::text::{string_of, views};

verus! {

broadcast use crate::text::group_views_axioms;

pub struct BranchBucket {
    pub line: usize,
    pub message_id: usize,
    pub cond: InstructionPointer,
    pub if_branch: InstructionList,
    pub else_branch: InstructionList,
}

impl BranchBucket {
    pub fn into_instruction(self) -> (r: Instruction)
        ensures
            r == Instruction::Branch(self),
    {
        Instruction::Branch(self)
    }

    pub fn allocate(self) -> (r: InstructionPointer)
        ensures
            *r == Instruction::Branch(self),
    {
        Box::new(self.into_instruction())
    }

    pub fn get_line(&self) -> (r: usize)
        ensures
            r == self.line,
    {
        self.line
    }

    pub fn get_message_id(&self) -> (r: usize)
        ensures
            r == self.message_id,
    {
        self.message_id
    }

    /// Lowers the condition to a truthiness test, then folds the two
    /// branches into one conditional whose else block is omitted when empty.
    pub fn produce_c(&self, producer: &CProducer, parallel: Option<bool>) -> (r: (
        Vec<String>,
        String,
    ))
        requires
            wf_instr(*self.cond, producer.string_table@.len() as int),
            wf_list(self.if_branch@, producer.string_table@.len() as int),
            wf_list(self.else_branch@, producer.string_table@.len() as int),
        ensures
            views(r.0@) == branch_code(*self, *producer, parallel),
            r.1@ == Seq::<char>::empty(),
        decreases *self, 0int,
    {
        let (mut c_branch, condition_result) = self.cond.produce_c(producer, parallel);
        let mut condition_test = string_of("Fr_isTrue(");
        condition_test.append(condition_result.as_str());
        condition_test.append(")");
        let if_body = produce_list_code(&self.if_branch, producer, parallel);
        let else_body = produce_list_code(&self.else_branch, producer, parallel);
        let conditional = build_conditional(condition_test, if_body, else_body);
        c_branch.push(conditional);
        proof {
            assert(views(c_branch@) =~= branch_code(*self, *producer, parallel));
        }
        (c_branch, String::new())
    }
}

} // verus!
