//! A runtime assertion: its failure is fatal for the generated program and
//! reports the originating source line and template diagnostic identifier.
use vstd::prelude::*;

use crate::c_code_generator::build_failed_assert_message;
use crate::c_elements::CProducer;
use crate::intermediate_representation::ir_interface::{
    wf_instr, Instruction, InstructionPointer,
};
use crate::intermediate_representation::lowering_spec::assert_code;
use crate::text::{string_of, views};

verus! {

broadcast use crate::text::group_views_axioms;

pub struct AssertBucket {
    pub line: usize,
    pub message_id: usize,
    pub evaluate: InstructionPointer,
}

impl AssertBucket {
    pub fn into_instruction(self) -> (r: Instruction)
        ensures
            r == Instruction::Assert(self),
    {
        Instruction::Assert(self)
    }

    pub fn allocate(self) -> (r: InstructionPointer)
        ensures
            *r == Instruction::Assert(self),
    {
        Box::new(self.into_instruction())
    }

    pub fn get_line(&self) -> (r: usize)
        ensures
            r == self.line,
    {
        self.line
    }

    pub fn get_message_id(&self) -> (r: usize)
        ensures
            r == self.message_id,
    {
        self.message_id
    }

    /// Evaluates the condition and emits the runtime truthiness check; the
    /// failure branch aborts with line and diagnostic identifier.
    pub fn produce_c(&self, producer: &CProducer, parallel: Option<bool>) -> (r: (
        Vec<String>,
        String,
    ))
        requires
            wf_instr(*self.evaluate, producer.string_table@.len() as int),
        ensures
            views(r.0@) == assert_code(*self, *producer, parallel),
            r.1@ == Seq::<char>::empty(),
        decreases *self, 0int,
    {
        let (mut assert_c, value) = self.evaluate.produce_c(producer, parallel);
        let mut is_true = string_of("Fr_isTrue(");
        is_true.append(value.as_str());
        is_true.append(")");
        let mut if_condition = string_of("if (!");
        if_condition.append(is_true.as_str());
        if_condition.append(") ");
        let message = build_failed_assert_message(self.line, self.message_id);
        if_condition.append(message.as_str());
        if_condition.append(";");
        let mut assertion = string_of("assert(");
        assertion.append(is_true.as_str());
        assertion.append(");");
        assert_c.push(if_condition);
        assert_c.push(assertion);
        proof {
            assert(views(assert_c@) =~= assert_code(*self, *producer, parallel));
        }
        (assert_c, String::new())
    }
}

} // verus!
