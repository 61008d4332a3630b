//! A literal value: a small machine integer or a reference into the table
//! of big field constants.
use vstd::prelude::*;

use crate::c_code_generator::circuit_constants;
use crate::c_elements::CProducer;
use crate::intermediate_representation::ir_interface::{Instruction, InstructionPointer, ValueType};
use crate::intermediate_representation::lowering_spec::value_expr;
use crate::text::{dec_of, string_of, views};

verus! {

broadcast use crate::text::group_views_axioms;

pub struct ValueBucket {
    pub line: usize,
    pub message_id: usize,
    pub parse_as: ValueType,
    pub op_aux_no: usize,
    pub value: usize,
}

impl ValueBucket {
    pub fn into_instruction(self) -> (r: Instruction)
        ensures
            r == Instruction::Value(self),
    {
        Instruction::Value(self)
    }

    pub fn allocate(self) -> (r: InstructionPointer)
        ensures
            *r == Instruction::Value(self),
    {
        Box::new(self.into_instruction())
    }

    pub fn get_line(&self) -> (r: usize)
        ensures
            r == self.line,
    {
        self.line
    }

    pub fn get_message_id(&self) -> (r: usize)
        ensures
            r == self.message_id,
    {
        self.message_id
    }

    /// A literal needs no statements: the handle is the index itself for a
    /// small integer, a reference into the constant table for a big one.
    pub fn produce_c(&self, _producer: &CProducer, _parallel: Option<bool>) -> (r: (
        Vec<String>,
        String,
    ))
        ensures
            views(r.0@) == Seq::<Seq<char>>::empty(),
            r.1@ == value_expr(*self),
    {
        let index = dec_of(self.value);
        match self.parse_as {
            ValueType::U32 => (Vec::new(), index),
            ValueType::BigInt => {
                let mut access = string_of("&");
                let table_ref = circuit_constants(index);
                access.append(table_ref.as_str());
                (Vec::new(), access)
            },
        }
    }
}

} // verus!
