//! A log statement of the source program: an ordered list of operands, each
//! an expression to stringify or a reference into the string table, printed
//! with single spaces between operands and a final newline.
use vstd::prelude::*;

use crate::c_elements::CProducer;
use crate::intermediate_representation::ir_interface::{
    wf_instr, wf_log_arg, Instruction, InstructionPointer,
};
use crate::intermediate_representation::lowering_spec::{log_args_code, log_code};
use crate::text::{string_of, views};

verus! {

broadcast use crate::text::group_views_axioms;

pub enum LogBucketArg {
    LogExp(InstructionPointer),
    LogStr(usize),
}

impl LogBucketArg {
    /// The expression operand held by this argument.
    pub fn get_arg_logexp(&self) -> (r: &InstructionPointer)
        requires
            self is LogExp,
        ensures
            *self == LogBucketArg::LogExp(*r),
    {
        match self {
            LogBucketArg::LogExp(arg) => arg,
            LogBucketArg::LogStr(_) => vstd::pervasive::unreached(),
        }
    }
}

pub struct LogBucket {
    pub line: usize,
    pub message_id: usize,
    pub argsprint: Vec<LogBucketArg>,
}

impl LogBucket {
    pub fn into_instruction(self) -> (r: Instruction)
        ensures
            r == Instruction::Log(self),
    {
        Instruction::Log(self)
    }

    pub fn allocate(self) -> (r: InstructionPointer)
        ensures
            *r == Instruction::Log(self),
    {
        Box::new(self.into_instruction())
    }

    pub fn get_line(&self) -> (r: usize)
        ensures
            r == self.line,
    {
        self.line
    }

    pub fn get_message_id(&self) -> (r: usize)
        ensures
            r == self.message_id,
    {
        self.message_id
    }

    /// Evaluates each operand in order; expression operands are stringified
    /// and printed, string-table operands printed verbatim; operands are
    /// separated by one space and the sequence ends with a newline.
    pub fn produce_c(&self, producer: &CProducer, parallel: Option<bool>) -> (r: (
        Vec<String>,
        String,
    ))
        requires
            forall|j: int|
                0 <= j < self.argsprint@.len() ==> wf_log_arg(
                    #[trigger] self.argsprint@[j],
                    producer.string_table@.len() as int,
                ),
        ensures
            views(r.0@) == log_code(*self, *producer, parallel),
            r.1@ == Seq::<char>::empty(),
        decreases *self, 0int,
    {
        let mut log_c: Vec<String> = Vec::new();
        let mut index: usize = 0;
        while index < self.argsprint.len()
            invariant
                index <= self.argsprint.len(),
                forall|j: int|
                    0 <= j < self.argsprint@.len() ==> wf_log_arg(
                        #[trigger] self.argsprint@[j],
                        producer.string_table@.len() as int,
                    ),
                views(log_c@) == log_args_code(*self, *producer, parallel, index as int),
            decreases self.argsprint.len() - index,
        {
            proof {
                assert(wf_log_arg(self.argsprint@[index as int], producer.string_table@.len() as int));
            }
            match &self.argsprint[index] {
                LogBucketArg::LogExp(exp) => {
                    let (mut argument_code, argument_result) = exp.produce_c(producer, parallel);
                    log_c.append(&mut argument_code);
                    log_c.push(string_of("{"));
                    let mut into_temp = string_of("char* temp = Fr_element2str(");
                    into_temp.append(argument_result.as_str());
                    into_temp.append(");");
                    log_c.push(into_temp);
                    log_c.push(string_of("printf(\"%s\",temp);"));
                    log_c.push(string_of("delete [] temp;"));
                    log_c.push(string_of("}"));
                },
                LogBucketArg::LogStr(string_id) => {
                    log_c.push(string_of("{"));
                    let mut print_c = string_of("printf(\"");
                    print_c.append(producer.string_table[*string_id].as_str());
                    print_c.append("\");");
                    log_c.push(print_c);
                    log_c.push(string_of("}"));
                },
            }
            proof {
                assert(views(log_c@) =~= log_args_code(*self, *producer, parallel, index as int)
                    + crate::intermediate_representation::lowering_spec::log_arg_code(
                    self.argsprint@[index as int],
                    *producer,
                    parallel,
                ));
            }
            if index + 1 != self.argsprint.len() {
                log_c.push(string_of("{"));
                log_c.push(string_of("printf(\" \");"));
                log_c.push(string_of("}"));
            }
            proof {
                assert(views(log_c@) =~= log_args_code(
                    *self,
                    *producer,
                    parallel,
                    index + 1,
                ));
            }
            index += 1;
        }
        log_c.push(string_of("{"));
        log_c.push(string_of("printf(\"\\n\");"));
        log_c.push(string_of("}"));
        proof {
            assert(views(log_c@) =~= log_code(*self, *producer, parallel));
        }
        (log_c, String::new())
    }
}

} // verus!
