//! The diagnostic rendering of instruction trees: every bucket prints its
//! kind, its source line, its template diagnostic identifier and its
//! children, character-exactly as the specification functions state.
use vstd::prelude::*;

use crate::intermediate_representation::ir_interface::{
    AddressType, AssertBucket, BranchBucket, CallBucket, CreateCmpBucket, Instruction,
    InstructionPointer, LoadBucket, LocationRule, LogBucket, LogBucketArg, LoopBucket,
    ReturnBucket, ReturnType, StoreBucket, ValueBucket, ValueType,
};
use crate::text::{dec_of, spec_dec, string_of};

verus! {

/// The tag of a literal's interpretation.
pub open spec fn value_type_string(v: ValueType) -> Seq<char> {
    match v {
        ValueType::U32 => "U32"@,
        ValueType::BigInt => "BIGINT"@,
    }
}

/// The rendering of one instruction.
pub open spec fn instr_string(i: Instruction) -> Seq<char>
    decreases i, 2int,
{
    match i {
        Instruction::Value(b) => "VALUE(line:"@ + spec_dec(b.line as nat) + ",template_id:"@
            + spec_dec(b.message_id as nat) + ",as:"@ + value_type_string(b.parse_as)
            + ",op_number:"@ + spec_dec(b.op_aux_no as nat) + ",value:"@ + spec_dec(
            b.value as nat,
        ) + ")"@,
        Instruction::Load(b) => "LOAD(line:"@ + spec_dec(b.line as nat) + ",template_id:"@
            + spec_dec(b.message_id as nat) + ",address_type:"@ + address_string(b.address_type)
            + ",src:"@ + location_string(b.src) + ")"@,
        Instruction::Store(b) => "STORE(line:"@ + spec_dec(b.line as nat) + ",template_id:"@
            + spec_dec(b.message_id as nat) + ",dest_type:"@ + address_string(
            b.dest_address_type,
        ) + ",dest:"@ + location_string(b.dest) + ",src:"@ + instr_string(*b.src) + ")"@,
        Instruction::Branch(b) => "IF(line:"@ + spec_dec(b.line as nat) + ",template_id:"@
            + spec_dec(b.message_id as nat) + ",cond:"@ + instr_string(*b.cond) + ",if:"@
            + list_string_semi(b.if_branch@) + ",else:"@ + list_string_semi(b.else_branch@)
            + ")"@,
        Instruction::CreateCmp(b) => "CREATE_CMP(line:"@ + spec_dec(b.line as nat)
            + ",template_id:"@ + spec_dec(b.message_id as nat) + ",name:"@ + b.symbol@
            + ",id_no:"@ + instr_string(*b.sub_cmp_id) + ")"@,
        Instruction::Loop(b) => "LOOP(line:"@ + spec_dec(b.line as nat) + ",template_id:"@
            + spec_dec(b.message_id as nat) + ",cond:"@ + instr_string(*b.continue_condition)
            + ",body:"@ + list_string_semi(b.body@) + ")"@,
        Instruction::Call(b) => "CALL(line:"@ + spec_dec(b.line as nat) + ",template_id:"@
            + spec_dec(b.message_id as nat) + ",id:"@ + b.symbol@ + ",return_type:"@
            + return_type_string(b.return_info) + ",args:"@ + list_string_comma(b.arguments@)
            + ")"@,
        Instruction::Assert(b) => "ASSERT(line:"@ + spec_dec(b.line as nat) + ",template_id:"@
            + spec_dec(b.message_id as nat) + ",evaluate:"@ + instr_string(*b.evaluate) + ")"@,
        Instruction::Return(b) => "RETURN(line:"@ + spec_dec(b.line as nat) + ",template_id:"@
            + spec_dec(b.message_id as nat) + ",value:"@ + instr_string(*b.value) + ")"@,
        Instruction::Log(b) => log_args_string(b.argsprint@, b.line as nat, b.message_id as nat),
    }
}

/// The rendering of an instruction sequence, one `;` after each element.
pub open spec fn list_string_semi(l: Seq<InstructionPointer>) -> Seq<char>
    decreases l, 3int,
{
    if l.len() == 0 {
        Seq::<char>::empty()
    } else {
        list_string_semi(l.drop_last()) + instr_string(*l.last()) + ";"@
    }
}

/// The rendering of an instruction sequence, one `,` after each element.
pub open spec fn list_string_comma(l: Seq<InstructionPointer>) -> Seq<char>
    decreases l, 3int,
{
    if l.len() == 0 {
        Seq::<char>::empty()
    } else {
        list_string_comma(l.drop_last()) + instr_string(*l.last()) + ","@
    }
}

/// The rendering of a call's return disposition.
pub open spec fn return_type_string(rt: ReturnType) -> Seq<char> {
    match rt {
        ReturnType::Intermediate { op_aux_no } => "Intermediate("@ + spec_dec(op_aux_no as nat)
            + ")"@,
        ReturnType::Final(_) => "Final"@,
    }
}

/// The rendering of an address descriptor.
pub open spec fn address_string(a: AddressType) -> Seq<char>
    decreases a, 3int,
{
    match a {
        AddressType::Variable => "VARIABLE"@,
        AddressType::Signal => "SIGNAL"@,
        AddressType::SubcmpSignal { cmp_address, .. } => "SUBCOMPONENT:"@ + instr_string(
            *cmp_address,
        ),
    }
}

/// The rendering of a location rule.
pub open spec fn location_string(l: LocationRule) -> Seq<char>
    decreases l, 4int,
{
    match l {
        LocationRule::Indexed { location, .. } => "INDEXED:"@ + instr_string(*location),
        LocationRule::Mapped { signal_code, indexes } => "MAPPED:"@ + spec_dec(signal_code as nat)
            + ":["@ + list_string_comma(indexes@) + "]"@,
    }
}

/// The rendering of a log's expression operands, one record each.
pub open spec fn log_args_string(args: Seq<LogBucketArg>, line: nat, message_id: nat) -> Seq<char>
    decreases args, 3int,
{
    if args.len() == 0 {
        Seq::<char>::empty()
    } else {
        log_args_string(args.drop_last(), line, message_id) + (match args.last() {
            LogBucketArg::LogExp(e) => "LOG(line:"@ + spec_dec(line) + ",template_id:"@
                + spec_dec(message_id) + ",evaluate:"@ + instr_string(*e) + ")"@,
            LogBucketArg::LogStr(_) => Seq::<char>::empty(),
        })
    }
}

/// Renders an instruction sequence with the given trailing mark.
fn render_list(l: &Vec<InstructionPointer>, comma: bool) -> (r: String)
    ensures
        comma ==> r@ == list_string_comma(l@),
        !comma ==> r@ == list_string_semi(l@),
    decreases l@, 4int,
{
    let mut r = String::new();
    let mut i: usize = 0;
    while i < l.len()
        invariant
            i <= l@.len(),
            comma ==> r@ == list_string_comma(l@.take(i as int)),
            !comma ==> r@ == list_string_semi(l@.take(i as int)),
        decreases l@.len() - i,
    {
        let rendered = l[i].to_string();
        r.append(rendered.as_str());
        if comma {
            r.append(",");
        } else {
            r.append(";");
        }
        proof {
            assert(l@.take(i + 1).drop_last() =~= l@.take(i as int));
            assert(l@.take(i + 1).last() == l@[i as int]);
        }
        i += 1;
    }
    proof {
        assert(l@.take(l@.len() as int) =~= l@);
    }
    r
}

impl Instruction {
    /// Renders this instruction for diagnostics.
    pub fn to_string(&self) -> (r: String)
        ensures
            r@ == instr_string(*self),
        decreases *self, 5int,
    {
        match self {
            Instruction::Value(b) => b.to_string(),
            Instruction::Load(b) => b.to_string(),
            Instruction::Store(b) => b.to_string(),
            Instruction::Branch(b) => b.to_string(),
            Instruction::CreateCmp(b) => b.to_string(),
            Instruction::Loop(b) => b.to_string(),
            Instruction::Call(b) => b.to_string(),
            Instruction::Assert(b) => b.to_string(),
            Instruction::Return(b) => b.to_string(),
            Instruction::Log(b) => b.to_string(),
        }
    }
}

impl AddressType {
    /// Renders this address descriptor.
    pub fn to_string(&self) -> (r: String)
        ensures
            r@ == address_string(*self),
        decreases *self, 4int,
    {
        match self {
            AddressType::Variable => string_of("VARIABLE"),
            AddressType::Signal => string_of("SIGNAL"),
            AddressType::SubcmpSignal { cmp_address, .. } => {
                let mut r = string_of("SUBCOMPONENT:");
                let rendered = cmp_address.to_string();
                r.append(rendered.as_str());
                r
            },
        }
    }
}

impl LocationRule {
    /// Renders this location rule.
    pub fn to_string(&self) -> (r: String)
        ensures
            r@ == location_string(*self),
        decreases *self, 5int,
    {
        match self {
            LocationRule::Indexed { location, .. } => {
                let mut r = string_of("INDEXED:");
                let rendered = location.to_string();
                r.append(rendered.as_str());
                r
            },
            LocationRule::Mapped { signal_code, indexes } => {
                let mut r = string_of("MAPPED:");
                let code_txt = dec_of(*signal_code);
                r.append(code_txt.as_str());
                r.append(":[");
                let rendered = render_list(indexes, true);
                r.append(rendered.as_str());
                r.append("]");
                r
            },
        }
    }
}

impl ValueBucket {
    pub fn to_string(&self) -> (r: String)
        ensures
            r@ == instr_string(Instruction::Value(*self)),
    {
        let mut r = string_of("VALUE(line:");
        let line_txt = dec_of(self.line);
        r.append(line_txt.as_str());
        r.append(",template_id:");
        let id_txt = dec_of(self.message_id);
        r.append(id_txt.as_str());
        r.append(",as:");
        match self.parse_as {
            ValueType::U32 => r.append("U32"),
            ValueType::BigInt => r.append("BIGINT"),
        }
        r.append(",op_number:");
        let op_txt = dec_of(self.op_aux_no);
        r.append(op_txt.as_str());
        r.append(",value:");
        let value_txt = dec_of(self.value);
        r.append(value_txt.as_str());
        r.append(")");
        r
    }
}

impl LoadBucket {
    pub fn to_string(&self) -> (r: String)
        ensures
            r@ == instr_string(Instruction::Load(*self)),
        decreases *self, 6int,
    {
        let mut r = string_of("LOAD(line:");
        let line_txt = dec_of(self.line);
        r.append(line_txt.as_str());
        r.append(",template_id:");
        let id_txt = dec_of(self.message_id);
        r.append(id_txt.as_str());
        r.append(",address_type:");
        let address_txt = self.address_type.to_string();
        r.append(address_txt.as_str());
        r.append(",src:");
        let src_txt = self.src.to_string();
        r.append(src_txt.as_str());
        r.append(")");
        r
    }
}

impl StoreBucket {
    pub fn to_string(&self) -> (r: String)
        ensures
            r@ == instr_string(Instruction::Store(*self)),
        decreases *self, 6int,
    {
        let mut r = string_of("STORE(line:");
        let line_txt = dec_of(self.line);
        r.append(line_txt.as_str());
        r.append(",template_id:");
        let id_txt = dec_of(self.message_id);
        r.append(id_txt.as_str());
        r.append(",dest_type:");
        let address_txt = self.dest_address_type.to_string();
        r.append(address_txt.as_str());
        r.append(",dest:");
        let dest_txt = self.dest.to_string();
        r.append(dest_txt.as_str());
        r.append(",src:");
        let src_txt = self.src.to_string();
        r.append(src_txt.as_str());
        r.append(")");
        r
    }
}

impl BranchBucket {
    pub fn to_string(&self) -> (r: String)
        ensures
            r@ == instr_string(Instruction::Branch(*self)),
        decreases *self, 6int,
    {
        let mut r = string_of("IF(line:");
        let line_txt = dec_of(self.line);
        r.append(line_txt.as_str());
        r.append(",template_id:");
        let id_txt = dec_of(self.message_id);
        r.append(id_txt.as_str());
        r.append(",cond:");
        let cond_txt = self.cond.to_string();
        r.append(cond_txt.as_str());
        r.append(",if:");
        let if_txt = render_list(&self.if_branch, false);
        r.append(if_txt.as_str());
        r.append(",else:");
        let else_txt = render_list(&self.else_branch, false);
        r.append(else_txt.as_str());
        r.append(")");
        r
    }
}

impl CreateCmpBucket {
    pub fn to_string(&self) -> (r: String)
        ensures
            r@ == instr_string(Instruction::CreateCmp(*self)),
        decreases *self, 6int,
    {
        let mut r = string_of("CREATE_CMP(line:");
        let line_txt = dec_of(self.line);
        r.append(line_txt.as_str());
        r.append(",template_id:");
        let id_txt = dec_of(self.message_id);
        r.append(id_txt.as_str());
        r.append(",name:");
        r.append(self.symbol.as_str());
        r.append(",id_no:");
        let sub_txt = self.sub_cmp_id.to_string();
        r.append(sub_txt.as_str());
        r.append(")");
        r
    }
}

impl LoopBucket {
    pub fn to_string(&self) -> (r: String)
        ensures
            r@ == instr_string(Instruction::Loop(*self)),
        decreases *self, 6int,
    {
        let mut r = string_of("LOOP(line:");
        let line_txt = dec_of(self.line);
        r.append(line_txt.as_str());
        r.append(",template_id:");
        let id_txt = dec_of(self.message_id);
        r.append(id_txt.as_str());
        r.append(",cond:");
        let cond_txt = self.continue_condition.to_string();
        r.append(cond_txt.as_str());
        r.append(",body:");
        let body_txt = render_list(&self.body, false);
        r.append(body_txt.as_str());
        r.append(")");
        r
    }
}

impl CallBucket {
    pub fn to_string(&self) -> (r: String)
        ensures
            r@ == instr_string(Instruction::Call(*self)),
        decreases *self, 6int,
    {
        let mut r = string_of("CALL(line:");
        let line_txt = dec_of(self.line);
        r.append(line_txt.as_str());
        r.append(",template_id:");
        let id_txt = dec_of(self.message_id);
        r.append(id_txt.as_str());
        r.append(",id:");
        r.append(self.symbol.as_str());
        r.append(",return_type:");
        match &self.return_info {
            ReturnType::Intermediate { op_aux_no } => {
                r.append("Intermediate(");
                let op_txt = dec_of(*op_aux_no);
                r.append(op_txt.as_str());
                r.append(")");
            },
            ReturnType::Final(_) => {
                r.append("Final");
            },
        }
        r.append(",args:");
        let args_txt = render_list(&self.arguments, true);
        r.append(args_txt.as_str());
        r.append(")");
        r
    }
}

impl AssertBucket {
    pub fn to_string(&self) -> (r: String)
        ensures
            r@ == instr_string(Instruction::Assert(*self)),
        decreases *self, 6int,
    {
        let mut r = string_of("ASSERT(line:");
        let line_txt = dec_of(self.line);
        r.append(line_txt.as_str());
        r.append(",template_id:");
        let id_txt = dec_of(self.message_id);
        r.append(id_txt.as_str());
        r.append(",evaluate:");
        let value_txt = self.evaluate.to_string();
        r.append(value_txt.as_str());
        r.append(")");
        r
    }
}

impl ReturnBucket {
    pub fn to_string(&self) -> (r: String)
        ensures
            r@ == instr_string(Instruction::Return(*self)),
        decreases *self, 6int,
    {
        let mut r = string_of("RETURN(line:");
        let line_txt = dec_of(self.line);
        r.append(line_txt.as_str());
        r.append(",template_id:");
        let id_txt = dec_of(self.message_id);
        r.append(id_txt.as_str());
        r.append(",value:");
        let value_txt = self.value.to_string();
        r.append(value_txt.as_str());
        r.append(")");
        r
    }
}

impl LogBucket {
    pub fn to_string(&self) -> (r: String)
        ensures
            r@ == instr_string(Instruction::Log(*self)),
        decreases *self, 6int,
    {
        let mut r = String::new();
        let mut i: usize = 0;
        while i < self.argsprint.len()
            invariant
                i <= self.argsprint@.len(),
                r@ == log_args_string(
                    self.argsprint@.take(i as int),
                    self.line as nat,
                    self.message_id as nat,
                ),
            decreases self.argsprint@.len() - i,
        {
            if let LogBucketArg::LogExp(exp) = &self.argsprint[i] {
                let mut record = string_of("LOG(line:");
                let line_txt = dec_of(self.line);
                record.append(line_txt.as_str());
                record.append(",template_id:");
                let id_txt = dec_of(self.message_id);
                record.append(id_txt.as_str());
                record.append(",evaluate:");
                let value_txt = exp.to_string();
                record.append(value_txt.as_str());
                record.append(")");
                r.append(record.as_str());
            }
            proof {
                assert(self.argsprint@.take(i + 1).drop_last() =~= self.argsprint@.take(i as int));
                assert(self.argsprint@.take(i + 1).last() == self.argsprint@[i as int]);
            }
            i += 1;
        }
        proof {
            assert(self.argsprint@.take(self.argsprint@.len() as int) =~= self.argsprint@);
        }
        r
    }
}

} // verus!
