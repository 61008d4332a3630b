//! One pure function of the compiled program: its instruction body and the
//! emission of its single routine.
use vstd::prelude::*;

use crate::c_code_generator::{build_callable, spec_build_callable};
use crate::c_elements::CProducer;
use crate::intermediate_representation::ir_interface::{produce_list_code, wf_list, InstructionList};
use crate::intermediate_representation::lowering_spec::list_code;
use crate::text::{dec_of, spec_dec, string_of, views};

verus! {

broadcast use crate::text::group_views_axioms;

pub type FunctionCode = Box<FunctionCodeInfo>;

/// One formal parameter of a function: its name and the lengths of its
/// dimensions.
#[derive(Default)]
pub struct Param {
    pub name: String,
    pub length: Vec<usize>,
}

/// Whether two parameter descriptions agree.
pub open spec fn param_eq(a: Param, b: Param) -> bool {
    a.name@ == b.name@ && a.length@ == b.length@
}

#[derive(Default)]
pub struct FunctionCodeInfo {
    pub header: String,
    pub name: String,
    pub params: Vec<Param>,
    pub returns: Vec<usize>,
    pub body: InstructionList,
    pub max_number_of_vars: usize,
    pub max_number_of_ops_in_expression: usize,
}

/// The parameter list every generated function routine takes: the runtime
/// context, the caller-staged arena, the caller identity, and the
/// destination slot with its size.
pub open spec fn function_params() -> Seq<Seq<char>> {
    seq![
        "Circom_CalcWit* ctx"@,
        "FrElement* lvar"@,
        "u64 componentFather"@,
        "FrElement* destination"@,
        "int destination_size"@,
    ]
}

/// The declarations that open every function routine.
pub open spec fn function_prologue(f: FunctionCodeInfo) -> Seq<Seq<char>> {
    seq![
        "FrElement* circuitConstants = ctx->circuitConstants;"@,
        "FrElement expaux["@ + spec_dec(f.max_number_of_ops_in_expression as nat) + "];"@,
        "std::string myTemplateName = \""@ + f.name@ + "\";"@,
        "u64 myId = componentFather;"@,
    ]
}

/// The full emission of one function: one callable definition.
pub open spec fn function_code(f: FunctionCodeInfo, p: CProducer) -> Seq<Seq<char>>
    decreases f, 0int,
{
    seq![
        spec_build_callable(
            "void "@ + f.header@,
            function_params(),
            function_prologue(f) + list_code(f.body@, p, Some(false)),
        ),
    ]
}

/// The diagnostic rendering of a function.
pub open spec fn function_string(f: FunctionCodeInfo) -> Seq<char> {
    "FUNCTION("@ + f.header@ + ")(\n"@
        + crate::circuit_design::template::body_lines_string(f.body@) + ")"@
}

impl FunctionCodeInfo {
    /// Renders this function for diagnostics.
    pub fn to_string(&self) -> (r: String)
        ensures
            r@ == function_string(*self),
    {
        let mut r = string_of("FUNCTION(");
        r.append(self.header.as_str());
        r.append(")(\n");
        let body_txt = crate::circuit_design::template::render_body_lines(&self.body);
        r.append(body_txt.as_str());
        r.append(")");
        r
    }

    pub fn wrap(self) -> (r: FunctionCode)
        ensures
            *r == self,
    {
        Box::new(self)
    }

    /// Whether this function carries the given name and parameter shapes.
    pub fn is_linked(&self, name: &str, params: &Vec<Param>) -> (r: bool)
        ensures
            r == (self.name@ == name@ && self.params@.len() == params@.len() && (forall|j: int|
                0 <= j < params@.len() ==> param_eq(
                    self.params@[j],
                    #[trigger] params@[j],
                ))),
    {
        let name_owned = String::from_str(name);
        if !self.name.eq(&name_owned) {
            return false;
        }
        if self.params.len() != params.len() {
            return false;
        }
        let mut i: usize = 0;
        while i < params.len()
            invariant
                i <= params@.len(),
                self.params@.len() == params@.len(),
                forall|j: int| 0 <= j < i ==> param_eq(self.params@[j], #[trigger] params@[j]),
            decreases params.len() - i,
        {
            if !self.params[i].name.eq(&params[i].name) {
                return false;
            }
            let a = &self.params[i].length;
            let b = &params[i].length;
            if a.len() != b.len() {
                return false;
            }
            let mut j: usize = 0;
            while j < a.len()
                invariant
                    j <= a@.len(),
                    a@ == self.params@[i as int].length@,
                    b@ == params@[i as int].length@,
                    a@.len() == b@.len(),
                    i < params@.len(),
                    forall|m: int| 0 <= m < j ==> a@[m] == b@[m],
                decreases a.len() - j,
            {
                if a[j] != b[j] {
                    return false;
                }
                j += 1;
            }
            proof {
                assert(a@ =~= b@);
            }
            i += 1;
        }
        true
    }

    /// Emits the function's routine: the fixed parameter list, the opening
    /// declarations, then the lowered body.
    pub fn produce_c(&self, producer: &CProducer, _parallel: Option<bool>) -> (r: (
        Vec<String>,
        String,
    ))
        requires
            wf_list(self.body@, producer.string_table@.len() as int),
        ensures
            views(r.0@) == function_code(*self, *producer),
            r.1@ == Seq::<char>::empty(),
        decreases *self, 1int,
    {
        let mut header = string_of("void ");
        header.append(self.header.as_str());
        let parameters = vec![
            string_of("Circom_CalcWit* ctx"),
            string_of("FrElement* lvar"),
            string_of("u64 componentFather"),
            string_of("FrElement* destination"),
            string_of("int destination_size"),
        ];
        proof {
            assert(views(parameters@) =~= function_params());
        }
        let mut body: Vec<String> = Vec::new();
        body.push(string_of("FrElement* circuitConstants = ctx->circuitConstants;"));
        let mut expaux_line = string_of("FrElement expaux[");
        let expressions_txt = dec_of(self.max_number_of_ops_in_expression);
        expaux_line.append(expressions_txt.as_str());
        expaux_line.append("];");
        body.push(expaux_line);
        let mut name_line = string_of("std::string myTemplateName = \"");
        name_line.append(self.name.as_str());
        name_line.append("\";");
        body.push(name_line);
        body.push(string_of("u64 myId = componentFather;"));
        proof {
            assert(views(body@) =~= function_prologue(*self));
        }
        let mut lowered_body = produce_list_code(&self.body, producer, Some(false));
        body.append(&mut lowered_body);
        let callable = build_callable(header, parameters, body);
        let result = vec![callable];
        proof {
            assert(views(result@) =~= function_code(*self, *producer));
        }
        (result, String::new())
    }
}

} // verus!
