//! One circuit template: its instruction body and per-unit metadata, and
//! the emission of its create/run routine pair. A parallel-capable template
//! gets a parallel variant of the pair.
use vstd::prelude::*;

use crate::c_code_generator::{build_call, build_callable, spec_build_call, spec_build_callable};
use crate::c_elements::CProducer;
use crate::intermediate_representation::ir_interface::{produce_list_code, wf_list, InstructionList};
use crate::intermediate_representation::lowering_spec::{list_code, output_notify_block};
use crate::intermediate_representation::subcomponent_run::produce_notify;
use crate::text::{dec_of, spec_dec, string_of, views};

verus! {

broadcast use crate::text::group_views_axioms;

pub type TemplateCode = Box<TemplateCodeInfo>;

#[derive(Default)]
pub struct TemplateCodeInfo {
    pub id: usize,
    pub header: String,
    pub name: String,
    pub is_parallel: bool,
    pub is_parallel_component: bool,
    pub is_not_parallel_component: bool,
    pub has_parallel_sub_cmp: bool,
    pub number_of_inputs: usize,
    pub number_of_outputs: usize,
    pub number_of_intermediates: usize,
    pub body: InstructionList,
    pub var_stack_depth: usize,
    pub expression_stack_depth: usize,
    pub signal_stack_depth: usize,
    pub number_of_components: usize,
}

/// The parameter list of a create routine.
pub open spec fn create_params() -> Seq<Seq<char>> {
    seq![
        "uint soffset"@,
        "uint coffset"@,
        "Circom_CalcWit* ctx"@,
        "std::string componentName"@,
        "uint componentFather"@,
    ]
}

/// The body of a create routine: it fills the instance's component-memory
/// record, allocates its sub-component slots and — for a parallel instance —
/// the per-output synchronization state. An instance without declared
/// inputs is run immediately: no input write could ever trigger it.
pub open spec fn template_create_body(t: TemplateCodeInfo, parallel: bool) -> Seq<Seq<char>> {
    seq![
        "ctx->componentMemory[coffset].templateId = "@ + spec_dec(t.id as nat) + ";"@,
        "ctx->componentMemory[coffset].templateName = \""@ + t.name@ + "\";"@,
        "ctx->componentMemory[coffset].signalStart = soffset;"@,
        "ctx->componentMemory[coffset].inputCounter = "@ + spec_dec(t.number_of_inputs as nat)
            + ";"@,
        "ctx->componentMemory[coffset].componentName = componentName;"@,
        "ctx->componentMemory[coffset].idFather = componentFather;"@,
    ] + (if t.number_of_components > 0 {
        seq![
            "ctx->componentMemory[coffset].subcomponents = new uint["@ + spec_dec(
                t.number_of_components as nat,
            ) + "]{0};"@,
        ]
    } else {
        seq![
            "ctx->componentMemory[coffset].subcomponents = new uint["@ + spec_dec(
                t.number_of_components as nat,
            ) + "];"@,
        ]
    }) + (if t.has_parallel_sub_cmp {
        seq![
            "ctx->componentMemory[coffset].sbct = new std::thread["@ + spec_dec(
                t.number_of_components as nat,
            ) + "];"@,
            "ctx->componentMemory[coffset].subcomponentsParallel = new bool["@ + spec_dec(
                t.number_of_components as nat,
            ) + "];"@,
        ]
    } else {
        Seq::<Seq<char>>::empty()
    }) + (if parallel {
        seq![
            "ctx->componentMemory[coffset].outputIsSet = new bool["@ + spec_dec(
                t.number_of_outputs as nat,
            ) + "]();"@,
            "ctx->componentMemory[coffset].mutexes = new std::mutex["@ + spec_dec(
                t.number_of_outputs as nat,
            ) + "];"@,
            "ctx->componentMemory[coffset].cvs = new std::condition_variable["@ + spec_dec(
                t.number_of_outputs as nat,
            ) + "];"@,
        ]
    } else {
        Seq::<Seq<char>>::empty()
    }) + (if t.number_of_inputs == 0 {
        seq![spec_build_call(t.header@ + "_run"@, seq!["coffset"@, "ctx"@]) + ";"@]
    } else {
        Seq::<Seq<char>>::empty()
    })
}

/// The parameter list of a run routine.
pub open spec fn run_params() -> Seq<Seq<char>> {
    seq!["uint ctx_index"@, "Circom_CalcWit* ctx"@]
}

/// The declarations that open every run routine.
pub open spec fn run_prologue(t: TemplateCodeInfo) -> Seq<Seq<char>> {
    seq![
        "FrElement* signalValues = ctx->signalValues;"@,
        "u64 mySignalStart = ctx->componentMemory[ctx_index].signalStart;"@,
        "std::string myTemplateName = ctx->componentMemory[ctx_index].templateName;"@,
        "std::string myComponentName = ctx->componentMemory[ctx_index].componentName;"@,
        "u64 myFather = ctx->componentMemory[ctx_index].idFather;"@,
        "u64 myId = ctx_index;"@,
        "uint* mySubcomponents = ctx->componentMemory[ctx_index].subcomponents;"@,
        "bool* mySubcomponentsParallel = ctx->componentMemory[ctx_index].subcomponentsParallel;"@,
        "FrElement* circuitConstants = ctx->circuitConstants;"@,
        "std::string* listOfTemplateMessages = ctx->listOfTemplateMessages;"@,
        "FrElement expaux["@ + spec_dec(t.expression_stack_depth as nat) + "];"@,
        "FrElement lvar["@ + spec_dec(t.var_stack_depth as nat) + "];"@,
        "uint sub_component_aux;"@,
        "uint index_multiple_eq;"@,
    ]
}

/// The epilogue of a run routine: join the spawned workers, publish every
/// output and release the worker slot (parallel case), then free the
/// sub-component slots bottom-up.
pub open spec fn run_epilogue(t: TemplateCodeInfo, parallel: bool) -> Seq<Seq<char>> {
    (if t.number_of_components > 0 && t.has_parallel_sub_cmp {
        seq![
            "{"@,
            "for (uint i = 0; i < "@ + spec_dec(t.number_of_components as nat) + "; i++) {"@,
            "if (ctx->componentMemory[ctx_index].sbct[i].joinable()) {"@,
            "ctx->componentMemory[ctx_index].sbct[i].join();"@,
            "}"@,
            "}"@,
            "}"@,
        ]
    } else {
        Seq::<Seq<char>>::empty()
    }) + (if parallel {
        seq!["for (uint i = 0; i < "@ + spec_dec(t.number_of_outputs as nat) + "; i++) {"@]
            + output_notify_block("i"@) + seq![
            "}"@,
            "ctx->numThreadMutex.lock();"@,
            "ctx->numThread--;"@,
            "ctx->numThreadMutex.unlock();"@,
            "ctx->ntcvs.notify_one();"@,
        ]
    } else {
        Seq::<Seq<char>>::empty()
    }) + seq![
        "for (uint i = 0; i < "@ + spec_dec(t.number_of_components as nat) + "; i++) {"@,
        "uint index_subc = ctx->componentMemory[ctx_index].subcomponents[i];"@,
        "if (index_subc != 0)"@ + spec_build_call(
            "release_memory_component"@,
            seq!["ctx"@, "index_subc"@],
        ) + ";"@,
        "}"@,
    ]
}

/// The rendering of an instruction sequence for diagnostics, one line per
/// instruction.
pub open spec fn body_lines_string(l: Seq<crate::intermediate_representation::ir_interface::InstructionPointer>) -> Seq<char>
    decreases l,
{
    if l.len() == 0 {
        Seq::<char>::empty()
    } else {
        body_lines_string(l.drop_last())
            + crate::intermediate_representation::ir_printer::instr_string(*l.last()) + "\n"@
    }
}

/// The diagnostic rendering of a template.
pub open spec fn template_string(t: TemplateCodeInfo) -> Seq<char> {
    "TEMPLATE("@ + t.header@ + ")(\n"@ + body_lines_string(t.body@) + ")"@
}

/// Renders an instruction body for diagnostics, one line per instruction.
pub fn render_body_lines(l: &InstructionList) -> (r: String)
    ensures
        r@ == body_lines_string(l@),
{
    let mut r = String::new();
    let mut i: usize = 0;
    while i < l.len()
        invariant
            i <= l@.len(),
            r@ == body_lines_string(l@.take(i as int)),
        decreases l@.len() - i,
    {
        let rendered = l[i].to_string();
        r.append(rendered.as_str());
        r.append("\n");
        proof {
            assert(l@.take(i + 1).drop_last() =~= l@.take(i as int));
            assert(l@.take(i + 1).last() == l@[i as int]);
        }
        i += 1;
    }
    proof {
        assert(l@.take(l@.len() as int) =~= l@);
    }
    r
}

/// The create/run routine pair of one parallel case of a template.
pub open spec fn template_case_code(t: TemplateCodeInfo, p: CProducer, parallel: bool) -> Seq<
    Seq<char>,
>
    decreases t, 0int,
{
    let create_header = if parallel {
        "void "@ + t.header@ + "_create_parallel"@
    } else {
        "void "@ + t.header@ + "_create"@
    };
    let run_header = if parallel {
        "void "@ + t.header@ + "_run_parallel"@
    } else {
        "void "@ + t.header@ + "_run"@
    };
    seq![
        spec_build_callable(create_header, create_params(), template_create_body(t, parallel)),
        spec_build_callable(
            run_header,
            run_params(),
            run_prologue(t) + list_code(t.body@, p, Some(parallel)) + run_epilogue(t, parallel),
        ),
    ]
}

/// The full emission of a template: its parallel case, its sequential case,
/// or both, as the instantiation flags ask.
pub open spec fn template_code(t: TemplateCodeInfo, p: CProducer) -> Seq<Seq<char>>
    decreases t, 1int,
{
    (if t.is_parallel || t.is_parallel_component {
        template_case_code(t, p, true)
    } else {
        Seq::<Seq<char>>::empty()
    }) + (if !t.is_parallel && t.is_not_parallel_component {
        template_case_code(t, p, false)
    } else {
        Seq::<Seq<char>>::empty()
    })
}

impl TemplateCodeInfo {
    /// Renders this template for diagnostics.
    pub fn to_string(&self) -> (r: String)
        ensures
            r@ == template_string(*self),
    {
        let mut r = string_of("TEMPLATE(");
        r.append(self.header.as_str());
        r.append(")(\n");
        let body_txt = render_body_lines(&self.body);
        r.append(body_txt.as_str());
        r.append(")");
        r
    }

    pub fn wrap(self) -> (r: TemplateCode)
        ensures
            *r == self,
    {
        Box::new(self)
    }

    /// Emits the create routine of one parallel case.
    #[verifier::rlimit(100)]
    fn create_routine(&self, parallel: bool) -> (r: String)
        ensures
            r@ == spec_build_callable(
                (if parallel {
                    "void "@ + self.header@ + "_create_parallel"@
                } else {
                    "void "@ + self.header@ + "_create"@
                }),
                create_params(),
                template_create_body(*self, parallel),
            ),
    {
        let mut create_header = string_of("void ");
        create_header.append(self.header.as_str());
        if parallel {
            create_header.append("_create_parallel");
        } else {
            create_header.append("_create");
        }
        let create_parameters = vec![
            string_of("uint soffset"),
            string_of("uint coffset"),
            string_of("Circom_CalcWit* ctx"),
            string_of("std::string componentName"),
            string_of("uint componentFather"),
        ];
        proof {
            assert(views(create_parameters@) =~= create_params());
        }
        let mut create_body: Vec<String> = Vec::new();
        let mut template_id_line = string_of("ctx->componentMemory[coffset].templateId = ");
        let id_txt = dec_of(self.id);
        template_id_line.append(id_txt.as_str());
        template_id_line.append(";");
        create_body.push(template_id_line);
        let mut template_name_line = string_of("ctx->componentMemory[coffset].templateName = \"");
        template_name_line.append(self.name.as_str());
        template_name_line.append("\";");
        create_body.push(template_name_line);
        create_body.push(string_of("ctx->componentMemory[coffset].signalStart = soffset;"));
        let mut input_counter_line = string_of("ctx->componentMemory[coffset].inputCounter = ");
        let inputs_txt = dec_of(self.number_of_inputs);
        input_counter_line.append(inputs_txt.as_str());
        input_counter_line.append(";");
        create_body.push(input_counter_line);
        create_body.push(string_of(
            "ctx->componentMemory[coffset].componentName = componentName;",
        ));
        create_body.push(string_of("ctx->componentMemory[coffset].idFather = componentFather;"));
        let mut subcomponents_line = string_of(
            "ctx->componentMemory[coffset].subcomponents = new uint[",
        );
        let components_txt = dec_of(self.number_of_components);
        subcomponents_line.append(components_txt.as_str());
        if self.number_of_components > 0 {
            subcomponents_line.append("]{0};");
        } else {
            subcomponents_line.append("];");
        }
        create_body.push(subcomponents_line);
        if self.has_parallel_sub_cmp {
            let mut sbct_line = string_of("ctx->componentMemory[coffset].sbct = new std::thread[");
            let components_txt2 = dec_of(self.number_of_components);
            sbct_line.append(components_txt2.as_str());
            sbct_line.append("];");
            create_body.push(sbct_line);
            let mut flags_line = string_of(
                "ctx->componentMemory[coffset].subcomponentsParallel = new bool[",
            );
            let components_txt3 = dec_of(self.number_of_components);
            flags_line.append(components_txt3.as_str());
            flags_line.append("];");
            create_body.push(flags_line);
        }
        if parallel {
            let mut output_set_line = string_of(
                "ctx->componentMemory[coffset].outputIsSet = new bool[",
            );
            let outputs_txt = dec_of(self.number_of_outputs);
            output_set_line.append(outputs_txt.as_str());
            output_set_line.append("]();");
            create_body.push(output_set_line);
            let mut mutexes_line = string_of(
                "ctx->componentMemory[coffset].mutexes = new std::mutex[",
            );
            let outputs_txt2 = dec_of(self.number_of_outputs);
            mutexes_line.append(outputs_txt2.as_str());
            mutexes_line.append("];");
            create_body.push(mutexes_line);
            let mut cvs_line = string_of(
                "ctx->componentMemory[coffset].cvs = new std::condition_variable[",
            );
            let outputs_txt3 = dec_of(self.number_of_outputs);
            cvs_line.append(outputs_txt3.as_str());
            cvs_line.append("];");
            create_body.push(cvs_line);
        }
        // An instance without declared inputs is run at creation.
        if self.number_of_inputs == 0 {
            let mut run_call_name = self.header.clone();
            run_call_name.append("_run");
            let run_call_args = vec![string_of("coffset"), string_of("ctx")];
            proof {
                assert(views(run_call_args@) =~= seq!["coffset"@, "ctx"@]);
            }
            let mut run_call = build_call(run_call_name, run_call_args);
            run_call.append(";");
            create_body.push(run_call);
        }
        proof {
            assert(views(create_body@) =~= template_create_body(*self, parallel));
        }
        build_callable(create_header, create_parameters, create_body)
    }

    /// Emits the run routine of one parallel case.
    #[verifier::rlimit(100)]
    fn run_routine(&self, producer: &CProducer, parallel: bool) -> (r: String)
        requires
            wf_list(self.body@, producer.string_table@.len() as int),
        ensures
            r@ == spec_build_callable(
                (if parallel {
                    "void "@ + self.header@ + "_run_parallel"@
                } else {
                    "void "@ + self.header@ + "_run"@
                }),
                run_params(),
                run_prologue(*self) + list_code(self.body@, *producer, Some(parallel))
                    + run_epilogue(*self, parallel),
            ),
        decreases *self, 2int,
    {
        let mut run_header = string_of("void ");
        run_header.append(self.header.as_str());
        if parallel {
            run_header.append("_run_parallel");
        } else {
            run_header.append("_run");
        }
        let run_parameters = vec![string_of("uint ctx_index"), string_of("Circom_CalcWit* ctx")];
        proof {
            assert(views(run_parameters@) =~= run_params());
        }
        let mut run_body: Vec<String> = Vec::new();
        run_body.push(string_of("FrElement* signalValues = ctx->signalValues;"));
        run_body.push(string_of(
            "u64 mySignalStart = ctx->componentMemory[ctx_index].signalStart;",
        ));
        run_body.push(string_of(
            "std::string myTemplateName = ctx->componentMemory[ctx_index].templateName;",
        ));
        run_body.push(string_of(
            "std::string myComponentName = ctx->componentMemory[ctx_index].componentName;",
        ));
        run_body.push(string_of("u64 myFather = ctx->componentMemory[ctx_index].idFather;"));
        run_body.push(string_of("u64 myId = ctx_index;"));
        run_body.push(string_of(
            "uint* mySubcomponents = ctx->componentMemory[ctx_index].subcomponents;",
        ));
        run_body.push(string_of(
            "bool* mySubcomponentsParallel = ctx->componentMemory[ctx_index].subcomponentsParallel;",
        ));
        run_body.push(string_of("FrElement* circuitConstants = ctx->circuitConstants;"));
        run_body.push(string_of(
            "std::string* listOfTemplateMessages = ctx->listOfTemplateMessages;",
        ));
        let mut expaux_line = string_of("FrElement expaux[");
        let expressions_txt = dec_of(self.expression_stack_depth);
        expaux_line.append(expressions_txt.as_str());
        expaux_line.append("];");
        run_body.push(expaux_line);
        let mut lvar_line = string_of("FrElement lvar[");
        let vars_txt = dec_of(self.var_stack_depth);
        lvar_line.append(vars_txt.as_str());
        lvar_line.append("];");
        run_body.push(lvar_line);
        run_body.push(string_of("uint sub_component_aux;"));
        run_body.push(string_of("uint index_multiple_eq;"));
        proof {
            assert(views(run_body@) =~= run_prologue(*self));
        }
        let mut lowered_body = produce_list_code(&self.body, producer, Some(parallel));
        run_body.append(&mut lowered_body);
        // Join the workers spawned for parallel sub-components.
        if self.number_of_components > 0 && self.has_parallel_sub_cmp {
            run_body.push(string_of("{"));
            let mut join_for = string_of("for (uint i = 0; i < ");
            let components_txt4 = dec_of(self.number_of_components);
            join_for.append(components_txt4.as_str());
            join_for.append("; i++) {");
            run_body.push(join_for);
            run_body.push(string_of(
                "if (ctx->componentMemory[ctx_index].sbct[i].joinable()) {",
            ));
            run_body.push(string_of("ctx->componentMemory[ctx_index].sbct[i].join();"));
            run_body.push(string_of("}"));
            run_body.push(string_of("}"));
            run_body.push(string_of("}"));
        }
        // Publish every output and release the worker slot.
        if parallel {
            let mut outputs_for = string_of("for (uint i = 0; i < ");
            let outputs_txt4 = dec_of(self.number_of_outputs);
            outputs_for.append(outputs_txt4.as_str());
            outputs_for.append("; i++) {");
            run_body.push(outputs_for);
            let slot = string_of("i");
            let mut notify = produce_notify(&slot);
            run_body.append(&mut notify);
            run_body.push(string_of("}"));
            run_body.push(string_of("ctx->numThreadMutex.lock();"));
            run_body.push(string_of("ctx->numThread--;"));
            run_body.push(string_of("ctx->numThreadMutex.unlock();"));
            run_body.push(string_of("ctx->ntcvs.notify_one();"));
        }
        // Release the memory of the sub-component slots.
        let mut release_for = string_of("for (uint i = 0; i < ");
        let components_txt5 = dec_of(self.number_of_components);
        release_for.append(components_txt5.as_str());
        release_for.append("; i++) {");
        run_body.push(release_for);
        run_body.push(string_of(
            "uint index_subc = ctx->componentMemory[ctx_index].subcomponents[i];",
        ));
        let release_args = vec![string_of("ctx"), string_of("index_subc")];
        proof {
            assert(views(release_args@) =~= seq!["ctx"@, "index_subc"@]);
        }
        let release_call = build_call(string_of("release_memory_component"), release_args);
        let mut release_line = string_of("if (index_subc != 0)");
        release_line.append(release_call.as_str());
        release_line.append(";");
        run_body.push(release_line);
        run_body.push(string_of("}"));
        proof {
            assert(views(run_body@) =~= run_prologue(*self) + list_code(
                self.body@,
                *producer,
                Some(parallel),
            ) + run_epilogue(*self, parallel));
        }
        build_callable(run_header, run_parameters, run_body)
    }

    /// Emits the create/run pair of one parallel case.
    pub fn produce_c_parallel_case(&self, producer: &CProducer, parallel: bool) -> (r: Vec<
        String,
    >)
        requires
            wf_list(self.body@, producer.string_table@.len() as int),
        ensures
            views(r@) == template_case_code(*self, *producer, parallel),
        decreases *self, 3int,
    {
        let create_fun = self.create_routine(parallel);
        let run_fun = self.run_routine(producer, parallel);
        let result = vec![create_fun, run_fun];
        proof {
            assert(views(result@) =~= template_case_code(*self, *producer, parallel));
        }
        result
    }

    /// Emits the parallel case, the sequential case, or both, as the
    /// instantiation flags ask.
    pub fn produce_c(&self, producer: &CProducer, _parallel: Option<bool>) -> (r: (
        Vec<String>,
        String,
    ))
        requires
            wf_list(self.body@, producer.string_table@.len() as int),
        ensures
            views(r.0@) == template_code(*self, *producer),
            r.1@ == Seq::<char>::empty(),
        decreases *self, 4int,
    {
        let mut produced_c: Vec<String> = Vec::new();
        if self.is_parallel || self.is_parallel_component {
            let mut parallel_case = self.produce_c_parallel_case(producer, true);
            produced_c.append(&mut parallel_case);
        }
        if !self.is_parallel && self.is_not_parallel_component {
            let mut sequential_case = self.produce_c_parallel_case(producer, false);
            produced_c.append(&mut sequential_case);
        }
        proof {
            assert(views(produced_c@) =~= template_code(*self, *producer));
        }
        (produced_c, String::new())
    }
}

} // verus!
