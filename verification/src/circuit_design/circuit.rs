//! The top-level unit: producer metadata, the template list and the
//! function list, and the emission of the whole generated source unit in
//! fixed order — prologue, forward declarations, dispatch tables, size
//! accessors, the memory-release helper, every function, every template,
//! and the entry routine that creates and runs the main component.
use vstd::prelude::*;

use crate::c_code_generator::{argument_list, build_call, build_callable, spec_build_call,
    spec_build_callable};
use crate::c_elements::{CProducer, TemplateInstance};
use crate::circuit_design::function::{function_code, FunctionCode, FunctionCodeInfo};
use crate::circuit_design::template::{template_code, TemplateCode, TemplateCodeInfo};
use crate::intermediate_representation::ir_interface::wf_list;
use crate::text::{dec_of, spec_dec, spec_join, string_of, views};

verus! {

broadcast use crate::text::group_views_axioms;

pub struct CompilationFlags {
    pub main_inputs_log: bool,
}

pub struct Circuit {
    pub c_producer: CProducer,
    pub templates: Vec<TemplateCode>,
    pub functions: Vec<FunctionCode>,
}

/// Well-formedness of every function body of the circuit.
pub open spec fn wf_functions(fs: Seq<FunctionCode>, nstr: int) -> bool {
    forall|j: int| 0 <= j < fs.len() ==> wf_list((#[trigger] fs[j]).body@, nstr)
}

/// Well-formedness of every template body of the circuit.
pub open spec fn wf_templates(ts: Seq<TemplateCode>, nstr: int) -> bool {
    forall|j: int| 0 <= j < ts.len() ==> wf_list((#[trigger] ts[j]).body@, nstr)
}

/// The fixed include prologue of the generated source unit.
pub open spec fn prologue_lines() -> Seq<Seq<char>> {
    seq![
        "#include <stdio.h>"@,
        "#include <iostream>"@,
        "#include <assert.h>"@,
        "#include \"circom.hpp\""@,
        "#include \"calcwit.hpp\""@,
    ]
}

/// The four forward declarations of one template instance.
pub open spec fn instance_decls(t: TemplateInstance) -> Seq<Seq<char>> {
    seq![
        "void "@ + t.template_header@
            + "_create(uint soffset,uint coffset,Circom_CalcWit* ctx,std::string componentName,uint componentFather);"@,
        "void "@ + t.template_header@
            + "_create_parallel(uint soffset,uint coffset,Circom_CalcWit* ctx,std::string componentName,uint componentFather);"@,
        "void "@ + t.template_header@ + "_run(uint ctx_index,Circom_CalcWit* ctx);"@,
        "void "@ + t.template_header@ + "_run_parallel(uint ctx_index,Circom_CalcWit* ctx);"@,
    ]
}

/// The forward declarations of every template instance, in order.
pub open spec fn template_headers(instances: Seq<TemplateInstance>) -> Seq<Seq<char>>
    decreases instances,
{
    if instances.len() == 0 {
        Seq::<Seq<char>>::empty()
    } else {
        template_headers(instances.drop_last()) + instance_decls(instances.last())
    }
}

/// The forward declarations of every function, in order.
pub open spec fn function_headers(fs: Seq<FunctionCode>) -> Seq<Seq<char>>
    decreases fs,
{
    if fs.len() == 0 {
        Seq::<Seq<char>>::empty()
    } else {
        function_headers(fs.drop_last()) + seq![
            "void "@ + fs.last().header@
                + "(Circom_CalcWit* ctx,FrElement* lvar,u64 componentFather,FrElement* destination,int destination_size);"@,
        ]
    }
}

/// The run-routine names of the dispatch table, in instance order.
pub open spec fn run_entries(instances: Seq<TemplateInstance>, parallel: bool) -> Seq<Seq<char>>
    decreases instances,
{
    if instances.len() == 0 {
        Seq::<Seq<char>>::empty()
    } else {
        run_entries(instances.drop_last(), parallel).push(
            instances.last().template_header@ + (if parallel {
                "_run_parallel"@
            } else {
                "_run"@
            }),
        )
    }
}

/// One dispatch table: a function-pointer array indexed by the template
/// instance ordinal.
pub open spec fn dispatch_table_line(p: CProducer, parallel: bool) -> Seq<char> {
    (if parallel {
        "Circom_TemplateFunction _functionTableParallel["@
    } else {
        "Circom_TemplateFunction _functionTable["@
    }) + spec_dec(p.template_instance_list@.len() as nat) + "] = { "@ + spec_join(
        run_entries(p.template_instance_list@, parallel),
        ","@,
    ) + " };"@
}

/// The global accessors that report the aggregate sizes of the program.
pub open spec fn accessor_lines(p: CProducer) -> Seq<Seq<char>> {
    seq![
        "uint get_main_input_signal_start() {return "@ + spec_dec(
            p.number_of_main_outputs as nat,
        ) + ";}\n"@,
        "uint get_main_input_signal_no() {return "@ + spec_dec(p.number_of_main_inputs as nat)
            + ";}\n"@,
        "uint get_total_signal_no() {return "@ + spec_dec(p.total_number_of_signals as nat)
            + ";}\n"@,
        "uint get_number_of_components() {return "@ + spec_dec(p.number_of_components as nat)
            + ";}\n"@,
        "uint get_size_of_input_hashmap() {return "@ + spec_dec(
            p.input_hash_map_entry_size as nat,
        ) + ";}\n"@,
        "uint get_size_of_witness() {return "@ + spec_dec(p.witness_to_signal_list@.len() as nat)
            + ";}\n"@,
        "uint get_size_of_constants() {return "@ + spec_dec(p.field_constant_list@.len() as nat)
            + ";}\n"@,
        "uint get_size_of_io_map() {return "@ + spec_dec(p.io_map_size as nat) + ";}\n"@,
    ]
}

/// The helper that releases the memory of a finished component's record.
pub open spec fn release_memory_lines() -> Seq<Seq<char>> {
    seq![
        "void release_memory_component(Circom_CalcWit* ctx, uint pos) {"@,
        "if (pos != 0){"@,
        "if(ctx->componentMemory[pos].subcomponents)"@,
        "delete []ctx->componentMemory[pos].subcomponents;"@,
        "if (ctx->componentMemory[pos].sbct)"@,
        "delete []ctx->componentMemory[pos].sbct;"@,
        "if (ctx->componentMemory[pos].subcomponentsParallel)"@,
        "delete []ctx->componentMemory[pos].subcomponentsParallel;"@,
        "if (ctx->componentMemory[pos].outputIsSet)"@,
        "delete []ctx->componentMemory[pos].outputIsSet;"@,
        "if (ctx->componentMemory[pos].mutexes)"@,
        "delete []ctx->componentMemory[pos].mutexes;"@,
        "if (ctx->componentMemory[pos].cvs)"@,
        "delete []ctx->componentMemory[pos].cvs;"@,
        "}"@,
        "}"@,
    ]
}

/// The emitted bodies of every function, in the order supplied.
pub open spec fn functions_code(fs: Seq<FunctionCode>, p: CProducer) -> Seq<Seq<char>>
    decreases fs,
{
    if fs.len() == 0 {
        Seq::<Seq<char>>::empty()
    } else {
        functions_code(fs.drop_last(), p) + function_code(*fs.last(), p)
    }
}

/// The emitted bodies of every template, in the order supplied.
pub open spec fn templates_code(ts: Seq<TemplateCode>, p: CProducer) -> Seq<Seq<char>>
    decreases ts,
{
    if ts.len() == 0 {
        Seq::<Seq<char>>::empty()
    } else {
        templates_code(ts.drop_last(), p) + template_code(*ts.last(), p)
    }
}

/// The entry routine: creates the main component with a synthetic father
/// identity of zero, then runs it.
pub open spec fn main_run_callable(p: CProducer) -> Seq<char> {
    let create_name = p.main_header@ + (if p.main_is_parallel {
        "_create_parallel"@
    } else {
        "_create"@
    });
    let run_name = p.main_header@ + (if p.main_is_parallel {
        "_run_parallel"@
    } else {
        "_run"@
    });
    spec_build_callable(
        "void run"@,
        seq!["Circom_CalcWit* ctx"@],
        seq![
            spec_build_call(create_name, seq!["1"@, "0"@, "ctx"@, "\"main\""@, "0"@]) + ";"@,
            spec_build_call(run_name, seq!["0"@, "ctx"@]) + ";"@,
        ],
    )
}

/// The whole generated source unit, in fixed order.
pub open spec fn circuit_code(c: Circuit, p: CProducer) -> Seq<Seq<char>> {
    prologue_lines() + template_headers(p.template_instance_list@) + function_headers(
        c.functions@,
    ) + seq![dispatch_table_line(p, false), dispatch_table_line(p, true)] + accessor_lines(p)
        + release_memory_lines() + seq!["// function declarations"@] + functions_code(
        c.functions@,
        p,
    ) + seq!["// template declarations"@] + templates_code(c.templates@, p) + seq![
        main_run_callable(p),
    ]
}

/// The emitted aggregate-size accessors.
fn size_accessor_code(producer: &CProducer) -> (r: Vec<String>)
    ensures
        views(r@) == accessor_lines(*producer),
{
    let mut r: Vec<String> = Vec::new();
    let mut main_start_line = string_of("uint get_main_input_signal_start() {return ");
    let main_outputs_txt = dec_of(producer.get_number_of_main_outputs());
    main_start_line.append(main_outputs_txt.as_str());
    main_start_line.append(";}\n");
    r.push(main_start_line);
    let mut main_inputs_line = string_of("uint get_main_input_signal_no() {return ");
    let main_inputs_txt = dec_of(producer.get_number_of_main_inputs());
    main_inputs_line.append(main_inputs_txt.as_str());
    main_inputs_line.append(";}\n");
    r.push(main_inputs_line);
    let mut total_signals_line = string_of("uint get_total_signal_no() {return ");
    let total_signals_txt = dec_of(producer.get_total_number_of_signals());
    total_signals_line.append(total_signals_txt.as_str());
    total_signals_line.append(";}\n");
    r.push(total_signals_line);
    let mut components_line = string_of("uint get_number_of_components() {return ");
    let components_txt = dec_of(producer.get_number_of_components());
    components_line.append(components_txt.as_str());
    components_line.append(";}\n");
    r.push(components_line);
    let mut hashmap_line = string_of("uint get_size_of_input_hashmap() {return ");
    let hashmap_txt = dec_of(producer.get_input_hash_map_entry_size());
    hashmap_line.append(hashmap_txt.as_str());
    hashmap_line.append(";}\n");
    r.push(hashmap_line);
    let mut witness_line = string_of("uint get_size_of_witness() {return ");
    let witness_txt = dec_of(producer.get_witness_to_signal_list().len());
    witness_line.append(witness_txt.as_str());
    witness_line.append(";}\n");
    r.push(witness_line);
    let mut constants_line = string_of("uint get_size_of_constants() {return ");
    let constants_txt = dec_of(producer.get_field_constant_list().len());
    constants_line.append(constants_txt.as_str());
    constants_line.append(";}\n");
    r.push(constants_line);
    let mut io_map_line = string_of("uint get_size_of_io_map() {return ");
    let io_map_txt = dec_of(producer.get_io_map_size());
    io_map_line.append(io_map_txt.as_str());
    io_map_line.append(";}\n");
    r.push(io_map_line);
    proof {
        assert(views(r@) =~= accessor_lines(*producer));
    }
    r
}

/// The emitted memory-release helper.
fn release_memory_code() -> (r: Vec<String>)
    ensures
        views(r@) == release_memory_lines(),
{
    let mut r: Vec<String> = Vec::new();
    r.push(string_of("void release_memory_component(Circom_CalcWit* ctx, uint pos) {"));
    r.push(string_of("if (pos != 0){"));
    r.push(string_of("if(ctx->componentMemory[pos].subcomponents)"));
    r.push(string_of("delete []ctx->componentMemory[pos].subcomponents;"));
    r.push(string_of("if (ctx->componentMemory[pos].sbct)"));
    r.push(string_of("delete []ctx->componentMemory[pos].sbct;"));
    r.push(string_of("if (ctx->componentMemory[pos].subcomponentsParallel)"));
    r.push(string_of("delete []ctx->componentMemory[pos].subcomponentsParallel;"));
    r.push(string_of("if (ctx->componentMemory[pos].outputIsSet)"));
    r.push(string_of("delete []ctx->componentMemory[pos].outputIsSet;"));
    r.push(string_of("if (ctx->componentMemory[pos].mutexes)"));
    r.push(string_of("delete []ctx->componentMemory[pos].mutexes;"));
    r.push(string_of("if (ctx->componentMemory[pos].cvs)"));
    r.push(string_of("delete []ctx->componentMemory[pos].cvs;"));
    r.push(string_of("}"));
    r.push(string_of("}"));
    proof {
        assert(views(r@) =~= release_memory_lines());
    }
    r
}

/// The emitted entry routine that creates and runs the main component.
fn entry_routine(producer: &CProducer) -> (r: String)
    ensures
        r@ == main_run_callable(*producer),
{
    let mut create_name = producer.main_header.clone();
    if producer.main_is_parallel {
        create_name.append("_create_parallel");
    } else {
        create_name.append("_create");
    }
    let create_args = vec![
        string_of("1"),
        string_of("0"),
        string_of("ctx"),
        string_of("\"main\""),
        string_of("0"),
    ];
    proof {
        assert(views(create_args@) =~= seq!["1"@, "0"@, "ctx"@, "\"main\""@, "0"@]);
    }
    let mut create_call = build_call(create_name, create_args);
    create_call.append(";");
    let mut run_name = producer.main_header.clone();
    if producer.main_is_parallel {
        run_name.append("_run_parallel");
    } else {
        run_name.append("_run");
    }
    let run_args = vec![string_of("0"), string_of("ctx")];
    proof {
        assert(views(run_args@) =~= seq!["0"@, "ctx"@]);
    }
    let mut run_call = build_call(run_name, run_args);
    run_call.append(";");
    let ghost create_stmt = create_call@;
    let ghost run_stmt = run_call@;
    let main_run_body = vec![create_call, run_call];
    let entry_params = vec![string_of("Circom_CalcWit* ctx")];
    proof {
        assert(views(main_run_body@) =~= seq![create_stmt, run_stmt]);
        assert(views(entry_params@) =~= seq!["Circom_CalcWit* ctx"@]);
    }
    build_callable(string_of("void run"), entry_params, main_run_body)
}

impl Default for Circuit {
    fn default() -> (r: Self)
        ensures
            r.templates@ =~= Seq::<TemplateCode>::empty(),
            r.functions@ =~= Seq::<FunctionCode>::empty(),
    {
        Circuit { c_producer: CProducer::default(), templates: Vec::new(), functions: Vec::new() }
    }
}

impl Circuit {
    pub fn add_template_code(&mut self, template_info: TemplateCodeInfo) -> (r: usize)
        ensures
            final(self).templates@.len() == old(self).templates@.len() + 1,
            forall|j: int|
                0 <= j < old(self).templates@.len() ==> final(self).templates@[j] == old(
                    self,
                ).templates@[j],
            *final(self).templates@.last() == template_info,
            final(self).functions@ == old(self).functions@,
            final(self).c_producer == old(self).c_producer,
            r == old(self).templates@.len(),
    {
        let id = self.templates.len();
        let code = template_info.wrap();
        self.templates.push(code);
        id
    }

    pub fn add_function_code(&mut self, function_info: FunctionCodeInfo) -> (r: usize)
        ensures
            final(self).functions@.len() == old(self).functions@.len() + 1,
            forall|j: int|
                0 <= j < old(self).functions@.len() ==> final(self).functions@[j] == old(
                    self,
                ).functions@[j],
            *final(self).functions@.last() == function_info,
            final(self).templates@ == old(self).templates@,
            final(self).c_producer == old(self).c_producer,
            r == old(self).functions@.len(),
    {
        let id = self.functions.len();
        let code = function_info.wrap();
        self.functions.push(code);
        id
    }

    pub fn get_function(&self, id: usize) -> (r: &FunctionCodeInfo)
        requires
            id < self.functions@.len(),
        ensures
            *r == *self.functions@[id as int],
    {
        &self.functions[id]
    }

    pub fn get_template(&self, id: usize) -> (r: &TemplateCodeInfo)
        requires
            id < self.templates@.len(),
        ensures
            *r == *self.templates@[id as int],
    {
        &self.templates[id]
    }

    /// The diagnostic rendering of one template.
    pub fn produce_ir_string_for_template(&self, id: usize) -> (r: String)
        requires
            id < self.templates@.len(),
        ensures
            r@ == crate::circuit_design::template::template_string(*self.templates@[id as int]),
    {
        self.templates[id].to_string()
    }

    /// The diagnostic rendering of one function.
    pub fn produce_ir_string_for_function(&self, id: usize) -> (r: String)
        requires
            id < self.functions@.len(),
        ensures
            r@ == crate::circuit_design::function::function_string(*self.functions@[id as int]),
    {
        self.functions[id].to_string()
    }

    /// Emits the whole generated source unit: the output is a deterministic
    /// function of the circuit and the producer metadata, with templates
    /// and functions in the exact order supplied.
    #[verifier::rlimit(100)]
    pub fn produce_c(&self, producer: &CProducer, _parallel: Option<bool>) -> (r: (
        Vec<String>,
        String,
    ))
        requires
            wf_functions(self.functions@, producer.string_table@.len() as int),
            wf_templates(self.templates@, producer.string_table@.len() as int),
        ensures
            views(r.0@) == circuit_code(*self, *producer),
            r.1@ == Seq::<char>::empty(),
    {
        let mut code: Vec<String> = Vec::new();
        code.push(string_of("#include <stdio.h>"));
        code.push(string_of("#include <iostream>"));
        code.push(string_of("#include <assert.h>"));
        code.push(string_of("#include \"circom.hpp\""));
        code.push(string_of("#include \"calcwit.hpp\""));
        proof {
            assert(views(code@) =~= prologue_lines());
        }
        // Forward declarations of every template instance.
        let instances = producer.get_template_instance_list();
        let mut i: usize = 0;
        while i < instances.len()
            invariant
                i <= instances@.len(),
                views(code@) == prologue_lines() + template_headers(instances@.take(i as int)),
            decreases instances@.len() - i,
        {
            let h = &instances[i].template_header;
            let mut create_decl = string_of("void ");
            create_decl.append(h.as_str());
            create_decl.append(
                "_create(uint soffset,uint coffset,Circom_CalcWit* ctx,std::string componentName,uint componentFather);",
            );
            code.push(create_decl);
            let mut create_parallel_decl = string_of("void ");
            create_parallel_decl.append(h.as_str());
            create_parallel_decl.append(
                "_create_parallel(uint soffset,uint coffset,Circom_CalcWit* ctx,std::string componentName,uint componentFather);",
            );
            code.push(create_parallel_decl);
            let mut run_decl = string_of("void ");
            run_decl.append(h.as_str());
            run_decl.append("_run(uint ctx_index,Circom_CalcWit* ctx);");
            code.push(run_decl);
            let mut run_parallel_decl = string_of("void ");
            run_parallel_decl.append(h.as_str());
            run_parallel_decl.append("_run_parallel(uint ctx_index,Circom_CalcWit* ctx);");
            code.push(run_parallel_decl);
            proof {
                assert(instances@.take(i + 1).drop_last() =~= instances@.take(i as int));
                assert(views(code@) =~= prologue_lines() + template_headers(
                    instances@.take(i + 1),
                ));
            }
            i += 1;
        }
        proof {
            assert(instances@.take(instances@.len() as int) =~= instances@);
        }
        // Forward declarations of every function.
        let mut i: usize = 0;
        while i < self.functions.len()
            invariant
                i <= self.functions@.len(),
                views(code@) == prologue_lines() + template_headers(
                    producer.template_instance_list@,
                ) + function_headers(self.functions@.take(i as int)),
            decreases self.functions@.len() - i,
        {
            let mut function_decl = string_of("void ");
            function_decl.append(self.functions[i].header.as_str());
            function_decl.append(
                "(Circom_CalcWit* ctx,FrElement* lvar,u64 componentFather,FrElement* destination,int destination_size);",
            );
            code.push(function_decl);
            proof {
                assert(self.functions@.take(i + 1).drop_last() =~= self.functions@.take(i as int));
                assert(views(code@) =~= prologue_lines() + template_headers(
                    producer.template_instance_list@,
                ) + function_headers(self.functions@.take(i + 1)));
            }
            i += 1;
        }
        proof {
            assert(self.functions@.take(self.functions@.len() as int) =~= self.functions@);
        }
        // The two dispatch tables.
        let sequential_table = self.dispatch_table(producer, false);
        code.push(sequential_table);
        let parallel_table = self.dispatch_table(producer, true);
        code.push(parallel_table);
        // The aggregate-size accessors.
        let mut accessors = size_accessor_code(producer);
        code.append(&mut accessors);
        // The memory-release helper.
        let mut release_helper = release_memory_code();
        code.append(&mut release_helper);
        let ghost fixed_prefix = prologue_lines() + template_headers(
            producer.template_instance_list@,
        ) + function_headers(self.functions@) + seq![
            dispatch_table_line(*producer, false),
            dispatch_table_line(*producer, true),
        ] + accessor_lines(*producer) + release_memory_lines();
        proof {
            assert(views(code@) =~= fixed_prefix);
        }
        // The bodies of every function, then every template.
        code.push(string_of("// function declarations"));
        let mut i: usize = 0;
        while i < self.functions.len()
            invariant
                i <= self.functions@.len(),
                wf_functions(self.functions@, producer.string_table@.len() as int),
                views(code@) == fixed_prefix + seq!["// function declarations"@]
                    + functions_code(self.functions@.take(i as int), *producer),
            decreases self.functions@.len() - i,
        {
            let (mut f_code, _) = self.functions[i].produce_c(producer, None);
            code.append(&mut f_code);
            proof {
                assert(self.functions@.take(i + 1).drop_last() =~= self.functions@.take(i as int));
                assert(views(code@) =~= fixed_prefix + seq!["// function declarations"@]
                    + functions_code(self.functions@.take(i + 1), *producer));
            }
            i += 1;
        }
        proof {
            assert(self.functions@.take(self.functions@.len() as int) =~= self.functions@);
        }
        code.push(string_of("// template declarations"));
        let mut i: usize = 0;
        while i < self.templates.len()
            invariant
                i <= self.templates@.len(),
                wf_templates(self.templates@, producer.string_table@.len() as int),
                views(code@) == fixed_prefix + seq!["// function declarations"@]
                    + functions_code(self.functions@, *producer) + seq![
                    "// template declarations"@,
                ] + templates_code(self.templates@.take(i as int), *producer),
            decreases self.templates@.len() - i,
        {
            let (mut t_code, _) = self.templates[i].produce_c(producer, None);
            code.append(&mut t_code);
            proof {
                assert(self.templates@.take(i + 1).drop_last() =~= self.templates@.take(i as int));
                assert(views(code@) =~= fixed_prefix + seq!["// function declarations"@]
                    + functions_code(self.functions@, *producer) + seq![
                    "// template declarations"@,
                ] + templates_code(self.templates@.take(i + 1), *producer));
            }
            i += 1;
        }
        proof {
            assert(self.templates@.take(self.templates@.len() as int) =~= self.templates@);
        }
        // The entry routine.
        let entry = entry_routine(producer);
        code.push(entry);
        proof {
            assert(views(code@) =~= circuit_code(*self, *producer));
        }
        (code, String::new())
    }

    /// One dispatch table: the run routines of every template instance, in
    /// ordinal order, sequential or parallel.
    fn dispatch_table(&self, producer: &CProducer, parallel: bool) -> (r: String)
        ensures
            r@ == dispatch_table_line(*producer, parallel),
    {
        let instances = producer.get_template_instance_list();
        let mut entries: Vec<String> = Vec::new();
        let mut i: usize = 0;
        while i < instances.len()
            invariant
                i <= instances@.len(),
                views(entries@) == run_entries(instances@.take(i as int), parallel),
            decreases instances@.len() - i,
        {
            let mut entry = instances[i].template_header.clone();
            if parallel {
                entry.append("_run_parallel");
            } else {
                entry.append("_run");
            }
            entries.push(entry);
            proof {
                assert(instances@.take(i + 1).drop_last() =~= instances@.take(i as int));
                assert(views(entries@) =~= run_entries(instances@.take(i + 1), parallel));
            }
            i += 1;
        }
        proof {
            assert(instances@.take(instances@.len() as int) =~= instances@);
        }
        let mut r = if parallel {
            string_of("Circom_TemplateFunction _functionTableParallel[")
        } else {
            string_of("Circom_TemplateFunction _functionTable[")
        };
        let count_txt = dec_of(producer.get_number_of_template_instances());
        r.append(count_txt.as_str());
        r.append("] = { ");
        let joined = argument_list(&entries);
        r.append(joined.as_str());
        r.append(" };");
        r
    }
}

} // verus!
