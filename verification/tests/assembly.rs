//! Checks of the container emission: template create/run pairs, the
//! zero-input auto-run, functions, and the whole source unit, including the
//! end-to-end two-template scenario.
use circom_c_backend::c_elements::{CProducer, TemplateInstance};
use circom_c_backend::circuit_design::circuit::Circuit;
use circom_c_backend::circuit_design::function::FunctionCodeInfo;
use circom_c_backend::circuit_design::template::TemplateCodeInfo;
use circom_c_backend::intermediate_representation::ir_interface::{
    AddressType, InputInformation, InstrContext, Instruction, InstructionPointer, LocationRule,
    StatusInput, ValueType,
};
use circom_c_backend::intermediate_representation::store_bucket::StoreBucket;
use circom_c_backend::intermediate_representation::value_bucket::ValueBucket;

fn number(v: usize) -> InstructionPointer {
    Box::new(Instruction::Value(ValueBucket {
        line: 0,
        message_id: 0,
        parse_as: ValueType::U32,
        op_aux_no: 0,
        value: v,
    }))
}

fn template_b() -> TemplateCodeInfo {
    TemplateCodeInfo {
        id: 1,
        header: "B_0".to_string(),
        name: "B".to_string(),
        is_parallel: false,
        is_parallel_component: false,
        is_not_parallel_component: true,
        has_parallel_sub_cmp: false,
        number_of_inputs: 1,
        number_of_outputs: 1,
        number_of_intermediates: 0,
        body: vec![],
        var_stack_depth: 1,
        expression_stack_depth: 1,
        signal_stack_depth: 0,
        number_of_components: 0,
    }
}

/// Template A stores into the single input of its one sub-component
/// instance of B; the store's status is *last*.
fn template_a() -> TemplateCodeInfo {
    let store = Box::new(Instruction::Store(StoreBucket {
        line: 3,
        message_id: 0,
        context: InstrContext { size: 1 },
        dest_is_output: false,
        dest_address_type: AddressType::SubcmpSignal {
            cmp_address: number(0),
            uniform_parallel_value: Some(false),
            is_output: false,
            input_information: InputInformation::Input { status: StatusInput::Last },
        },
        dest: LocationRule::Indexed { location: number(1), template_header: Some("B_0".to_string()) },
        src: number(5),
    }));
    TemplateCodeInfo {
        id: 0,
        header: "A_1".to_string(),
        name: "A".to_string(),
        is_parallel: false,
        is_parallel_component: false,
        is_not_parallel_component: true,
        has_parallel_sub_cmp: false,
        number_of_inputs: 0,
        number_of_outputs: 1,
        number_of_intermediates: 0,
        body: vec![store],
        var_stack_depth: 1,
        expression_stack_depth: 2,
        signal_stack_depth: 0,
        number_of_components: 1,
    }
}

fn producer() -> CProducer {
    let mut p = CProducer::default();
    p.main_header = "A_1".to_string();
    p.main_is_parallel = false;
    p.total_number_of_signals = 3;
    p.number_of_components = 2;
    p.number_of_main_outputs = 1;
    p.number_of_main_inputs = 0;
    p.template_instance_list = vec![
        TemplateInstance { template_header: "A_1".to_string() },
        TemplateInstance { template_header: "B_0".to_string() },
    ];
    p
}

#[test]
fn zero_input_template_runs_at_creation() {
    let p = producer();
    let a = template_a();
    assert_eq!(a.number_of_inputs, 0);
    for parallel in [false, true] {
        let pair = a.produce_c_parallel_case(&p, parallel);
        assert_eq!(pair.len(), 2);
        let create_text = &pair[0];
        // The create routine ends by invoking the run routine.
        assert!(create_text.contains("A_1_run(coffset,ctx);\n}\n"));
    }
    // A template with declared inputs is never run at creation.
    let b = template_b();
    let pair = b.produce_c_parallel_case(&p, false);
    assert!(!pair[0].contains("B_0_run(coffset,ctx);"));
}

#[test]
fn two_template_scenario_triggers_the_sub_component() {
    let p = producer();
    let a = template_a();
    let pair = a.produce_c_parallel_case(&p, false);
    let run_text = &pair[1];
    // The store decrements B's input counter and then runs B
    // unconditionally: the single declared input was the last one.
    let decrement =
        "ctx->componentMemory[mySubcomponents[cmp_index_ref]].inputCounter -= 1;";
    let run_call = "B_0_run(mySubcomponents[cmp_index_ref],ctx);";
    assert!(run_text.contains(decrement));
    assert!(run_text.contains(run_call));
    let decrement_pos = run_text.find(decrement).unwrap();
    let run_pos = run_text.find(run_call).unwrap();
    assert!(decrement_pos < run_pos);
    // No runtime branch guards that store's trigger.
    assert!(run_text.contains("// need to run sub component"));
    assert!(!run_text.contains("// run sub component if needed"));
    assert!(!run_text.contains("if (mySubcomponentsParallel"));
}

#[test]
fn parallel_run_routine_publishes_its_outputs() {
    let p = producer();
    let mut b = template_b();
    b.is_parallel = true;
    let pair = b.produce_c_parallel_case(&p, true);
    let create_text = &pair[0];
    assert!(create_text.contains("ctx->componentMemory[coffset].outputIsSet = new bool[1]();"));
    assert!(create_text.contains("ctx->componentMemory[coffset].mutexes = new std::mutex[1];"));
    let run_text = &pair[1];
    assert!(run_text.contains("ctx->componentMemory[ctx_index].outputIsSet[i]=true;"));
    assert!(run_text.contains("ctx->componentMemory[ctx_index].cvs[i].notify_all();"));
    assert!(run_text.contains("ctx->numThread--;"));
}

#[test]
fn function_routine_shape() {
    let p = producer();
    let f = FunctionCodeInfo {
        header: "f_2".to_string(),
        name: "f".to_string(),
        params: vec![],
        returns: vec![1],
        body: vec![],
        max_number_of_vars: 2,
        max_number_of_ops_in_expression: 3,
    };
    let (code, handle) = f.produce_c(&p, None);
    assert_eq!(handle, "");
    assert_eq!(code.len(), 1);
    let text = &code[0];
    assert!(text.starts_with(
        "void f_2(Circom_CalcWit* ctx,FrElement* lvar,u64 componentFather,FrElement* destination,int destination_size){\n"
    ));
    assert!(text.contains("FrElement expaux[3];"));
    assert!(text.contains("std::string myTemplateName = \"f\";"));
    assert!(text.contains("u64 myId = componentFather;"));
}

#[test]
fn source_unit_order_and_entry() {
    let p = producer();
    let mut circuit = Circuit::default();
    circuit.c_producer = producer();
    circuit.add_template_code(template_a());
    circuit.add_template_code(template_b());
    let (code, _) = circuit.produce_c(&p, None);
    assert_eq!(code[0], "#include <stdio.h>");
    assert_eq!(code[4], "#include \"calcwit.hpp\"");
    let joined = code.join("\n");
    assert!(joined.contains("void A_1_run(uint ctx_index,Circom_CalcWit* ctx);"));
    assert!(joined.contains(
        "Circom_TemplateFunction _functionTable[2] = { A_1_run,B_0_run };"
    ));
    assert!(joined.contains(
        "Circom_TemplateFunction _functionTableParallel[2] = { A_1_run_parallel,B_0_run_parallel };"
    ));
    assert!(joined.contains("uint get_total_signal_no() {return 3;}"));
    assert!(joined.contains("uint get_number_of_components() {return 2;}"));
    assert!(joined.contains("void release_memory_component(Circom_CalcWit* ctx, uint pos) {"));
    // Functions come before templates, and the entry routine ends the unit.
    let function_mark = joined.find("// function declarations").unwrap();
    let template_mark = joined.find("// template declarations").unwrap();
    assert!(function_mark < template_mark);
    let entry = code.last().unwrap();
    assert!(entry.starts_with("void run(Circom_CalcWit* ctx){\n"));
    assert!(entry.contains("A_1_create(1,0,ctx,\"main\",0);"));
    assert!(entry.contains("A_1_run(0,ctx);"));
}

#[test]
fn circuit_holds_its_units_in_insertion_order() {
    let mut circuit = Circuit::default();
    let first = circuit.add_template_code(template_a());
    let second = circuit.add_template_code(template_b());
    assert_eq!(first, 0);
    assert_eq!(second, 1);
    assert_eq!(circuit.get_template(0).header, "A_1");
    assert_eq!(circuit.get_template(1).header, "B_0");
    let f = FunctionCodeInfo {
        header: "f_2".to_string(),
        name: "f".to_string(),
        params: vec![],
        returns: vec![1],
        body: vec![],
        max_number_of_vars: 2,
        max_number_of_ops_in_expression: 3,
    };
    let id = circuit.add_function_code(f);
    assert_eq!(id, 0);
    assert_eq!(circuit.get_function(0).name, "f");
    assert!(circuit.get_function(0).is_linked("f", &vec![]));
    assert!(!circuit.get_function(0).is_linked("g", &vec![]));
}

#[test]
fn ir_strings_render_the_trees() {
    let mut circuit = Circuit::default();
    circuit.add_template_code(template_a());
    let rendered = circuit.produce_ir_string_for_template(0);
    assert!(rendered.starts_with("TEMPLATE(A_1)(\n"));
    assert!(rendered.contains("STORE(line:3,template_id:0,dest_type:SUBCOMPONENT:"));
    assert!(rendered.contains("src:VALUE(line:0,template_id:0,as:U32,op_number:0,value:5)"));
}

#[test]
fn emission_is_deterministic_end_to_end() {
    let p = producer();
    let mut circuit = Circuit::default();
    circuit.add_template_code(template_a());
    circuit.add_template_code(template_b());
    let first = circuit.produce_c(&p, None);
    let second = circuit.produce_c(&p, None);
    assert_eq!(first.0, second.0);
}
