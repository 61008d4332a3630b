//! Concrete checks of the instruction lowering: literal handles, the
//! size-aware copy of stores, the input-counter policy, loop re-evaluation,
//! and the creation loops of dense and sparse component arrays.
use circom_c_backend::c_elements::CProducer;
use circom_c_backend::intermediate_representation::ir_interface::{
    AddressType, InputInformation, InstrContext, Instruction, InstructionPointer, LocationRule,
    StatusInput, ValueType,
};
use circom_c_backend::intermediate_representation::create_component_bucket::CreateCmpBucket;
use circom_c_backend::intermediate_representation::call_bucket::{CallBucket, ReturnType};
use circom_c_backend::intermediate_representation::loop_bucket::LoopBucket;
use circom_c_backend::intermediate_representation::store_bucket::StoreBucket;
use circom_c_backend::intermediate_representation::value_bucket::ValueBucket;

fn producer() -> CProducer {
    CProducer::default()
}

fn value(v: usize) -> InstructionPointer {
    Box::new(Instruction::Value(ValueBucket {
        line: 0,
        message_id: 0,
        parse_as: ValueType::U32,
        op_aux_no: 0,
        value: v,
    }))
}

fn store_into_subcomponent(status: StatusInput) -> StoreBucket {
    StoreBucket {
        line: 0,
        message_id: 0,
        context: InstrContext { size: 1 },
        dest_is_output: false,
        dest_address_type: AddressType::SubcmpSignal {
            cmp_address: value(2),
            uniform_parallel_value: Some(false),
            is_output: false,
            input_information: InputInformation::Input { status },
        },
        dest: LocationRule::Indexed {
            location: value(0),
            template_header: Some("B_0".to_string()),
        },
        src: value(9),
    }
}

#[test]
fn value_handles() {
    let p = producer();
    let small = ValueBucket {
        line: 1,
        message_id: 2,
        parse_as: ValueType::U32,
        op_aux_no: 0,
        value: 7,
    };
    let (code, handle) = small.produce_c(&p, Some(false));
    assert!(code.is_empty());
    assert_eq!(handle, "7");
    let big = ValueBucket {
        line: 1,
        message_id: 2,
        parse_as: ValueType::BigInt,
        op_aux_no: 0,
        value: 31,
    };
    let (code, handle) = big.produce_c(&p, Some(false));
    assert!(code.is_empty());
    assert_eq!(handle, "&circuitConstants[31]");
}

#[test]
fn lowering_is_deterministic() {
    let p = producer();
    let first = store_into_subcomponent(StatusInput::Unknown).produce_c(&p, Some(false));
    let second = store_into_subcomponent(StatusInput::Unknown).produce_c(&p, Some(false));
    assert_eq!(first.0, second.0);
    assert_eq!(first.1, second.1);
}

#[test]
fn store_copies_through_the_field_library() {
    let p = producer();
    let (code, handle) = store_into_subcomponent(StatusInput::NoLast).produce_c(&p, Some(false));
    assert_eq!(handle, "");
    assert_eq!(code[0], "{");
    assert_eq!(code[1], "uint cmp_index_ref = 2;");
    assert_eq!(
        code[3],
        "PFrElement aux_dest = &ctx->signalValues[ctx->componentMemory[mySubcomponents[cmp_index_ref]].signalStart + 0];"
    );
    assert_eq!(code[6], "Fr_copy(aux_dest,9);");
}

#[test]
fn input_counter_not_last_never_runs() {
    let p = producer();
    let (code, _) = store_into_subcomponent(StatusInput::NoLast).produce_c(&p, Some(false));
    let joined = code.join("\n");
    assert!(joined.contains("// no need to run sub component"));
    assert!(joined.contains(
        "ctx->componentMemory[mySubcomponents[cmp_index_ref]].inputCounter -= 1;"
    ));
    assert!(joined.contains(
        "assert(ctx->componentMemory[mySubcomponents[cmp_index_ref]].inputCounter > 0);"
    ));
    assert!(!joined.contains("_run("));
}

#[test]
fn input_counter_last_runs_unconditionally() {
    let p = producer();
    let (code, _) = store_into_subcomponent(StatusInput::Last).produce_c(&p, Some(false));
    let joined = code.join("\n");
    assert!(joined.contains("// need to run sub component"));
    assert!(joined.contains(
        "ctx->componentMemory[mySubcomponents[cmp_index_ref]].inputCounter -= 1;"
    ));
    assert!(joined.contains(
        "assert(!(ctx->componentMemory[mySubcomponents[cmp_index_ref]].inputCounter));"
    ));
    assert!(joined.contains("B_0_run(mySubcomponents[cmp_index_ref],ctx);"));
    assert!(!joined.contains("// run sub component if needed"));
}

#[test]
fn input_counter_unknown_runs_behind_the_counter_test() {
    let p = producer();
    let (code, _) = store_into_subcomponent(StatusInput::Unknown).produce_c(&p, Some(false));
    let joined = code.join("\n");
    assert!(joined.contains("// run sub component if needed"));
    let conditional = code
        .iter()
        .find(|s| s.starts_with("if("))
        .expect("the run must stand inside a conditional");
    assert!(conditional.contains(
        "!(ctx->componentMemory[mySubcomponents[cmp_index_ref]].inputCounter -= 1)"
    ));
    assert!(conditional.contains("B_0_run(mySubcomponents[cmp_index_ref],ctx);"));
    // The run appears nowhere outside that conditional.
    for s in code.iter() {
        if !s.starts_with("if(") {
            assert!(!s.contains("B_0_run("));
        }
    }
}

#[test]
fn vectorized_output_store_publishes_each_element() {
    let p = producer();
    let store = StoreBucket {
        line: 0,
        message_id: 0,
        context: InstrContext { size: 3 },
        dest_is_output: true,
        dest_address_type: AddressType::Signal,
        dest: LocationRule::Indexed { location: value(4), template_header: None },
        src: value(8),
    };
    let (code, _) = store.produce_c(&p, Some(true));
    let joined = code.join("\n");
    // The element count reaches the vectorized copy...
    assert!(joined.contains("Fr_copyn(aux_dest,8,3);"));
    // ... the destination index is kept aside before the copy...
    assert!(joined.contains("uint aux_dest_index = 4;"));
    // ... and each element's ready flag is set and notified under its lock.
    assert!(joined.contains("for (int i = 0; i < 3; i++) {"));
    assert!(joined.contains("ctx->componentMemory[ctx_index].mutexes[aux_dest_index+i].lock();"));
    assert!(joined.contains("ctx->componentMemory[ctx_index].outputIsSet[aux_dest_index+i]=true;"));
    assert!(joined.contains("ctx->componentMemory[ctx_index].cvs[aux_dest_index+i].notify_all();"));
    // A sequential context emits the plain copy and no synchronization.
    let sequential = StoreBucket {
        line: 0,
        message_id: 0,
        context: InstrContext { size: 3 },
        dest_is_output: true,
        dest_address_type: AddressType::Signal,
        dest: LocationRule::Indexed { location: value(4), template_header: None },
        src: value(8),
    };
    let (code, _) = sequential.produce_c(&p, Some(false));
    let joined = code.join("\n");
    assert!(joined.contains("Fr_copyn(aux_dest,8,3);"));
    assert!(!joined.contains("mutexes"));
}

#[test]
fn loop_reevaluates_its_condition() {
    let p = producer();
    // A condition whose lowering carries statements of its own: a call with
    // an intermediate result.
    let cond = Box::new(Instruction::Call(CallBucket {
        line: 0,
        message_id: 0,
        symbol: "check".to_string(),
        argument_types: vec![],
        arguments: vec![],
        arena_size: 2,
        return_info: ReturnType::Intermediate { op_aux_no: 0 },
    }));
    let body_store = Box::new(Instruction::Store(StoreBucket {
        line: 0,
        message_id: 0,
        context: InstrContext { size: 1 },
        dest_is_output: false,
        dest_address_type: AddressType::Variable,
        dest: LocationRule::Indexed { location: value(3), template_header: None },
        src: value(5),
    }));
    let looped = LoopBucket {
        line: 0,
        message_id: 0,
        continue_condition: cond,
        body: vec![body_store],
    };
    let (code, _) = looped.produce_c(&p, Some(false));
    // The condition's statements stand before the loop construct...
    assert_eq!(code[0], "{\n");
    assert_eq!(code[1], "// start of call bucket");
    assert_eq!(code[2], "FrElement lvarcall[2];");
    assert_eq!(code[3], "check(ctx,lvarcall,myId,&expaux[0],1);");
    let while_text = code.last().expect("the loop construct must be emitted");
    assert!(while_text.starts_with("while(Fr_isTrue(&expaux[0])){\n"));
    // ... and again at the end of the loop body, after the body statements.
    let body_end = "check(ctx,lvarcall,myId,&expaux[0],1);\n// end call bucket\n}\n\n}";
    assert!(while_text.ends_with(body_end));
    let copy_pos = while_text.find("Fr_copy(aux_dest,5);").expect("the body must be inside");
    let recheck_pos = while_text.rfind("check(ctx,lvarcall,myId,&expaux[0],1);").unwrap();
    assert!(copy_pos < recheck_pos);
}

fn create_bucket(defined: Vec<(usize, bool)>, number_of_cmp: usize) -> CreateCmpBucket {
    CreateCmpBucket {
        line: 0,
        message_id: 0,
        template_id: 1,
        cmp_unique_id: 0,
        symbol: "B_0".to_string(),
        sub_cmp_id: value(0),
        name_subcomponent: "b".to_string(),
        defined_positions: defined,
        is_part_mixed_array_not_uniform_parallel: false,
        uniform_parallel: Some(false),
        dimensions: vec![number_of_cmp],
        signal_offset: 4,
        signal_offset_jump: 2,
        component_offset: 1,
        component_offset_jump: 1,
        number_of_cmp,
        has_inputs: true,
    }
}

#[test]
fn dense_create_visits_every_position() {
    let p = producer();
    let dense = create_bucket(vec![(0, false), (1, false), (2, false)], 3);
    let (code, _) = dense.produce_c(&p, Some(false));
    let joined = code.join("\n");
    assert!(joined.contains("for (uint i = 0; i < 3; i++) {"));
    assert!(!joined.contains("aux_positions"));
    // More than one instance: each iteration suffixes the name with its
    // array position.
    assert!(joined.contains(
        "std::string new_cmp_name = \"b\"+generate_position_array(aux_dimensions,1,i);"
    ));
    assert!(joined.contains("B_0_create(csoffset,aux_cmp_num,ctx,new_cmp_name,myId);"));
}

#[test]
fn sparse_create_visits_exactly_the_recorded_positions() {
    let p = producer();
    let sparse = create_bucket(vec![(2, false), (5, false), (7, false)], 10);
    let (code, _) = sparse.produce_c(&p, Some(false));
    let joined = code.join("\n");
    // Exactly three iterations, visiting 2, 5, 7 in that order.
    assert!(joined.contains("uint aux_positions[3] = {2,5,7};"));
    assert!(joined.contains("for (uint i_aux = 0; i_aux < 3; i_aux++) {"));
    assert!(joined.contains("uint i = aux_positions[i_aux];"));
    assert!(!joined.contains("i < 10;"));
}

#[test]
fn single_instance_keeps_the_bare_name() {
    let p = producer();
    let single = create_bucket(vec![(0, false)], 1);
    let (code, _) = single.produce_c(&p, Some(false));
    let joined = code.join("\n");
    assert!(joined.contains("std::string new_cmp_name = \"b\";"));
    assert!(!joined.contains("generate_position_array"));
}
