//! Store and Call share the sub-component activation protocol verbatim: a
//! final call destination into a sub-component input emits exactly the
//! statements a store into the same destination emits for the trigger.
use circom_c_backend::c_elements::CProducer;
use circom_c_backend::intermediate_representation::call_bucket::{
    CallBucket, FinalData, ReturnType,
};
use circom_c_backend::intermediate_representation::branch_bucket::BranchBucket;
use circom_c_backend::intermediate_representation::ir_interface::{
    AddressType, InputInformation, InstrContext, Instruction, InstructionPointer, LocationRule,
    StatusInput, ValueType,
};
use circom_c_backend::intermediate_representation::store_bucket::StoreBucket;
use circom_c_backend::intermediate_representation::value_bucket::ValueBucket;

fn number(v: usize) -> InstructionPointer {
    Box::new(Instruction::Value(ValueBucket {
        line: 0,
        message_id: 0,
        parse_as: ValueType::U32,
        op_aux_no: 0,
        value: v,
    }))
}

fn subcomponent_input(status: StatusInput) -> (AddressType, LocationRule) {
    (
        AddressType::SubcmpSignal {
            cmp_address: number(2),
            uniform_parallel_value: Some(false),
            is_output: false,
            input_information: InputInformation::Input { status },
        },
        LocationRule::Indexed { location: number(0), template_header: Some("B_0".to_string()) },
    )
}

/// The trigger statements of a lowering: everything from the decision
/// comment onward, up to the closing brace of the sub-component block.
fn trigger_slice(code: &[String]) -> Vec<String> {
    let start = code
        .iter()
        .position(|s| s.starts_with("// no need") || s.starts_with("// need") || s.starts_with(
            "// run sub component",
        ))
        .expect("the trigger comment must be emitted");
    let mut slice: Vec<String> = Vec::new();
    for s in code[start..].iter() {
        if s == "}" || s == "}\n" || s.starts_with("// end call") {
            break;
        }
        slice.push(s.clone());
    }
    slice
}

#[test]
fn store_and_call_share_the_activation_protocol() {
    let p = CProducer::default();
    for status in [StatusInput::NoLast, StatusInput::Last, StatusInput::Unknown] {
        let (addr_store, dest_store) = subcomponent_input(status);
        let store = StoreBucket {
            line: 0,
            message_id: 0,
            context: InstrContext { size: 1 },
            dest_is_output: false,
            dest_address_type: addr_store,
            dest: dest_store,
            src: number(9),
        };
        let (addr_call, dest_call) = subcomponent_input(status);
        let call = CallBucket {
            line: 0,
            message_id: 0,
            symbol: "f_2".to_string(),
            argument_types: vec![],
            arguments: vec![],
            arena_size: 1,
            return_info: ReturnType::Final(FinalData {
                context: InstrContext { size: 1 },
                dest_is_output: false,
                dest_address_type: addr_call,
                dest: dest_call,
            }),
        };
        let (store_code, _) = store.produce_c(&p, Some(false));
        let (call_code, _) = call.produce_c(&p, Some(false));
        assert_eq!(trigger_slice(&store_code), trigger_slice(&call_code));
    }
}

#[test]
fn branch_omits_an_empty_else() {
    let p = CProducer::default();
    let body = Box::new(Instruction::Store(StoreBucket {
        line: 0,
        message_id: 0,
        context: InstrContext { size: 1 },
        dest_is_output: false,
        dest_address_type: AddressType::Variable,
        dest: LocationRule::Indexed { location: number(1), template_header: None },
        src: number(8),
    }));
    let branch = BranchBucket {
        line: 0,
        message_id: 0,
        cond: number(1),
        if_branch: vec![body],
        else_branch: vec![],
    };
    let (code, handle) = branch.produce_c(&p, Some(false));
    assert_eq!(handle, "");
    let conditional = code.last().unwrap();
    assert!(conditional.starts_with("if(Fr_isTrue(1)){\n"));
    assert!(conditional.contains("Fr_copy(aux_dest,8);"));
    assert!(!conditional.contains("else"));
}

#[test]
fn call_stages_arguments_by_running_offset() {
    let p = CProducer::default();
    let call = CallBucket {
        line: 0,
        message_id: 0,
        symbol: "f_2".to_string(),
        argument_types: vec![InstrContext { size: 3 }, InstrContext { size: 1 }],
        arguments: vec![number(4), number(6)],
        arena_size: 4,
        return_info: ReturnType::Intermediate { op_aux_no: 2 },
    };
    let (code, handle) = call.produce_c(&p, Some(false));
    assert_eq!(handle, "&expaux[2]");
    let joined = code.join("\n");
    assert!(joined.contains("FrElement lvarcall[4];"));
    // The first argument is copied element-wise at offset zero, the second
    // lands right after it.
    assert!(joined.contains("Fr_copyn(&lvarcall[0],4,3);"));
    assert!(joined.contains("Fr_copy(&lvarcall[3],6);"));
    assert!(joined.contains("f_2(ctx,lvarcall,myId,&expaux[2],1);"));
}
