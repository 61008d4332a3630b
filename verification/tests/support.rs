//! Checks of the supporting pieces: decimal rendering, the text builders,
//! the row-major offset fold, the field-prime constants, the input map, and
//! the diagnostic printer.
use circom_c_backend::c_code_generator::{
    build_call, build_conditional, merge_code, set_list, set_list_bool,
};
use circom_c_backend::constants::UsefulConstants;
use circom_c_backend::execution_user::{generate_input_map, SignalInfo, SignalType};
use circom_c_backend::intermediate_representation::address_resolution::flat_mapped_offset;
use circom_c_backend::intermediate_representation::ir_interface::{
    AddressType, InputInformation, InstrContext, Instruction, InstructionPointer, LocationRule,
    StatusInput, ValueType,
};
use circom_c_backend::intermediate_representation::load_bucket::LoadBucket;
use circom_c_backend::intermediate_representation::store_bucket::StoreBucket;
use circom_c_backend::intermediate_representation::log_bucket::{LogBucket, LogBucketArg};
use circom_c_backend::intermediate_representation::value_bucket::ValueBucket;
use circom_c_backend::c_elements::CProducer;
use circom_c_backend::text::dec_of;

fn number(v: usize) -> InstructionPointer {
    Box::new(Instruction::Value(ValueBucket {
        line: 0,
        message_id: 0,
        parse_as: ValueType::U32,
        op_aux_no: 0,
        value: v,
    }))
}

#[test]
fn decimal_rendering() {
    assert_eq!(dec_of(0), "0");
    assert_eq!(dec_of(7), "7");
    assert_eq!(dec_of(10), "10");
    assert_eq!(dec_of(31), "31");
    assert_eq!(dec_of(123456789), "123456789");
}

#[test]
fn text_builders() {
    let call = build_call(
        "Fr_copy".to_string(),
        vec!["aux_dest".to_string(), "x".to_string()],
    );
    assert_eq!(call, "Fr_copy(aux_dest,x)");
    let empty_args = build_call("run".to_string(), vec![]);
    assert_eq!(empty_args, "run()");
    let merged = merge_code(&vec!["a;".to_string(), "b;".to_string()]);
    assert_eq!(merged, "a;\nb;\n");
    let conditional = build_conditional(
        "x".to_string(),
        vec!["y;".to_string()],
        vec!["z;".to_string()],
    );
    assert_eq!(conditional, "if(x){\ny;\n}else{\nz;\n}");
    let no_else = build_conditional("x".to_string(), vec!["y;".to_string()], vec![]);
    assert_eq!(no_else, "if(x){\ny;\n}");
    assert_eq!(set_list(&vec![2, 5, 7]), "{2,5,7}");
    assert_eq!(set_list(&vec![]), "{}");
    assert_eq!(set_list_bool(&vec![true, false]), "{true,false}");
}

#[test]
fn mapped_index_folding() {
    // lengths [3, 4], indexes [2, 1, 3]: (2*3 + 1)*4 + 3 = 31.
    let offset = flat_mapped_offset(&vec![3, 4], &vec![2, 1, 3]);
    assert_eq!(offset, Some(31));
    // A single index folds to itself.
    assert_eq!(flat_mapped_offset(&vec![], &vec![9]), Some(9));
    // An offset beyond the machine word is reported, not wrapped.
    let too_big = flat_mapped_offset(&vec![u64::MAX, u64::MAX], &vec![2, 1, 3]);
    assert_eq!(too_big, None);
}

#[test]
fn field_prime_constants() {
    let constants = UsefulConstants::new(&"m31".to_string());
    assert_eq!(constants.get_p().to_str_radix(10), "2147483647");
    let cloned = constants.clone();
    assert_eq!(cloned.get_p(), constants.get_p());
}

#[test]
fn input_map_lists_exactly_the_inputs_in_order() {
    let signals = vec![
        SignalInfo {
            name: "out".to_string(),
            xtype: SignalType::Output,
            dag_local_id: 1,
            size: 1,
        },
        SignalInfo { name: "a".to_string(), xtype: SignalType::Input, dag_local_id: 2, size: 3 },
        SignalInfo {
            name: "tmp".to_string(),
            xtype: SignalType::Intermediate,
            dag_local_id: 5,
            size: 1,
        },
        SignalInfo { name: "b".to_string(), xtype: SignalType::Input, dag_local_id: 6, size: 1 },
    ];
    let entries = generate_input_map(&signals);
    assert_eq!(entries.len(), 2);
    assert_eq!(entries[0].name, "a");
    assert_eq!(entries[0].offset, 2);
    assert_eq!(entries[0].size, 3);
    assert_eq!(entries[1].name, "b");
    assert_eq!(entries[1].offset, 6);
    assert_eq!(entries[1].size, 1);
}

#[test]
fn printer_renders_buckets() {
    let v = ValueBucket {
        line: 4,
        message_id: 2,
        parse_as: ValueType::U32,
        op_aux_no: 1,
        value: 9,
    };
    assert_eq!(v.to_string(), "VALUE(line:4,template_id:2,as:U32,op_number:1,value:9)");
    let load = LoadBucket {
        line: 7,
        message_id: 2,
        address_type: AddressType::Signal,
        src: LocationRule::Indexed { location: number(3), template_header: None },
        context: InstrContext { size: 1 },
    };
    assert_eq!(
        load.to_string(),
        "LOAD(line:7,template_id:2,address_type:SIGNAL,src:INDEXED:VALUE(line:0,template_id:0,as:U32,op_number:0,value:3))"
    );
}

#[test]
fn log_prints_operands_with_separators() {
    let mut p = CProducer::default();
    p.string_table = vec!["value is".to_string()];
    let log = LogBucket {
        line: 0,
        message_id: 0,
        argsprint: vec![LogBucketArg::LogStr(0), LogBucketArg::LogExp(number(5))],
    };
    let (code, handle) = log.produce_c(&p, Some(false));
    assert_eq!(handle, "");
    let joined = code.join("\n");
    assert!(joined.contains("printf(\"value is\");"));
    assert!(joined.contains("printf(\" \");"));
    assert!(joined.contains("char* temp = Fr_element2str(5);"));
    assert!(joined.ends_with("{\nprintf(\"\\n\");\n}"));
}

#[test]
fn load_from_parallel_output_waits() {
    let p = CProducer::default();
    let load = LoadBucket {
        line: 0,
        message_id: 0,
        address_type: AddressType::SubcmpSignal {
            cmp_address: number(1),
            uniform_parallel_value: Some(true),
            is_output: true,
            input_information: InputInformation::NoInput,
        },
        src: LocationRule::Indexed { location: number(0), template_header: None },
        context: InstrContext { size: 2 },
    };
    let (code, handle) = load.produce_c(&p, Some(true));
    let joined = code.join("\n");
    assert!(joined.contains("int aux1 = 1;"));
    assert!(joined.contains("for (int i = 0; i < 2; i++) {"));
    assert!(joined.contains("ctx->numThread--;"));
    assert!(joined.contains(
        "ctx->componentMemory[mySubcomponents[aux1]].cvs[aux2 + i].wait"
    ));
    assert!(joined.contains("ctx->numThread++;"));
    assert_eq!(
        handle,
        "&ctx->signalValues[ctx->componentMemory[mySubcomponents[1]].signalStart + 0]"
    );
}

#[test]
fn mapped_store_stages_its_indexes() {
    let p = CProducer::default();
    let store = StoreBucket {
        line: 0,
        message_id: 0,
        context: InstrContext { size: 1 },
        dest_is_output: false,
        dest_address_type: AddressType::SubcmpSignal {
            cmp_address: number(1),
            uniform_parallel_value: Some(false),
            is_output: false,
            input_information: InputInformation::Input { status: StatusInput::NoLast },
        },
        dest: LocationRule::Mapped { signal_code: 2, indexes: vec![number(4), number(6)] },
        src: number(9),
    };
    let (code, _) = store.produce_c(&p, Some(false));
    let joined = code.join("\n");
    // Each index lands in the scratch array...
    assert!(joined.contains("uint map_index_aux[2];"));
    assert!(joined.contains("map_index_aux[0]=4;"));
    assert!(joined.contains("map_index_aux[1]=6;"));
    // ... and the destination folds them against the I/O table.
    assert!(joined.contains(
        "defs[2].offset+(map_index_aux[0])*ctx->templateInsId2IOSignalInfo[ctx->componentMemory[mySubcomponents[cmp_index_ref]].templateId].defs[2].lengths[0]+map_index_aux[1]"
    ));
    // The sub-component block and the staging block are both closed.
    assert_eq!(code[code.len() - 1], "}");
    assert_eq!(code[code.len() - 2], "}");
}

#[test]
fn mapped_load_folds_symbolically() {
    let p = CProducer::default();
    let load = LoadBucket {
        line: 0,
        message_id: 0,
        address_type: AddressType::SubcmpSignal {
            cmp_address: number(1),
            uniform_parallel_value: Some(false),
            is_output: false,
            input_information: InputInformation::NoInput,
        },
        src: LocationRule::Mapped { signal_code: 2, indexes: vec![number(4), number(6)] },
        context: InstrContext { size: 1 },
    };
    let (_, handle) = load.produce_c(&p, Some(false));
    assert_eq!(
        handle,
        "&ctx->signalValues[ctx->componentMemory[mySubcomponents[1]].signalStart + \
         ctx->templateInsId2IOSignalInfo[ctx->componentMemory[mySubcomponents[1]].templateId].defs[2].offset\
         +(4)*ctx->templateInsId2IOSignalInfo[ctx->componentMemory[mySubcomponents[1]].templateId].defs[2].lengths[0]+6]"
    );
}
