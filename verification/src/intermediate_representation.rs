//! The intermediate representation: one module per instruction kind, the
//! shared address-resolution and sub-component-activation machinery, and the
//! character-exact specification of the lowering of every kind.
pub mod address_resolution;
pub mod assert_bucket;
pub mod branch_bucket;
pub mod call_bucket;
pub mod create_component_bucket;
pub mod ir_interface;
pub mod ir_printer;
pub mod load_bucket;
pub mod log_bucket;
pub mod loop_bucket;
pub mod lowering_spec;
pub mod return_bucket;
pub mod store_bucket;
pub mod subcomponent_run;
pub mod value_bucket;

pub use ir_interface::{
    AddressType, InputInformation, InstrContext, Instruction, InstructionList,
    InstructionPointer, LocationRule, StatusInput, ValueType,
};
