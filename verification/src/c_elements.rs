//! Producer metadata: everything the emitters read about the compiled
//! program as a whole — field prime, aggregate counts, the constant and
//! string tables, and the ordered list of template instances.
use vstd::prelude::*;

verus! {

/// One template instance of the compiled program, in dispatch-table order.
pub struct TemplateInstance {
    /// The C identifier stem of the instance's create/run routine family.
    pub template_header: String,
}

/// The read-only metadata that accompanies the instruction trees.
pub struct CProducer {
    pub main_header: String,
    pub main_is_parallel: bool,
    pub prime_str: String,
    pub string_table: Vec<String>,
    pub field_constant_list: Vec<String>,
    pub witness_to_signal_list: Vec<usize>,
    pub io_map_size: usize,
    pub total_number_of_signals: usize,
    pub number_of_components: usize,
    pub number_of_main_outputs: usize,
    pub number_of_main_inputs: usize,
    pub input_hash_map_entry_size: usize,
    pub template_instance_list: Vec<TemplateInstance>,
}

impl CProducer {
    pub fn get_string_table(&self) -> (r: &Vec<String>)
        ensures
            r == &self.string_table,
    {
        &self.string_table
    }

    pub fn get_field_constant_list(&self) -> (r: &Vec<String>)
        ensures
            r == &self.field_constant_list,
    {
        &self.field_constant_list
    }

    pub fn get_witness_to_signal_list(&self) -> (r: &Vec<usize>)
        ensures
            r == &self.witness_to_signal_list,
    {
        &self.witness_to_signal_list
    }

    pub fn get_template_instance_list(&self) -> (r: &Vec<TemplateInstance>)
        ensures
            r == &self.template_instance_list,
    {
        &self.template_instance_list
    }

    pub fn get_number_of_template_instances(&self) -> (r: usize)
        ensures
            r == self.template_instance_list.len(),
    {
        self.template_instance_list.len()
    }

    pub fn get_io_map_size(&self) -> (r: usize)
        ensures
            r == self.io_map_size,
    {
        self.io_map_size
    }

    pub fn get_total_number_of_signals(&self) -> (r: usize)
        ensures
            r == self.total_number_of_signals,
    {
        self.total_number_of_signals
    }

    pub fn get_number_of_components(&self) -> (r: usize)
        ensures
            r == self.number_of_components,
    {
        self.number_of_components
    }

    pub fn get_number_of_main_outputs(&self) -> (r: usize)
        ensures
            r == self.number_of_main_outputs,
    {
        self.number_of_main_outputs
    }

    pub fn get_number_of_main_inputs(&self) -> (r: usize)
        ensures
            r == self.number_of_main_inputs,
    {
        self.number_of_main_inputs
    }

    pub fn get_input_hash_map_entry_size(&self) -> (r: usize)
        ensures
            r == self.input_hash_map_entry_size,
    {
        self.input_hash_map_entry_size
    }
}

impl Default for CProducer {
    fn default() -> (r: Self)
        ensures
            r.main_header@ =~= Seq::<char>::empty(),
            r.main_is_parallel == false,
            r.prime_str@ =~= Seq::<char>::empty(),
            r.string_table@ =~= Seq::<String>::empty(),
            r.field_constant_list@ =~= Seq::<String>::empty(),
            r.witness_to_signal_list@ =~= Seq::<usize>::empty(),
            r.io_map_size == 0,
            r.total_number_of_signals == 0,
            r.number_of_components == 0,
            r.number_of_main_outputs == 0,
            r.number_of_main_inputs == 0,
            r.input_hash_map_entry_size == 0,
            r.template_instance_list@ =~= Seq::<TemplateInstance>::empty(),
    {
        CProducer {
            main_header: String::new(),
            main_is_parallel: false,
            prime_str: String::new(),
            string_table: Vec::new(),
            field_constant_list: Vec::new(),
            witness_to_signal_list: Vec::new(),
            io_map_size: 0,
            total_number_of_signals: 0,
            number_of_components: 0,
            number_of_main_outputs: 0,
            number_of_main_inputs: 0,
            input_hash_map_entry_size: 0,
            template_instance_list: Vec::new(),
        }
    }
}

} // verus!
