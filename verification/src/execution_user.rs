//! The options of one constraint-generation run, and the positional index
//! of the main component's top-level input signals that downstream tooling
//! consumes.
use vstd::prelude::*;

verus! {

/// Which constraint outputs are wanted and where they go.
pub struct ExecutionConfig {
    pub r1cs: String,
    pub sym: String,
    pub input_map: String,
    pub json_constraints: String,
    pub json_substitutions: String,
    pub no_rounds: usize,
    pub flag_s: bool,
    pub flag_f: bool,
    pub flag_p: bool,
    pub flag_old_heuristics: bool,
    pub flag_verbose: bool,
    pub inspect_constraints_flag: bool,
    pub sym_flag: bool,
    pub r1cs_flag: bool,
    pub input_map_flag: bool,
    pub json_substitution_flag: bool,
    pub json_constraint_flag: bool,
    pub prime: String,
}

/// The direction of a signal of the main template.
#[derive(Clone, Copy, PartialEq, Eq, Structural)]
pub enum SignalType {
    Input,
    Output,
    Intermediate,
}

/// What the input map reads of one signal of the main template.
pub struct SignalInfo {
    pub name: String,
    pub xtype: SignalType,
    pub dag_local_id: usize,
    pub size: usize,
}

/// One record of the positional input index: name, offset, element count.
pub struct InputMapEntry {
    pub name: String,
    pub offset: usize,
    pub size: usize,
}

/// The views of the produced entries.
pub open spec fn entry_views(entries: Seq<InputMapEntry>) -> Seq<(Seq<char>, int, int)> {
    Seq::new(entries.len(), |j: int| (entries[j].name@, entries[j].offset as int,
        entries[j].size as int))
}

/// The expected index: one record per input signal, in declaration order.
pub open spec fn input_map_of(signals: Seq<SignalInfo>) -> Seq<(Seq<char>, int, int)>
    decreases signals,
{
    if signals.len() == 0 {
        Seq::<(Seq<char>, int, int)>::empty()
    } else {
        input_map_of(signals.drop_last()) + (if signals.last().xtype is Input {
            seq![
                (
                    signals.last().name@,
                    signals.last().dag_local_id as int,
                    signals.last().size as int,
                ),
            ]
        } else {
            Seq::<(Seq<char>, int, int)>::empty()
        })
    }
}

/// Builds the positional index of the main component's top-level input
/// signals: exactly the signals declared as inputs, in declaration order,
/// each with its name, its local offset and its element count.
pub fn generate_input_map(signals: &Vec<SignalInfo>) -> (r: Vec<InputMapEntry>)
    ensures
        entry_views(r@) == input_map_of(signals@),
{
    let mut input_list: Vec<InputMapEntry> = Vec::new();
    let mut i: usize = 0;
    while i < signals.len()
        invariant
            i <= signals@.len(),
            entry_views(input_list@) == input_map_of(signals@.take(i as int)),
        decreases signals@.len() - i,
    {
        let s = &signals[i];
        match s.xtype {
            SignalType::Input => {
                let entry = InputMapEntry {
                    name: s.name.clone(),
                    offset: s.dag_local_id,
                    size: s.size,
                };
                input_list.push(entry);
            },
            _ => {},
        }
        proof {
            assert(signals@.take(i + 1).drop_last() =~= signals@.take(i as int));
            assert(signals@.take(i + 1).last() == signals@[i as int]);
            assert(entry_views(input_list@) =~= input_map_of(signals@.take(i + 1)));
        }
        i += 1;
    }
    proof {
        assert(signals@.take(signals@.len() as int) =~= signals@);
    }
    input_list
}

} // verus!
