//! Helpers that assemble fragments of the generated C program: calls,
//! conditionals, callable definitions, brace-delimited initializer lists and
//! the common accessor expressions of the generated runtime. Every helper's
//! contract pins the produced text exactly.
use vstd::prelude::*;

use crate::text::{dec_of, join_with, spec_dec, spec_join, string_of, views};

verus! {

/// One line per statement, each terminated by a newline.
pub open spec fn spec_merge(lines: Seq<Seq<char>>) -> Seq<char>
    decreases lines.len(),
{
    if lines.len() == 0 {
        Seq::empty()
    } else {
        spec_merge(lines.drop_last()) + lines.last() + "\n"@
    }
}

/// Flattens a statement list into the text of a block body.
pub fn merge_code(lines: &Vec<String>) -> (r: String)
    ensures
        r@ == spec_merge(views(lines@)),
{
    let mut r = String::new();
    let mut i: usize = 0;
    while i < lines.len()
        invariant
            i <= lines.len(),
            r@ == spec_merge(views(lines@).take(i as int)),
        decreases lines.len() - i,
    {
        r.append(lines[i].as_str());
        r.append("\n");
        proof {
            let all = views(lines@);
            assert(all.take(i + 1).drop_last() =~= all.take(i as int));
            assert(all.take(i + 1).last() == lines@[i as int]@);
            assert(r@ =~= spec_merge(all.take(i + 1)));
        }
        i += 1;
    }
    proof {
        assert(views(lines@).take(lines@.len() as int) =~= views(lines@));
    }
    r
}

pub open spec fn spec_build_call(name: Seq<char>, args: Seq<Seq<char>>) -> Seq<char> {
    name + "("@ + spec_join(args, ","@) + ")"@
}

/// The text of a C call expression.
pub fn build_call(name: String, args: Vec<String>) -> (r: String)
    ensures
        r@ == spec_build_call(name@, views(args@)),
{
    let mut r = name;
    r.append("(");
    let joined = join_with(&args, ",");
    r.append(joined.as_str());
    r.append(")");
    r
}

/// The text of a comma-separated argument list.
pub fn argument_list(args: &Vec<String>) -> (r: String)
    ensures
        r@ == spec_join(views(args@), ","@),
{
    join_with(args, ",")
}

pub open spec fn spec_build_conditional(
    cond: Seq<char>,
    then_body: Seq<Seq<char>>,
    else_body: Seq<Seq<char>>,
) -> Seq<char> {
    let head = "if("@ + cond + "){\n"@ + spec_merge(then_body) + "}"@;
    if else_body.len() > 0 {
        head + "else{\n"@ + spec_merge(else_body) + "}"@
    } else {
        head
    }
}

/// The text of a C conditional; the else block is omitted when empty.
pub fn build_conditional(cond: String, then_body: Vec<String>, else_body: Vec<String>) -> (r:
    String)
    ensures
        r@ == spec_build_conditional(cond@, views(then_body@), views(else_body@)),
{
    let mut r = string_of("if(");
    r.append(cond.as_str());
    r.append("){\n");
    let merged_then = merge_code(&then_body);
    r.append(merged_then.as_str());
    r.append("}");
    if else_body.len() > 0 {
        r.append("else{\n");
        let merged_else = merge_code(&else_body);
        r.append(merged_else.as_str());
        r.append("}");
    }
    r
}

pub open spec fn spec_build_callable(
    header: Seq<char>,
    params: Seq<Seq<char>>,
    body: Seq<Seq<char>>,
) -> Seq<char> {
    header + "("@ + spec_join(params, ","@) + "){\n"@ + spec_merge(body) + "}\n"@
}

/// The text of a complete C function definition.
pub fn build_callable(header: String, params: Vec<String>, body: Vec<String>) -> (r: String)
    ensures
        r@ == spec_build_callable(header@, views(params@), views(body@)),
{
    let mut r = header;
    r.append("(");
    let joined = join_with(&params, ",");
    r.append(joined.as_str());
    r.append("){\n");
    let merged = merge_code(&body);
    r.append(merged.as_str());
    r.append("}\n");
    r
}

pub open spec fn spec_set_list(xs: Seq<usize>) -> Seq<char> {
    "{"@ + spec_join(xs.map_values(|x: usize| spec_dec(x as nat)), ","@) + "}"@
}

/// A brace-delimited initializer list of decimal integers.
pub fn set_list(xs: &Vec<usize>) -> (r: String)
    ensures
        r@ == spec_set_list(xs@),
{
    let mut r = string_of("{");
    let mut i: usize = 0;
    while i < xs.len()
        invariant
            i <= xs.len(),
            r@ == "{"@ + spec_join(
                xs@.take(i as int).map_values(|x: usize| spec_dec(x as nat)),
                ","@,
            ),
        decreases xs.len() - i,
    {
        if i > 0 {
            r.append(",");
        }
        let item = dec_of(xs[i]);
        r.append(item.as_str());
        proof {
            let f = |x: usize| spec_dec(x as nat);
            let upto = xs@.take(i + 1).map_values(f);
            assert(upto.drop_last() =~= xs@.take(i as int).map_values(f));
            assert(upto.last() == spec_dec(xs@[i as int] as nat));
            assert(r@ =~= "{"@ + spec_join(upto, ","@));
        }
        i += 1;
    }
    r.append("}");
    proof {
        assert(xs@.take(xs@.len() as int) =~= xs@);
    }
    r
}

pub open spec fn spec_bool(b: bool) -> Seq<char> {
    if b {
        "true"@
    } else {
        "false"@
    }
}

/// The C literal for a boolean.
pub fn bool_literal(b: bool) -> (r: String)
    ensures
        r@ == spec_bool(b),
{
    if b {
        string_of("true")
    } else {
        string_of("false")
    }
}

pub open spec fn spec_set_list_bool(xs: Seq<bool>) -> Seq<char> {
    "{"@ + spec_join(xs.map_values(|x: bool| spec_bool(x)), ","@) + "}"@
}

/// A brace-delimited initializer list of C boolean literals.
pub fn set_list_bool(xs: &Vec<bool>) -> (r: String)
    ensures
        r@ == spec_set_list_bool(xs@),
{
    let mut r = string_of("{");
    let mut i: usize = 0;
    while i < xs.len()
        invariant
            i <= xs.len(),
            r@ == "{"@ + spec_join(xs@.take(i as int).map_values(|x: bool| spec_bool(x)), ","@),
        decreases xs.len() - i,
    {
        if i > 0 {
            r.append(",");
        }
        let item = bool_literal(xs[i]);
        r.append(item.as_str());
        proof {
            let f = |x: bool| spec_bool(x);
            let upto = xs@.take(i + 1).map_values(f);
            assert(upto.drop_last() =~= xs@.take(i as int).map_values(f));
            assert(upto.last() == spec_bool(xs@[i as int]));
            assert(r@ =~= "{"@ + spec_join(upto, ","@));
        }
        i += 1;
    }
    r.append("}");
    proof {
        assert(xs@.take(xs@.len() as int) =~= xs@);
    }
    r
}

pub open spec fn spec_lvar(idx: Seq<char>) -> Seq<char> {
    "lvar["@ + idx + "]"@
}

/// Accessor into the local-variable stack of the enclosing routine.
pub fn lvar(idx: String) -> (r: String)
    ensures
        r@ == spec_lvar(idx@),
{
    let mut r = string_of("lvar[");
    r.append(idx.as_str());
    r.append("]");
    r
}

pub open spec fn spec_signal_values(idx: Seq<char>) -> Seq<char> {
    "signalValues[mySignalStart + "@ + idx + "]"@
}

/// Accessor into this component's own signal array.
pub fn signal_values(idx: String) -> (r: String)
    ensures
        r@ == spec_signal_values(idx@),
{
    let mut r = string_of("signalValues[mySignalStart + ");
    r.append(idx.as_str());
    r.append("]");
    r
}

pub open spec fn spec_expaux(idx: Seq<char>) -> Seq<char> {
    "expaux["@ + idx + "]"@
}

/// Accessor into the expression-evaluation scratch stack.
pub fn expaux(idx: String) -> (r: String)
    ensures
        r@ == spec_expaux(idx@),
{
    let mut r = string_of("expaux[");
    r.append(idx.as_str());
    r.append("]");
    r
}

pub open spec fn spec_circuit_constants(idx: Seq<char>) -> Seq<char> {
    "circuitConstants["@ + idx + "]"@
}

/// Accessor into the table of field constants of the circuit.
pub fn circuit_constants(idx: String) -> (r: String)
    ensures
        r@ == spec_circuit_constants(idx@),
{
    let mut r = string_of("circuitConstants[");
    r.append(idx.as_str());
    r.append("]");
    r
}

pub open spec fn spec_template_id_in_component(pos: Seq<char>) -> Seq<char> {
    "ctx->componentMemory["@ + pos + "].templateId"@
}

/// The template ordinal stored in a component-memory slot.
pub fn template_id_in_component(pos: String) -> (r: String)
    ensures
        r@ == spec_template_id_in_component(pos@),
{
    let mut r = string_of("ctx->componentMemory[");
    r.append(pos.as_str());
    r.append("].templateId");
    r
}

pub open spec fn spec_my_array_position(dims: Seq<char>, len: Seq<char>, idx: Seq<char>) -> Seq<
    char,
> {
    "generate_position_array("@ + dims + ","@ + len + ","@ + idx + ")"@
}

/// A runtime call that renders the bracketed array position of an instance.
pub fn generate_my_array_position(dims: String, len: String, idx: String) -> (r: String)
    ensures
        r@ == spec_my_array_position(dims@, len@, idx@),
{
    let mut r = string_of("generate_position_array(");
    r.append(dims.as_str());
    r.append(",");
    r.append(len.as_str());
    r.append(",");
    r.append(idx.as_str());
    r.append(")");
    r
}

pub open spec fn spec_failed_assert_message(line: nat, message_id: nat) -> Seq<char> {
    "assert_failed("@ + spec_dec(line) + ","@ + spec_dec(message_id) + ")"@
}

/// The abort call emitted for a failed circuit assertion: it reports the
/// originating source line and the owning template's diagnostic identifier.
pub fn build_failed_assert_message(line: usize, message_id: usize) -> (r: String)
    ensures
        r@ == spec_failed_assert_message(line as nat, message_id as nat),
{
    let mut r = string_of("assert_failed(");
    let line_txt = dec_of(line);
    r.append(line_txt.as_str());
    r.append(",");
    let id_txt = dec_of(message_id);
    r.append(id_txt.as_str());
    r.append(")");
    r
}

/// The return statement that ends a generated function body.
pub fn add_return() -> (r: String)
    ensures
        r@ == "return;"@,
{
    string_of("return;")
}

} // verus!
