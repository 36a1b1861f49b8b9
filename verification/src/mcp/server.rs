//! Tool calls: the command line that a call of a tool becomes. Serving the
//! protocol and running the command is left to the caller.

use vstd::prelude::*;
use vstd::string::StringExecFns;

use crate::json::{Json, JsonValue};
use crate::mcp::registry::{ArgMetaM, ToolEntry, ToolM, metas_view};
use crate::output::table::strs;
use crate::text::str_equal;

verus! {

/// The text of an argument value: a string as is, a number as it prints,
/// anything else empty.
pub open spec fn value_text(v: Json) -> Seq<char> {
    match v {
        Json::Str(s) => s,
        Json::Num(n) => n.text(),
        _ => Seq::empty(),
    }
}

/// The words that one argument of a call adds to the command line: none
/// where the call does not give it; for a flag, `--long` where it is true;
/// for a named argument, `--long` and the value; else the value.
pub open spec fn arg_words(m: ArgMetaM, arguments: Json) -> Seq<Seq<char>> {
    match arguments.get(m.id) {
        None => Seq::empty(),
        Some(v) => if m.is_bool_flag {
            if v.as_bool() == Some(true) {
                seq!["--"@ + m.long->0]
            } else {
                Seq::empty()
            }
        } else {
            match m.long {
                Some(l) => seq!["--"@ + l, value_text(v)],
                None => seq![value_text(v)],
            }
        },
    }
}

/// The words that the arguments of a call add, in the order of the metadata.
pub open spec fn args_words(metas: Seq<ArgMetaM>, arguments: Json) -> Seq<Seq<char>>
    decreases metas.len(),
{
    if metas.len() == 0 {
        Seq::empty()
    } else {
        args_words(metas.drop_last(), arguments) + arg_words(metas.last(), arguments)
    }
}

/// Whether every flag that a call sets has a long name to be passed by.
pub open spec fn flags_named(metas: Seq<ArgMetaM>, arguments: Json) -> bool {
    forall|i: int|
        0 <= i < metas.len() && (#[trigger] metas[i]).is_bool_flag && arguments.get(metas[i].id)
            is Some && arguments.get(metas[i].id)->0.as_bool() == Some(true) ==> metas[i].long is Some
}

/// The command line a tool call becomes: the program, the command path, the
/// arguments given, then JSON output.
pub open spec fn call_line(tool: ToolM, arguments: Json) -> Seq<Seq<char>> {
    seq!["tokocrypto"@] + tool.command_path + args_words(tool.args_meta, arguments) + seq![
        "-o"@,
        "json"@,
    ]
}

fn value_string(v: &JsonValue) -> (res: String)
    ensures
        res@ == value_text(v.deep()),
{
    match v {
        JsonValue::Str(s) => s.clone(),
        JsonValue::Number(n) => n.to_text(),
        _ => String::new(),
    }
}

fn dashes(long: &String) -> (res: String)
    ensures
        res@ == "--"@ + long@,
{
    let mut s = String::from_str("--");
    s.append(long.as_str());
    s
}

/// The command line a tool call becomes.
pub fn tool_call_args(entry: &ToolEntry, arguments: &JsonValue) -> (res: Vec<String>)
    requires
        flags_named(metas_view(entry.args_meta@), arguments.deep()),
    ensures
        strs(res@) == call_line(entry.view_entry(), arguments.deep()),
{
    let mut args: Vec<String> = Vec::new();
    args.push(String::from_str("tokocrypto"));
    for i in 0..entry.command_path.len()
        invariant
            strs(args@) == seq!["tokocrypto"@] + strs(entry.command_path@).take(i as int),
    {
        let ghost before = args@;
        args.push(entry.command_path[i].clone());
        assert(strs(args@) =~= strs(before).push(entry.command_path@[i as int]@));
        assert(strs(args@) =~= seq!["tokocrypto"@] + strs(entry.command_path@).take(i + 1));
    }
    assert(strs(entry.command_path@).take(entry.command_path@.len() as int) =~= strs(
        entry.command_path@,
    ));
    let ghost head = strs(args@);
    let ghost metas = metas_view(entry.args_meta@);
    let ghost a = arguments.deep();
    for i in 0..entry.args_meta.len()
        invariant
            metas == metas_view(entry.args_meta@),
            a == arguments.deep(),
            flags_named(metas, a),
            strs(args@) == head + args_words(metas.take(i as int), a),
    {
        assert(metas.take(i + 1).drop_last() =~= metas.take(i as int));
        let m = &entry.args_meta[i];
        assert(metas[i as int] == m.view_meta());
        let ghost before = args@;
        match arguments.get(m.id.as_str()) {
            Some(val) => {
                if m.is_bool_flag {
                    if val.as_bool() == Some(true) {
                        match &m.long {
                            Some(l) => args.push(dashes(l)),
                            None => {},
                        }
                    }
                } else {
                    match &m.long {
                        Some(l) => {
                            args.push(dashes(l));
                            args.push(value_string(val));
                        },
                        None => args.push(value_string(val)),
                    }
                }
            },
            None => {},
        }
        assert(strs(args@) =~= strs(before) + arg_words(metas[i as int], a));
        assert(strs(args@) =~= head + args_words(metas.take(i + 1), a));
    }
    assert(metas.take(metas.len() as int) =~= metas);
    let ghost before = args@;
    args.push(String::from_str("-o"));
    args.push(String::from_str("json"));
    assert(strs(args@) =~= call_line(entry.view_entry(), arguments.deep()));
    args
}

/// Whether a command path lies in a dangerous group: trading or funding,
/// which move funds.
pub open spec fn dangerous_path(path: Seq<Seq<char>>) -> bool {
    path.len() > 0 && (path[0] == "trade"@ || path[0] == "funding"@)
}

/// Whether the server may run a tool: any tool where dangerous commands are
/// allowed, else only tools outside the trade and funding groups.
pub fn tool_permitted(entry: &ToolEntry, allow_dangerous: bool) -> (res: bool)
    ensures
        res == (allow_dangerous || !dangerous_path(entry.view_entry().command_path)),
{
    if allow_dangerous {
        return true;
    }
    if entry.command_path.len() == 0 {
        return true;
    }
    let first = entry.command_path[0].as_str();
    assert(strs(entry.command_path@)[0] == first@);
    !(str_equal(first, "trade") || str_equal(first, "funding"))
}

} // verus!
