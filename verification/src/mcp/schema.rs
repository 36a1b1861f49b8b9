//! The command tree as plain values, and the JSON schema of a command's arguments.

use vstd::prelude::*;
use vstd::string::StringExecFns;

use crate::json::{Json, JsonValue, entries_deep, values_deep};
use crate::output::table::{opt_str, strs};
use crate::text::str_equal;

verus! {

/// One argument of a command.
#[derive(Debug, PartialEq)]
pub struct ArgSpec {
    pub id: String,
    pub help: Option<String>,
    pub long: Option<String>,
    pub short: Option<char>,
    /// Whether the argument takes a value (else it is a flag).
    pub takes_values: bool,
    pub required: bool,
}

/// A command: its name, description, arguments and subcommands.
#[derive(Debug, PartialEq)]
pub struct CommandSpec {
    pub name: String,
    pub about: Option<String>,
    pub args: Vec<ArgSpec>,
    pub subcommands: Vec<CommandSpec>,
}

/// The model of an argument.
pub struct ArgM {
    pub id: Seq<char>,
    pub help: Option<Seq<char>>,
    pub long: Option<Seq<char>>,
    pub short: Option<char>,
    pub takes_values: bool,
    pub required: bool,
}

/// The model of a command.
pub struct CmdM {
    pub name: Seq<char>,
    pub about: Option<Seq<char>>,
    pub args: Seq<ArgM>,
    pub subs: Seq<CmdM>,
}

impl ArgSpec {
    pub open spec fn view_arg(&self) -> ArgM {
        ArgM {
            id: self.id@,
            help: opt_str(self.help),
            long: opt_str(self.long),
            short: self.short,
            takes_values: self.takes_values,
            required: self.required,
        }
    }
}

/// The models of a command's arguments, in order.
pub open spec fn args_view(args: Seq<ArgSpec>) -> Seq<ArgM> {
    args.map_values(|a: ArgSpec| a.view_arg())
}

/// The model of a command tree.
pub open spec fn cmd_view(cmd: CommandSpec) -> CmdM
    decreases cmd,
{
    CmdM {
        name: cmd.name@,
        about: opt_str(cmd.about),
        args: args_view(cmd.args@),
        subs: cmds_view(cmd.subcommands@),
    }
}

/// The models of a list of commands, in order.
pub open spec fn cmds_view(cmds: Seq<CommandSpec>) -> Seq<CmdM>
    decreases cmds,
{
    if cmds.len() == 0 {
        Seq::empty()
    } else {
        cmds_view(cmds.drop_last()).push(cmd_view(cmds.last()))
    }
}

/// The models of a list of commands are the model of each.
pub proof fn lemma_cmds_view(cmds: Seq<CommandSpec>)
    ensures
        cmds_view(cmds) =~= cmds.map_values(|c: CommandSpec| cmd_view(c)),
    decreases cmds.len(),
{
    if cmds.len() > 0 {
        lemma_cmds_view(cmds.drop_last());
    }
}

/// Whether a command (by its path joined with `-`) is not offered as a tool.
pub open spec fn excluded_command(key: Seq<char>) -> bool {
    key == "shell"@ || key == "mcp"@ || key == "ws"@ || key == "auth"@ || key == "paper"@
}

/// Whether an argument is not offered to tools.
pub open spec fn excluded_arg(id: Seq<char>) -> bool {
    id == "help"@ || id == "version"@ || id == "output"@ || id == "api_key"@ || id
        == "api_secret"@ || id == "host"@
}

/// Whether an argument is left out of the schema.
pub open spec fn schema_skips(id: Seq<char>) -> bool {
    id == "help"@ || id == "version"@
}

pub fn is_mcp_excluded_command(key: &str) -> (res: bool)
    ensures
        res == excluded_command(key@),
{
    str_equal(key, "shell") || str_equal(key, "mcp") || str_equal(key, "ws") || str_equal(
        key,
        "auth",
    ) || str_equal(key, "paper")
}

pub fn is_mcp_excluded_arg(id: &str) -> (res: bool)
    ensures
        res == excluded_arg(id@),
{
    str_equal(id, "help") || str_equal(id, "version") || str_equal(id, "output") || str_equal(
        id,
        "api_key",
    ) || str_equal(id, "api_secret") || str_equal(id, "host")
}

/// The schema of one argument: its help as description, and its type.
pub open spec fn arg_schema(a: ArgSpec) -> Json {
    Json::Obj(
        seq![
            ("description"@, Json::Str(
                match a.help {
                    Some(h) => h@,
                    None => Seq::empty(),
                },
            )),
            ("type"@, Json::Str(
                if a.takes_values {
                    "string"@
                } else {
                    "boolean"@
                },
            )),
        ],
    )
}

/// The first index of `key` among the entries; none where it is absent.
pub open spec fn key_index(entries: Seq<(Seq<char>, Json)>, key: Seq<char>) -> Option<int>
    decreases entries.len(),
{
    if entries.len() == 0 {
        None
    } else {
        match key_index(entries.drop_last(), key) {
            Some(i) => Some(i),
            None => if entries.last().0 == key {
                Some(entries.len() - 1)
            } else {
                None
            },
        }
    }
}

/// The entries with `key` set to `value`: in place where present, else at the end.
pub open spec fn entries_insert(entries: Seq<(Seq<char>, Json)>, key: Seq<char>, value: Json) -> Seq<
    (Seq<char>, Json),
> {
    match key_index(entries, key) {
        Some(i) => entries.update(i, (key, value)),
        None => entries.push((key, value)),
    }
}

/// The `properties` of a command's schema, built argument by argument.
pub open spec fn schema_properties(args: Seq<ArgSpec>) -> Seq<(Seq<char>, Json)>
    decreases args.len(),
{
    if args.len() == 0 {
        Seq::empty()
    } else {
        let prev = schema_properties(args.drop_last());
        let a = args.last();
        if schema_skips(a.id@) {
            prev
        } else {
            entries_insert(prev, a.id@, arg_schema(a))
        }
    }
}

/// The ids of the required arguments of a command's schema, in order.
pub open spec fn schema_required(args: Seq<ArgSpec>) -> Seq<Seq<char>>
    decreases args.len(),
{
    if args.len() == 0 {
        Seq::empty()
    } else {
        let prev = schema_required(args.drop_last());
        let a = args.last();
        if !schema_skips(a.id@) && a.required {
            prev.push(a.id@)
        } else {
            prev
        }
    }
}

/// The JSON schema of a command's arguments.
pub open spec fn command_schema(cmd: CommandSpec) -> Json {
    Json::Obj(
        seq![
            ("type"@, Json::Str("object"@)),
            ("properties"@, Json::Obj(schema_properties(cmd.args@))),
            ("required"@, Json::Arr(schema_required(cmd.args@).map_values(|s: Seq<char>| Json::Str(s)))),
        ],
    )
}

/// Sets `key` to `value` in an object's entries: in place where present, else at the end.
pub fn insert_entry(entries: &mut Vec<(String, JsonValue)>, key: &str, value: JsonValue)
    ensures
        entries_deep(final(entries)@) == entries_insert(entries_deep(old(entries)@), key@, value.deep()),
{
    let ghost e = entries_deep(entries@);
    let ghost vd = value.deep();
    let mut i: usize = 0;
    while i < entries.len()
        invariant
            0 <= i <= entries@.len(),
            e == entries_deep(entries@),
            e == entries_deep(old(entries)@),
            vd == value.deep(),
            key_index(e.take(i as int), key@) is None,
        decreases entries@.len() - i,
    {
        assert(e.take(i + 1).drop_last() =~= e.take(i as int));
        if str_equal(entries[i].0.as_str(), key) {
            assert(e[i as int].0 == key@);
            assert(e.take(i + 1).last() == e[i as int]);
            assert(key_index(e.take(i + 1), key@) == Some(i as int));
            proof {
                lemma_key_index_prefix(e, i as int + 1, key@);
            }
            let ghost before = entries@;
            let k = key.to_owned();
            entries.set(i, (k, value));
            assert(entries@ == before.update(i as int, (k, value)));
            assert(entries_deep(entries@) =~= e.update(i as int, (key@, vd)));
            return;
        }
        i = i + 1;
    }
    assert(e.take(i as int) =~= e);
    entries.push((key.to_owned(), value));
    assert(entries_deep(entries@) =~= e.push((key@, vd)));
}

/// Where a prefix finds the key, the whole sequence finds it at the same place.
proof fn lemma_key_index_prefix(e: Seq<(Seq<char>, Json)>, n: int, key: Seq<char>)
    requires
        0 <= n <= e.len(),
        key_index(e.take(n), key) is Some,
    ensures
        key_index(e, key) == key_index(e.take(n), key),
    decreases e.len() - n,
{
    if n < e.len() {
        assert(e.take(n + 1).drop_last() =~= e.take(n));
        lemma_key_index_prefix(e, n + 1, key);
    } else {
        assert(e.take(n) =~= e);
    }
}

/// Converts a command's arguments into an MCP-compatible JSON schema.
pub fn clap_command_to_schema(cmd: &CommandSpec) -> (res: JsonValue)
    ensures
        res.deep() == command_schema(*cmd),
{
    let mut properties: Vec<(String, JsonValue)> = Vec::new();
    let mut required: Vec<JsonValue> = Vec::new();
    let ghost args = cmd.args@;
    let mut i: usize = 0;
    while i < cmd.args.len()
        invariant
            0 <= i <= args.len(),
            args == cmd.args@,
            entries_deep(properties@) == schema_properties(args.take(i as int)),
            values_deep(required@) == schema_required(args.take(i as int)).map_values(
                |s: Seq<char>| Json::Str(s),
            ),
        decreases args.len() - i,
    {
        assert(args.take(i + 1).drop_last() =~= args.take(i as int));
        let a = &cmd.args[i];
        let id = a.id.as_str();
        if !(str_equal(id, "help") || str_equal(id, "version")) {
            let description = match &a.help {
                Some(h) => JsonValue::Str(h.clone()),
                None => JsonValue::Str(String::new()),
            };
            let kind = JsonValue::string(if a.takes_values { "string" } else { "boolean" });
            let mut prop: Vec<(String, JsonValue)> = Vec::new();
            prop.push((String::from_str("description"), description));
            prop.push((String::from_str("type"), kind));
            let p = JsonValue::object(prop);
            assert(p.deep()->Obj_0 =~= arg_schema(*a)->Obj_0);
            insert_entry(&mut properties, id, p);
            if a.required {
                let ghost before = required@;
                required.push(JsonValue::Str(a.id.clone()));
                assert(values_deep(required@) =~= values_deep(before).push(Json::Str(a.id@)));
            }
        }
        assert(values_deep(required@) =~= schema_required(args.take(i + 1)).map_values(
            |s: Seq<char>| Json::Str(s),
        ));
        i = i + 1;
    }
    assert(args.take(args.len() as int) =~= args);
    let ghost pd = entries_deep(properties@);
    let ghost rd = values_deep(required@);
    let props = JsonValue::object(properties);
    let reqs = JsonValue::array(required);
    let ty = JsonValue::string("object");
    let mut top: Vec<(String, JsonValue)> = Vec::new();
    top.push((String::from_str("type"), ty));
    top.push((String::from_str("properties"), props));
    top.push((String::from_str("required"), reqs));
    let res = JsonValue::object(top);
    assert(res.deep()->Obj_0 =~= command_schema(*cmd)->Obj_0);
    res
}

} // verus!
