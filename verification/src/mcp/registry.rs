//! The tools the MCP server offers: one per leaf command of the command tree.

use vstd::prelude::*;
use vstd::string::StringExecFns;

use crate::json::{Json, JsonValue};
use crate::mcp::schema::{
    ArgSpec, CommandSpec, clap_command_to_schema, command_schema, excluded_arg, excluded_command,
    is_mcp_excluded_arg, is_mcp_excluded_command,
};
use crate::output::table::{opt_str, strs};
use crate::text::{join, join_strings, replace_char, replace_chars, str_equal};

verus! {

/// How a tool argument is passed on the command line.
#[derive(Debug, PartialEq)]
pub struct ArgMeta {
    pub id: String,
    pub long: Option<String>,
    pub is_bool_flag: bool,
    pub positional_index: Option<usize>,
}

/// The model of an argument's metadata.
pub struct ArgMetaM {
    pub id: Seq<char>,
    pub long: Option<Seq<char>>,
    pub is_bool_flag: bool,
    pub positional_index: Option<usize>,
}

/// A tool definition: name, description and input schema.
#[derive(Debug, PartialEq)]
pub struct ToolDef {
    pub name: String,
    pub description: String,
    pub input_schema: JsonValue,
}

/// A tool and the command it runs.
#[derive(Debug, PartialEq)]
pub struct ToolEntry {
    pub tool: ToolDef,
    pub command_path: Vec<String>,
    pub args_meta: Vec<ArgMeta>,
}

/// The model of a tool entry.
pub struct ToolM {
    pub name: Seq<char>,
    pub description: Seq<char>,
    pub schema: Json,
    pub command_path: Seq<Seq<char>>,
    pub args_meta: Seq<ArgMetaM>,
}

impl ArgMeta {
    pub open spec fn view_meta(&self) -> ArgMetaM {
        ArgMetaM {
            id: self.id@,
            long: opt_str(self.long),
            is_bool_flag: self.is_bool_flag,
            positional_index: self.positional_index,
        }
    }
}

pub open spec fn metas_view(v: Seq<ArgMeta>) -> Seq<ArgMetaM> {
    v.map_values(|m: ArgMeta| m.view_meta())
}

impl ToolEntry {
    pub open spec fn view_entry(&self) -> ToolM {
        ToolM {
            name: self.tool.name@,
            description: self.tool.description@,
            schema: self.tool.input_schema.deep(),
            command_path: strs(self.command_path@),
            args_meta: metas_view(self.args_meta@),
        }
    }
}

pub open spec fn entries_view(v: Seq<ToolEntry>) -> Seq<ToolM> {
    v.map_values(|e: ToolEntry| e.view_entry())
}

/// An argument given by position: one with neither a long nor a short name.
pub open spec fn positional(a: ArgSpec) -> bool {
    a.long is None && a.short is None
}

/// The number of positional arguments offered to tools.
pub open spec fn positional_count(args: Seq<ArgSpec>) -> nat
    decreases args.len(),
{
    if args.len() == 0 {
        0
    } else if !excluded_arg(args.last().id@) && positional(args.last()) {
        positional_count(args.drop_last()) + 1
    } else {
        positional_count(args.drop_last())
    }
}

/// The metadata of the arguments offered to tools, in order: flags are
/// arguments that take no value, and positional arguments are numbered
/// from 0.
pub open spec fn arg_metas(args: Seq<ArgSpec>) -> Seq<ArgMetaM>
    decreases args.len(),
{
    if args.len() == 0 {
        Seq::empty()
    } else {
        let prev = arg_metas(args.drop_last());
        let a = args.last();
        if excluded_arg(a.id@) {
            prev
        } else {
            prev.push(
                ArgMetaM {
                    id: a.id@,
                    long: opt_str(a.long),
                    is_bool_flag: !a.takes_values,
                    positional_index: if positional(a) {
                        Some(positional_count(args.drop_last()) as usize)
                    } else {
                        None
                    },
                },
            )
        }
    }
}

/// The name of the tool of a command path: `tokocrypto_` and the path
/// joined with underscores.
pub open spec fn tool_name(key: Seq<char>) -> Seq<char> {
    "tokocrypto_"@ + replace_char(key, '-', '_')
}

/// The tools of a leaf command at a path: one, unless the command is excluded.
pub open spec fn leaf_tools(cmd: CommandSpec, path: Seq<Seq<char>>) -> Seq<ToolM> {
    let key = join(path, "-"@);
    if excluded_command(key) {
        Seq::empty()
    } else {
        seq![
            ToolM {
                name: tool_name(key),
                description: match cmd.about {
                    Some(a) => a@,
                    None => Seq::empty(),
                },
                schema: command_schema(cmd),
                command_path: path,
                args_meta: arg_metas(cmd.args@),
            },
        ]
    }
}

/// The tools of a command at a path: a leaf below the root is a tool; else
/// the tools of its subcommands (other than `help`), in order.
pub open spec fn tools_of(cmd: CommandSpec, path: Seq<Seq<char>>) -> Seq<ToolM>
    decreases cmd,
{
    if cmd.subcommands@.len() == 0 && path.len() > 0 {
        leaf_tools(cmd, path)
    } else {
        tools_in(cmd.subcommands@, path)
    }
}

/// The tools of a list of subcommands of the command at `path`.
pub open spec fn tools_in(subs: Seq<CommandSpec>, path: Seq<Seq<char>>) -> Seq<ToolM>
    decreases subs,
{
    if subs.len() == 0 {
        Seq::empty()
    } else {
        let last = subs.last();
        let rest = tools_in(subs.drop_last(), path);
        if last.name@ == "help"@ {
            rest
        } else {
            rest + tools_of(last, path.push(last.name@))
        }
    }
}

/// The metadata of the arguments of a command offered to tools.
pub fn extract_arg_meta(cmd: &CommandSpec) -> (res: Vec<ArgMeta>)
    ensures
        metas_view(res@) == arg_metas(cmd.args@),
{
    let mut meta: Vec<ArgMeta> = Vec::new();
    let mut pos_idx: usize = 0;
    let ghost args = cmd.args@;
    let mut i: usize = 0;
    while i < cmd.args.len()
        invariant
            0 <= i <= args.len(),
            args == cmd.args@,
            metas_view(meta@) == arg_metas(args.take(i as int)),
            pos_idx == positional_count(args.take(i as int)),
            pos_idx <= i,
        decreases args.len() - i,
    {
        assert(args.take(i + 1).drop_last() =~= args.take(i as int));
        let a = &cmd.args[i];
        if !is_mcp_excluded_arg(a.id.as_str()) {
            let long = match &a.long {
                Some(l) => Some(l.clone()),
                None => None,
            };
            let is_pos = a.long.is_none() && a.short.is_none();
            let positional_index = if is_pos {
                let idx = pos_idx;
                pos_idx = pos_idx + 1;
                Some(idx)
            } else {
                None
            };
            let ghost before = meta@;
            meta.push(
                ArgMeta {
                    id: a.id.clone(),
                    long,
                    is_bool_flag: !a.takes_values,
                    positional_index,
                },
            );
            assert(metas_view(meta@) =~= metas_view(before).push(meta@.last().view_meta()));
        }
        assert(metas_view(meta@) =~= arg_metas(args.take(i + 1)));
        i = i + 1;
    }
    assert(args.take(args.len() as int) =~= args);
    meta
}

fn copy_strings(v: &Vec<String>) -> (res: Vec<String>)
    ensures
        strs(res@) == strs(v@),
{
    let mut out: Vec<String> = Vec::new();
    for i in 0..v.len()
        invariant
            out@.len() == i,
            forall|j: int| 0 <= j < i ==> #[trigger] out@[j]@ == v@[j]@,
    {
        out.push(v[i].clone());
    }
    assert(strs(out@) =~= strs(v@));
    out
}

/// Appends the tools of `cmd`, found at `parent_path`, to `out`.
pub fn collect_tools(cmd: &CommandSpec, parent_path: &Vec<String>, out: &mut Vec<ToolEntry>)
    ensures
        entries_view(final(out)@) == entries_view(old(out)@) + tools_of(*cmd, strs(parent_path@)),
    decreases cmd,
{
    let ghost path = strs(parent_path@);
    if cmd.subcommands.len() == 0 && parent_path.len() > 0 {
        let key = join_strings(parent_path, "-");
        if is_mcp_excluded_command(key.as_str()) {
            assert(entries_view(out@) =~= entries_view(old(out)@) + tools_of(*cmd, path));
            return;
        }
        let mut name = String::from_str("tokocrypto_");
        name.append(replace_chars(key.as_str(), '-', '_').as_str());
        let description = match &cmd.about {
            Some(a) => a.clone(),
            None => String::new(),
        };
        let schema = clap_command_to_schema(cmd);
        let args_meta = extract_arg_meta(cmd);
        let entry = ToolEntry {
            tool: ToolDef { name, description, input_schema: schema },
            command_path: copy_strings(parent_path),
            args_meta,
        };
        let ghost before = out@;
        out.push(entry);
        assert(entries_view(out@) =~= entries_view(before) + tools_of(*cmd, path));
        return;
    }
    let ghost subs = cmd.subcommands@;
    let ghost start = out@;
    let mut i: usize = 0;
    while i < cmd.subcommands.len()
        invariant
            0 <= i <= subs.len(),
            subs == cmd.subcommands@,
            path == strs(parent_path@),
            entries_view(out@) == entries_view(start) + tools_in(subs.take(i as int), path),
        decreases subs.len() - i,
    {
        assert(subs.take(i + 1).drop_last() =~= subs.take(i as int));
        assert(subs.take(i + 1).last() == subs[i as int]);
        let sub = &cmd.subcommands[i];
        if !str_equal(sub.name.as_str(), "help") {
            let mut sub_path = copy_strings(parent_path);
            sub_path.push(sub.name.clone());
            assert(strs(sub_path@) =~= path.push(sub.name@));
            proof {
                assert(decreases_to!(*cmd => cmd.subcommands@[i as int]));
            }
            let ghost before = out@;
            collect_tools(sub, &sub_path, out);
            assert(entries_view(out@) =~= entries_view(start) + tools_in(subs.take(i + 1), path));
        } else {
            assert(entries_view(out@) =~= entries_view(start) + tools_in(subs.take(i + 1), path));
        }
        i = i + 1;
    }
    assert(subs.take(subs.len() as int) =~= subs);
    assert(entries_view(out@) =~= entries_view(old(out)@) + tools_of(*cmd, path));
}

/// The index of the last tool with the given name: the one a lookup by name finds.
pub open spec fn last_named(tools: Seq<ToolM>, name: Seq<char>) -> Option<int>
    decreases tools.len(),
{
    if tools.len() == 0 {
        None
    } else if tools.last().name == name {
        Some(tools.len() - 1)
    } else {
        last_named(tools.drop_last(), name)
    }
}

/// The tools offered, with lookup by name.
pub struct ToolRegistry {
    tools: Vec<ToolEntry>,
}

impl ToolRegistry {
    /// The tools, as a model.
    pub closed spec fn tool_list(&self) -> Seq<ToolM> {
        entries_view(self.tools@)
    }

    /// The registry of the tools of a command tree.
    pub fn build(root: &CommandSpec) -> (res: Self)
        ensures
            res.tool_list() == tools_of(*root, Seq::empty()),
    {
        let mut tools: Vec<ToolEntry> = Vec::new();
        let path: Vec<String> = Vec::new();
        assert(strs(path@) =~= Seq::<Seq<char>>::empty());
        collect_tools(root, &path, &mut tools);
        assert(entries_view(tools@) =~= tools_of(*root, Seq::empty()));
        ToolRegistry { tools }
    }

    /// The tools, in order.
    pub fn tools(&self) -> (res: &Vec<ToolEntry>)
        ensures
            entries_view(res@) == self.tool_list(),
    {
        &self.tools
    }

    /// The tool with the given name (the last one, should two share it).
    pub fn get_tool(&self, name: &str) -> (res: Option<&ToolEntry>)
        ensures
            match last_named(self.tool_list(), name@) {
                Some(i) => res matches Some(e) && e.view_entry() == self.tool_list()[i],
                None => res is None,
            },
    {
        let ghost all = entries_view(self.tools@);
        let mut i: usize = self.tools.len();
        assert(all.take(i as int) =~= all);
        while i > 0
            invariant
                0 <= i <= self.tools@.len(),
                all == entries_view(self.tools@),
                last_named(all, name@) == last_named(all.take(i as int), name@),
            decreases i,
        {
            assert(all.take(i as int).drop_last() =~= all.take(i - 1));
            if str_equal(self.tools[i - 1].tool.name.as_str(), name) {
                assert(all.take(i as int).last() == all[i - 1]);
                return Some(&self.tools[i - 1]);
            }
            i = i - 1;
        }
        None
    }

    /// The definitions of all tools, in order.
    pub fn definitions(&self) -> (res: Vec<ToolDef>)
        ensures
            res@.len() == self.tool_list().len(),
            forall|i: int|
                0 <= i < res@.len() ==> (#[trigger] res@[i]).name@ == self.tool_list()[i].name
                    && res@[i].description@ == self.tool_list()[i].description
                    && res@[i].input_schema.deep() == self.tool_list()[i].schema,
    {
        let mut out: Vec<ToolDef> = Vec::new();
        for i in 0..self.tools.len()
            invariant
                out@.len() == i,
                forall|j: int|
                    0 <= j < i ==> (#[trigger] out@[j]).name@ == self.tools@[j].tool.name@
                        && out@[j].description@ == self.tools@[j].tool.description@
                        && out@[j].input_schema.deep() == self.tools@[j].tool.input_schema.deep(),
        {
            let t = &self.tools[i].tool;
            out.push(
                ToolDef {
                    name: t.name.clone(),
                    description: t.description.clone(),
                    input_schema: t.input_schema.deep_clone(),
                },
            );
        }
        out
    }
}

} // verus!
