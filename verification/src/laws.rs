//! Properties that relate several operations of the library.

use vstd::prelude::*;

use crate::commands::market::MarketCommand;
use crate::commands::websocket::{StreamBounds, WsMessage, step_spec};
use crate::json::Json;
use crate::gate::ws::{SymbolTypes, group_index, grouped, pair_type};
use crate::mcp::registry::{ToolM, last_named, leaf_tools, tool_name, tools_in, tools_of};
use crate::mcp::schema::{CommandSpec, excluded_command};
use crate::text::join;
use crate::output::{CommandOutput, OutputFormat, RenderingM, success_envelope};
use crate::output::table::opt_str;

verus! {

/// A market command given an explicit symbol type (or naming no symbol)
/// sends the same request whatever symbol type detection would report.
pub proof fn law_explicit_symbol_type_wins(cmd: MarketCommand, d1: u32, d2: u32)
    requires
        cmd.lookup_of() is None,
    ensures
        cmd.request_of(d1) == cmd.request_of(d2),
{
}

/// Output in JSON format that has anything to show renders as a success
/// envelope carrying the output's data unchanged, and its addendum.
pub proof fn law_json_output_is_success_envelope(out: CommandOutput)
    requires
        out.format == OutputFormat::Json,
        !out.is_blank(),
    ensures
        out.rendering() == RenderingM::Json(success_envelope(out.data.deep(), opt_str(out.addendum))),
        success_envelope(out.data.deep(), opt_str(out.addendum)).get("success"@) == Some(
            Json::Bool(true),
        ),
        success_envelope(out.data.deep(), opt_str(out.addendum)).get("data"@) == Some(
            out.data.deep(),
        ),
{
    let env = success_envelope(out.data.deep(), opt_str(out.addendum));
    reveal_strlit("success");
    reveal_strlit("data");
    let e = env->Obj_0;
    assert(e[0].0 == "success"@);
    assert(e.drop_first()[0].0 == "data"@);
    assert("success"@ != "data"@);
    assert(crate::json::entries_get(e.drop_first(), "data"@) == Some(out.data.deep()));
}

/// Output with nothing to show renders as nothing, in either format.
pub proof fn law_blank_output_renders_nothing(out: CommandOutput)
    requires
        out.is_blank(),
    ensures
        out.rendering() == RenderingM::Empty,
{
}

/// Looking a tool up by the name of any tool of the registry finds a tool
/// of that name, at that position or after it.
pub proof fn law_tool_lookup_finds_named(tools: Seq<ToolM>, i: int)
    requires
        0 <= i < tools.len(),
    ensures
        last_named(tools, tools[i].name) matches Some(j) && i <= j < tools.len() && tools[j].name
            == tools[i].name,
    decreases tools.len(),
{
    if tools.last().name != tools[i].name {
        assert(i < tools.len() - 1);
        assert(tools.drop_last()[i] == tools[i]);
        law_tool_lookup_finds_named(tools.drop_last(), i);
    }
}

/// The pairs of the given type, in order.
pub open spec fn of_type(types: SymbolTypes, pairs: Seq<Seq<char>>, t: u32) -> Seq<Seq<char>>
    decreases pairs.len(),
{
    if pairs.len() == 0 {
        Seq::empty()
    } else if pair_type(types, pairs.last()) == t {
        of_type(types, pairs.drop_last(), t).push(pairs.last())
    } else {
        of_type(types, pairs.drop_last(), t)
    }
}

proof fn lemma_group_index(g: Seq<(u32, Seq<Seq<char>>)>, t: u32)
    ensures
        match group_index(g, t) {
            Some(i) => 0 <= i < g.len() && g[i].0 == t,
            None => forall|i: int| 0 <= i < g.len() ==> g[i].0 != t,
        },
    decreases g.len(),
{
    if g.len() > 0 {
        let d = g.drop_last();
        lemma_group_index(d, t);
        assert forall|i: int| 0 <= i < d.len() implies #[trigger] g[i] == d[i] by {}
    }
}

proof fn lemma_of_type_empty(types: SymbolTypes, pairs: Seq<Seq<char>>, t: u32)
    requires
        forall|k: int| 0 <= k < pairs.len() ==> pair_type(types, pairs[k]) != t,
    ensures
        of_type(types, pairs, t) == Seq::<Seq<char>>::empty(),
    decreases pairs.len(),
{
    if pairs.len() > 0 {
        lemma_of_type_empty(types, pairs.drop_last(), t);
    }
}

/// Grouping the pairs of a price stream by type partitions them: the
/// groups have distinct types, each holds exactly the pairs of its type in
/// their order, and every pair lies in the group of its type.
pub proof fn law_groups_partition_pairs(types: SymbolTypes, pairs: Seq<Seq<char>>)
    ensures
        forall|i: int|
            0 <= i < grouped(types, pairs).len() ==> (#[trigger] grouped(types, pairs)[i]).1
                == of_type(types, pairs, grouped(types, pairs)[i].0),
        forall|i: int, j: int|
            0 <= i < j < grouped(types, pairs).len() ==> (#[trigger] grouped(types, pairs)[i]).0
                != (#[trigger] grouped(types, pairs)[j]).0,
        forall|k: int|
            0 <= k < pairs.len() ==> exists|i: int|
                0 <= i < grouped(types, pairs).len() && (#[trigger] grouped(types, pairs)[i]).0
                    == pair_type(types, #[trigger] pairs[k]),
    decreases pairs.len(),
{
    if pairs.len() > 0 {
        let dl = pairs.drop_last();
        let p = pairs.last();
        let t = pair_type(types, p);
        let g = grouped(types, dl);
        law_groups_partition_pairs(types, dl);
        lemma_group_index(g, t);
        let g2 = grouped(types, pairs);
        match group_index(g, t) {
            Some(i0) => {
                assert(g2 == g.update(i0, (t, g[i0].1.push(p))));
                assert forall|i: int| 0 <= i < g2.len() implies (#[trigger] g2[i]).1 == of_type(
                    types,
                    pairs,
                    g2[i].0,
                ) by {
                    assert(g[i].1 == of_type(types, dl, g[i].0));
                    if i != i0 {
                        assert(g[i].0 != t);
                    }
                }
                assert forall|k: int| 0 <= k < pairs.len() implies exists|i: int|
                    0 <= i < g2.len() && (#[trigger] g2[i]).0 == pair_type(
                        types,
                        #[trigger] pairs[k],
                    ) by {
                    if k < dl.len() {
                        assert(pairs[k] == dl[k]);
                        let i = choose|i: int|
                            0 <= i < g.len() && (#[trigger] g[i]).0 == pair_type(types, dl[k]);
                        assert(g2[i].0 == g[i].0);
                    } else {
                        assert(g2[i0].0 == t);
                    }
                }
            },
            None => {
                assert(g2 == g.push((t, seq![p])));
                assert forall|k: int| 0 <= k < dl.len() implies pair_type(types, dl[k]) != t by {
                    let i = choose|i: int|
                        0 <= i < g.len() && (#[trigger] g[i]).0 == pair_type(types, dl[k]);
                    assert(g[i].0 != t);
                }
                lemma_of_type_empty(types, dl, t);
                assert(of_type(types, pairs, t) =~= seq![p]);
                assert forall|i: int| 0 <= i < g2.len() implies (#[trigger] g2[i]).1 == of_type(
                    types,
                    pairs,
                    g2[i].0,
                ) by {
                    if i < g.len() {
                        assert(g[i].1 == of_type(types, dl, g[i].0));
                        assert(g[i].0 != t);
                    }
                }
                assert forall|k: int| 0 <= k < pairs.len() implies exists|i: int|
                    0 <= i < g2.len() && (#[trigger] g2[i]).0 == pair_type(
                        types,
                        #[trigger] pairs[k],
                    ) by {
                    if k < dl.len() {
                        assert(pairs[k] == dl[k]);
                        let i = choose|i: int|
                            0 <= i < g.len() && (#[trigger] g[i]).0 == pair_type(types, dl[k]);
                        assert(g2[i].0 == g[i].0);
                    } else {
                        assert(g2[g.len() as int].0 == t);
                    }
                }
            },
        }
    }
}

/// A tool's name is `tokocrypto_` and its command path joined with
/// underscores, and no tool runs an excluded command.
pub open spec fn well_named(t: ToolM) -> bool {
    let key = join(t.command_path, "-"@);
    t.name == tool_name(key) && !excluded_command(key)
}

/// Every tool derived from a command tree is named after its command path,
/// and none runs an excluded command.
pub proof fn law_tools_named_by_path(cmd: CommandSpec, path: Seq<Seq<char>>)
    ensures
        forall|k: int|
            0 <= k < tools_of(cmd, path).len() ==> well_named(#[trigger] tools_of(cmd, path)[k]),
    decreases cmd,
{
    if cmd.subcommands@.len() == 0 && path.len() > 0 {
        let tools = tools_of(cmd, path);
        assert(tools == leaf_tools(cmd, path));
        if tools.len() > 0 {
            assert(tools[0].command_path == path);
            assert(tools[0].name == tool_name(join(path, "-"@)));
        }
    } else {
        lemma_subcommand_tools_named(cmd.subcommands@, path);
        assert(tools_of(cmd, path) == tools_in(cmd.subcommands@, path));
    }
}

proof fn lemma_subcommand_tools_named(subs: Seq<CommandSpec>, path: Seq<Seq<char>>)
    ensures
        forall|k: int|
            0 <= k < tools_in(subs, path).len() ==> well_named(#[trigger] tools_in(subs, path)[k]),
    decreases subs,
{
    if subs.len() > 0 {
        let last = subs.last();
        lemma_subcommand_tools_named(subs.drop_last(), path);
        if last.name@ != "help"@ {
            law_tools_named_by_path(last, path.push(last.name@));
            let a = tools_in(subs.drop_last(), path);
            let b = tools_of(last, path.push(last.name@));
            assert forall|k: int| 0 <= k < (a + b).len() implies well_named(#[trigger] (a + b)[k]) by {
                if k < a.len() {
                    assert((a + b)[k] == a[k]);
                } else {
                    assert((a + b)[k] == b[k - a.len()]);
                }
            }
        }
    }
}

/// The receive loop run over a sequence of messages: the number of data
/// messages shown and whether the loop has stopped. Messages after the stop
/// are not received.
pub open spec fn run_loop(bounds: StreamBounds, channel: Option<Seq<char>>, msgs: Seq<WsMessage>) -> (
    int,
    bool,
)
    decreases msgs.len(),
{
    if msgs.len() == 0 {
        (0, false)
    } else {
        let (count, stopped) = run_loop(bounds, channel, msgs.drop_last());
        if stopped {
            (count, true)
        } else {
            let (_, next, stop) = step_spec(bounds, channel, count as usize, msgs.last());
            (next as int, stop)
        }
    }
}

/// A stream with a message limit never shows more data messages than the
/// limit, and while it runs (after its first message) it has shown fewer
/// than the limit.
pub proof fn law_stream_stops_at_limit(
    bounds: StreamBounds,
    channel: Option<Seq<char>>,
    msgs: Seq<WsMessage>,
    limit: usize,
)
    requires
        bounds.limit == Some(limit),
    ensures
        0 <= run_loop(bounds, channel, msgs).0 <= limit,
        run_loop(bounds, channel, msgs).0 <= msgs.len(),
        !run_loop(bounds, channel, msgs).1 && msgs.len() > 0 ==> run_loop(bounds, channel, msgs).0
            < limit,
    decreases msgs.len(),
{
    if msgs.len() > 0 {
        law_stream_stops_at_limit(bounds, channel, msgs.drop_last(), limit);
    }
}

} // verus!
