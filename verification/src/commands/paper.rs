//! Paper trading (simulated).

use vstd::prelude::*;
use vstd::string::StringExecFns;

use crate::json::{Json, JsonValue};
use crate::output::table::opt_str;
use crate::output::{CommandOutput, OutputFormat};

verus! {

/// Paper trading (simulated).
#[derive(Debug, PartialEq)]
pub enum PaperCommand {
    /// Show simulated paper trading balances
    Balance,
}

/// One simulated balance entry.
pub open spec fn paper_entry(asset: Seq<char>, free: Seq<char>) -> Json {
    Json::Obj(
        seq![
            ("asset"@, Json::Str(asset)),
            ("free"@, Json::Str(free)),
            ("locked"@, Json::Str("0.00"@)),
        ],
    )
}

/// The simulated balances.
pub open spec fn paper_balances() -> Json {
    Json::Obj(
        seq![
            (
                "balances"@,
                Json::Arr(
                    seq![
                        paper_entry("USDT"@, "10000.00"@),
                        paper_entry("BIDR"@, "100000000.00"@),
                        paper_entry("TKO"@, "5000.00"@),
                    ],
                ),
            ),
        ],
    )
}

fn entry(asset: &str, free: &str) -> (res: JsonValue)
    ensures
        res.deep() == paper_entry(asset@, free@),
{
    let a = JsonValue::string(asset);
    let f = JsonValue::string(free);
    let l = JsonValue::string("0.00");
    let mut entries: Vec<(String, JsonValue)> = Vec::new();
    entries.push((String::from_str("asset"), a));
    entries.push((String::from_str("free"), f));
    entries.push((String::from_str("locked"), l));
    let res = JsonValue::object(entries);
    assert(res.deep()->Obj_0 =~= paper_entry(asset@, free@)->Obj_0);
    res
}

impl PaperCommand {
    /// The output of the command: the simulated balances, with a note that
    /// they are simulated.
    pub fn output(&self, format: OutputFormat) -> (res: CommandOutput)
        ensures
            res.data.deep() == paper_balances(),
            res.label@ == "Paper Balances"@,
            res.headers@.len() == 0,
            res.rows@.len() == 0,
            res.format == format,
            opt_str(res.addendum) == Some("Paper trading is currently a simulated stub."@),
    {
        let mut items: Vec<JsonValue> = Vec::new();
        items.push(entry("USDT", "10000.00"));
        items.push(entry("BIDR", "100000000.00"));
        items.push(entry("TKO", "5000.00"));
        let ghost itemsd = items@.map_values(|v: JsonValue| v.deep());
        let list = JsonValue::array(items);
        assert(list.deep()->Arr_0 =~= paper_balances()->Obj_0[0].1->Arr_0);
        let mut entries: Vec<(String, JsonValue)> = Vec::new();
        entries.push((String::from_str("balances"), list));
        let data = JsonValue::object(entries);
        assert(data.deep()->Obj_0 =~= paper_balances()->Obj_0);
        CommandOutput::new(data, "Paper Balances").with_format(format).with_addendum(
            "Paper trading is currently a simulated stub.",
        )
    }
}

} // verus!
