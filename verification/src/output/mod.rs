//! Command output: the data a command produced, how it is labelled, and how
//! it is to be shown.

use vstd::prelude::*;
use vstd::string::StringExecFns;

use crate::json::{Json, JsonValue};
use crate::text::{lower, to_lower, str_equal};

pub mod table;

use table::{Body, BodyM, auto_body, auto_table, opt_str, strs, title_of};

verus! {

/// Output format for CLI responses.
#[derive(Debug, Clone, Copy, PartialEq, Eq, Structural)]
pub enum OutputFormat {
    Table,
    Json,
}

impl OutputFormat {
    /// `Json` where the text reads `json` in any case, else `Table`.
    pub fn from_str(s: &str) -> (res: Self)
        ensures
            res == (if lower(s@) == "json"@ {
                OutputFormat::Json
            } else {
                OutputFormat::Table
            }),
    {
        let l = to_lower(s);
        if str_equal(l.as_str(), "json") {
            OutputFormat::Json
        } else {
            OutputFormat::Table
        }
    }
}

impl Default for OutputFormat {
    fn default() -> (res: Self)
        ensures
            res == OutputFormat::Table,
    {
        OutputFormat::Table
    }
}

/// Structured output from a command, to be rendered later.
#[derive(Debug, PartialEq)]
pub struct CommandOutput {
    pub data: JsonValue,
    pub label: String,
    pub headers: Vec<String>,
    pub rows: Vec<Vec<String>>,
    pub format: OutputFormat,
    pub addendum: Option<String>,
}

/// How output is shown: nothing, a JSON envelope, or a table followed by
/// an optional addendum.
#[derive(Debug, PartialEq)]
pub enum Rendering {
    Empty,
    Json(JsonValue),
    Table { body: Body, addendum: Option<String> },
}

/// The model of a rendering.
pub enum RenderingM {
    Empty,
    Json(Json),
    Table { body: BodyM, addendum: Option<Seq<char>> },
}

impl Rendering {
    pub open spec fn view_rendering(&self) -> RenderingM {
        match self {
            Rendering::Empty => RenderingM::Empty,
            Rendering::Json(v) => RenderingM::Json(v.deep()),
            Rendering::Table { body, addendum } => RenderingM::Table {
                body: body.view_body(),
                addendum: opt_str(*addendum),
            },
        }
    }
}

/// The JSON envelope of successful output: `success`, `data`, then the
/// addendum when there is one.
pub open spec fn success_envelope(data: Json, addendum: Option<Seq<char>>) -> Json {
    let base = seq![("success"@, Json::Bool(true)), ("data"@, data)];
    match addendum {
        Some(a) => Json::Obj(base.push(("addendum"@, Json::Str(a)))),
        None => Json::Obj(base),
    }
}

impl CommandOutput {
    /// Output with nothing to show: no label, no data and no addendum.
    pub open spec fn is_blank(&self) -> bool {
        self.label@.len() == 0 && self.data.deep().is_null() && self.addendum is None
    }

    /// The table shown for the output.
    pub open spec fn table_body(&self) -> BodyM {
        if self.headers@.len() > 0 && self.rows@.len() > 0 {
            BodyM::Grid {
                title: title_of(self.label@),
                headers: strs(self.headers@),
                rows: self.rows@.map_values(|r: Vec<String>| strs(r@)),
            }
        } else {
            auto_body(self.label@, self.data.deep())
        }
    }

    /// How the output is shown in its format.
    pub open spec fn rendering(&self) -> RenderingM {
        if self.is_blank() {
            RenderingM::Empty
        } else {
            match self.format {
                OutputFormat::Json => RenderingM::Json(
                    success_envelope(self.data.deep(), opt_str(self.addendum)),
                ),
                OutputFormat::Table => RenderingM::Table {
                    body: self.table_body(),
                    addendum: opt_str(self.addendum),
                },
            }
        }
    }

    /// Create a new output with raw JSON data and a label for tables.
    pub fn new(data: JsonValue, label: &str) -> (res: Self)
        ensures
            res.data == data,
            res.label@ == label@,
            res.headers@.len() == 0,
            res.rows@.len() == 0,
            res.format == OutputFormat::Table,
            res.addendum is None,
    {
        CommandOutput {
            data,
            label: label.to_owned(),
            headers: Vec::new(),
            rows: Vec::new(),
            format: OutputFormat::Table,
            addendum: None,
        }
    }

    /// Add explicit table data for better table rendering.
    pub fn with_table(self, headers: Vec<String>, rows: Vec<Vec<String>>) -> (res: Self)
        ensures
            res == (CommandOutput { headers, rows, ..self }),
    {
        CommandOutput { headers, rows, ..self }
    }

    /// Set the output format.
    pub fn with_format(self, format: OutputFormat) -> (res: Self)
        ensures
            res == (CommandOutput { format, ..self }),
    {
        CommandOutput { format, ..self }
    }

    /// Add an extra message to be shown after the main data.
    pub fn with_addendum(self, addendum: &str) -> (res: Self)
        ensures
            res.data == self.data,
            res.label == self.label,
            res.headers == self.headers,
            res.rows == self.rows,
            res.format == self.format,
            opt_str(res.addendum) == Some(addendum@),
    {
        CommandOutput { addendum: Some(addendum.to_owned()), ..self }
    }

    /// The JSON envelope of the output; none where there is nothing to show.
    pub fn json_envelope(&self) -> (res: Option<JsonValue>)
        ensures
            match res {
                Some(v) => !self.is_blank() && v.deep() == success_envelope(
                    self.data.deep(),
                    opt_str(self.addendum),
                ),
                None => self.is_blank(),
            },
    {
        if self.label.as_str().is_empty() && self.data.is_null() && self.addendum.is_none() {
            return None;
        }
        let flag = JsonValue::Bool(true);
        assert(flag.deep() == Json::Bool(true));
        let mut entries: Vec<(String, JsonValue)> = Vec::new();
        entries.push((String::from_str("success"), flag));
        entries.push((String::from_str("data"), self.data.deep_clone()));
        match &self.addendum {
            Some(a) => {
                let note = JsonValue::Str(a.clone());
                assert(note.deep() == Json::Str(a@));
                entries.push((String::from_str("addendum"), note));
            },
            None => {},
        }
        let res = JsonValue::object(entries);
        assert(res.deep()->Obj_0 =~= success_envelope(self.data.deep(), opt_str(self.addendum))->Obj_0);
        Some(res)
    }

    /// The table shown for the output: the explicit one if both headers and
    /// rows are given, else the one detected from the data.
    pub fn table(&self) -> (res: Body)
        ensures
            res.view_body() == self.table_body(),
    {
        if self.headers.len() > 0 && self.rows.len() > 0 {
            let title = if self.label.as_str().is_empty() {
                None
            } else {
                Some(self.label.clone())
            };
            let mut headers: Vec<String> = Vec::new();
            for i in 0..self.headers.len()
                invariant
                    headers@.len() == i,
                    forall|j: int| 0 <= j < i ==> #[trigger] headers@[j]@ == self.headers@[j]@,
            {
                headers.push(self.headers[i].clone());
            }
            let mut rows: Vec<Vec<String>> = Vec::new();
            for i in 0..self.rows.len()
                invariant
                    rows@.len() == i,
                    forall|j: int| 0 <= j < i ==> strs((#[trigger] rows@[j])@) == strs(self.rows@[j]@),
            {
                let src = &self.rows[i];
                let mut row: Vec<String> = Vec::new();
                for k in 0..src.len()
                    invariant
                        row@.len() == k,
                        forall|m: int| 0 <= m < k ==> #[trigger] row@[m]@ == src@[m]@,
                {
                    row.push(src[k].clone());
                }
                assert(strs(row@) =~= strs(src@));
                rows.push(row);
            }
            assert(strs(headers@) =~= strs(self.headers@));
            assert(rows@.map_values(|r: Vec<String>| strs(r@)) =~= self.rows@.map_values(
                |r: Vec<String>| strs(r@),
            ));
            Body::Grid { title, headers, rows }
        } else {
            auto_table(self.label.as_str(), &self.data)
        }
    }

    /// Render the output according to its format.
    pub fn render(&self) -> (res: Rendering)
        ensures
            res.view_rendering() == self.rendering(),
    {
        match self.json_envelope() {
            None => Rendering::Empty,
            Some(env) => match self.format {
                OutputFormat::Json => Rendering::Json(env),
                OutputFormat::Table => Rendering::Table {
                    body: self.table(),
                    addendum: match &self.addendum {
                        Some(a) => Some(a.clone()),
                        None => None,
                    },
                },
            },
        }
    }
}

/// The data of a success message.
pub open spec fn success_data(message: Seq<char>) -> Json {
    Json::Obj(seq![("success"@, Json::Bool(true)), ("message"@, Json::Str(message))])
}

/// Helper for success messages: the message as data, labelled `Success`,
/// and repeated as the addendum.
pub fn success(message: &str) -> (res: CommandOutput)
    ensures
        res.data.deep() == success_data(message@),
        res.label@ == "Success"@,
        res.headers@.len() == 0,
        res.rows@.len() == 0,
        res.format == OutputFormat::Table,
        opt_str(res.addendum) == Some(message@),
{
    let flag = JsonValue::Bool(true);
    let msg = JsonValue::string(message);
    assert(flag.deep() == Json::Bool(true));
    let mut entries: Vec<(String, JsonValue)> = Vec::new();
    entries.push((String::from_str("success"), flag));
    entries.push((String::from_str("message"), msg));
    let data = JsonValue::object(entries);
    assert(data.deep()->Obj_0 =~= success_data(message@)->Obj_0);
    CommandOutput::new(data, "Success").with_addendum(message)
}

} // verus!
