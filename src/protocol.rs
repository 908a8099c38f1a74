use vstd::prelude::*;

use crate::text::{push_text, text_pushed};

verus! {

/// A request from the host to an extension process.
#[derive(Debug, Clone, PartialEq, Eq)]
pub struct ExtensionRequest {
    pub extension_id: String,
    pub request_type: ExtensionRequestType,
    /// Present in a `GetResults` request.
    pub search_text: Option<String>,
    /// Present in a `RunCommand` request.
    pub command: Option<String>,
    /// Carried unchanged from the action or field that caused the request.
    pub args: Vec<String>,
}

#[derive(Debug, Clone, Copy, PartialEq, Eq)]
pub enum ExtensionRequestType {
    GetResults,
    RunCommand,
}

/// The values submitted in a form, returned to the extension.
#[derive(Debug, Clone, PartialEq, Eq)]
pub struct FormResponse {
    pub results: Vec<FormResult>,
    pub args: Vec<String>,
}

/// The submitted value of one form field, as text.
#[derive(Debug, PartialEq, Eq)]
pub struct FormResult {
    pub field_id: String,
    pub field_value: String,
    pub args: Vec<String>,
}

impl Clone for FormResult {
    fn clone(&self) -> (r: Self)
        ensures
            r.same_as(*self),
    {
        let args = self.args.clone();
        assert(args@ =~= self.args@);
        FormResult {
            field_id: self.field_id.clone(),
            field_value: self.field_value.clone(),
            args,
        }
    }
}

impl ExtensionRequest {
    /// Exactly the payload that `request_type` calls for is present.
    pub open spec fn wf(&self) -> bool {
        &&& (self.search_text is Some <==> self.request_type == ExtensionRequestType::GetResults)
        &&& (self.command is Some <==> self.request_type == ExtensionRequestType::RunCommand)
    }

    /// A request for the results of a search text.
    pub fn new_get_results_request(extension_id: &str, search_text: &str) -> (r: Self)
        ensures
            r.wf(),
            r.extension_id@ == extension_id@,
            r.request_type == ExtensionRequestType::GetResults,
            r.search_text is Some && r.search_text->0@ == search_text@,
            r.command is None,
            r.args@.len() == 0,
    {
        ExtensionRequest {
            extension_id: String::from_str(extension_id),
            request_type: ExtensionRequestType::GetResults,
            search_text: Some(String::from_str(search_text)),
            command: None,
            args: Vec::new(),
        }
    }

    /// A request to run a command of the extension.
    pub fn new_run_command_request(extension_id: &str, command: &str) -> (r: Self)
        ensures
            r.wf(),
            r.extension_id@ == extension_id@,
            r.request_type == ExtensionRequestType::RunCommand,
            r.search_text is None,
            r.command is Some && r.command->0@ == command@,
            r.args@.len() == 0,
    {
        ExtensionRequest {
            extension_id: String::from_str(extension_id),
            request_type: ExtensionRequestType::RunCommand,
            search_text: None,
            command: Some(String::from_str(command)),
            args: Vec::new(),
        }
    }

    pub fn add_arg(self, arg: &str) -> (r: Self)
        ensures
            r == (ExtensionRequest { args: r.args, ..self }),
            text_pushed(self.args@, r.args@, arg@),
            self.wf() ==> r.wf(),
    {
        let mut r = self;
        push_text(&mut r.args, arg);
        r
    }

    pub fn set_args(self, args: Vec<String>) -> (r: Self)
        ensures
            r == (ExtensionRequest { args, ..self }),
            self.wf() ==> r.wf(),
    {
        ExtensionRequest { args, ..self }
    }
}

/// The index of the first result for `id`, or the number of results when none is.
pub open spec fn result_index(rs: Seq<FormResult>, id: Seq<char>) -> int
    decreases rs.len(),
{
    if rs.len() == 0 {
        0
    } else if rs[0].field_id@ == id {
        0
    } else {
        1 + result_index(rs.drop_first(), id)
    }
}

proof fn lemma_result_index(rs: Seq<FormResult>, id: Seq<char>, i: int)
    requires
        0 <= i <= rs.len(),
        forall|j: int| 0 <= j < i ==> (#[trigger] rs[j]).field_id@ != id,
        i == rs.len() || rs[i].field_id@ == id,
    ensures
        result_index(rs, id) == i,
    decreases i,
{
    if i > 0 {
        let d = rs.drop_first();
        assert forall|j: int| 0 <= j < i - 1 implies (#[trigger] d[j]).field_id@ != id by {
            assert(d[j] == rs[j + 1]);
        }
        if i < rs.len() {
            assert(d[i - 1] == rs[i]);
        }
        assert(rs[0].field_id@ != id);
        lemma_result_index(d, id, i - 1);
    }
}

/// No two results are for the same field.
pub open spec fn unique_field_ids(rs: Seq<FormResult>) -> bool {
    forall|i: int, j: int|
        0 <= i < rs.len() && 0 <= j < rs.len() && i != j ==> (#[trigger] rs[i]).field_id@ != (
        #[trigger] rs[j]).field_id@
}

impl FormResponse {
    /// A response holding the given results and no arguments.
    pub fn new(results: Vec<FormResult>) -> (r: Self)
        ensures
            r.results == results,
            r.args@.len() == 0,
    {
        FormResponse { results, args: Vec::new() }
    }

    pub fn add_arg(self, arg: &str) -> (r: Self)
        ensures
            r == (FormResponse { args: r.args, ..self }),
            text_pushed(self.args@, r.args@, arg@),
    {
        let mut r = self;
        push_text(&mut r.args, arg);
        r
    }

    pub fn set_args(self, args: Vec<String>) -> (r: Self)
        ensures
            r == (FormResponse { args, ..self }),
    {
        FormResponse { args, ..self }
    }

    /// The first result submitted for the field `field_id`, if any.
    pub fn get_result(&self, field_id: &str) -> (r: Option<FormResult>)
        ensures
            result_index(self.results@, field_id@) < self.results@.len() ==> r is Some
                && r->0.same_as(self.results@[result_index(self.results@, field_id@)]),
            result_index(self.results@, field_id@) == self.results@.len() ==> r is None,
    {
        let id = String::from_str(field_id);
        let mut i: usize = 0;
        while i < self.results.len()
            invariant
                i <= self.results.len(),
                id@ == field_id@,
                forall|j: int| 0 <= j < i ==> (#[trigger] self.results@[j]).field_id@ != id@,
            decreases self.results.len() - i,
        {
            if self.results[i].field_id == id {
                proof {
                    lemma_result_index(self.results@, id@, i as int);
                }
                return Some(self.results[i].clone());
            }
            i += 1;
        }
        proof {
            lemma_result_index(self.results@, id@, i as int);
        }
        None
    }
}

/// Where the results name each field once, a lookup by id finds the result of
/// that field wherever it stands among them.
pub proof fn lemma_get_result_by_id(response: FormResponse, i: int)
    requires
        unique_field_ids(response.results@),
        0 <= i < response.results@.len(),
    ensures
        result_index(response.results@, response.results@[i].field_id@) == i,
{
    let rs = response.results@;
    assert forall|j: int| 0 <= j < i implies (#[trigger] rs[j]).field_id@ != rs[i].field_id@ by {}
    lemma_result_index(rs, rs[i].field_id@, i);
}

impl FormResult {
    /// The two results hold the same field id, value and arguments.
    pub open spec fn same_as(&self, other: FormResult) -> bool {
        self.field_id@ == other.field_id@ && self.field_value@ == other.field_value@
            && self.args@ == other.args@
    }

    /// The submitted value of a field, with no arguments.
    pub fn new(field_id: &str, field_value: &str) -> (r: Self)
        ensures
            r.field_id@ == field_id@,
            r.field_value@ == field_value@,
            r.args@.len() == 0,
    {
        FormResult {
            field_id: String::from_str(field_id),
            field_value: String::from_str(field_value),
            args: Vec::new(),
        }
    }

    pub fn add_arg(self, arg: &str) -> (r: Self)
        ensures
            r == (FormResult { args: r.args, ..self }),
            text_pushed(self.args@, r.args@, arg@),
    {
        let mut r = self;
        push_text(&mut r.args, arg);
        r
    }

    pub fn set_args(self, args: Vec<String>) -> (r: Self)
        ensures
            r == (FormResult { args, ..self }),
    {
        FormResult { args, ..self }
    }

    /// Reads the value as a boolean: only the text `true` is true.
    pub fn as_bool(&self) -> (r: bool)
        ensures
            r == (self.field_value@ == "true"@),
    {
        let t = String::from_str("true");
        self.field_value == t
    }
}

} // verus!
