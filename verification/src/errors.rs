use vstd::prelude::*;

use crate::http::opt_text;

verus! {

/// What is wrong with one field, as `validator` describes it: a code, a
/// message where there is one, and the parameters, each a name with the
/// JSON text of its value.
#[derive(Debug)]
pub struct ErrorDetail {
    pub code: String,
    pub message: Option<String>,
    pub params: Vec<(String, String)>,
}

/// The plain values of an error detail: its code, its message, and its
/// parameters as a map from name to the JSON text of the value.
pub type DetailView = (Seq<char>, Option<Seq<char>>, Map<Seq<char>, Seq<char>>);

/// The parameters of an error detail as a map; a later name wins.
pub open spec fn params_map(ps: Seq<(String, String)>) -> Map<Seq<char>, Seq<char>>
    decreases ps.len(),
{
    if ps.len() == 0 {
        Map::empty()
    } else {
        params_map(ps.drop_last()).insert(ps.last().0@, ps.last().1@)
    }
}

/// Whether no two parameters share a name.
pub open spec fn names_distinct(ps: Seq<(String, String)>) -> bool {
    forall|a: int, b: int| 0 <= a < b < ps.len() ==> ps[a].0@ != ps[b].0@
}

pub open spec fn detail_view(d: ErrorDetail) -> DetailView {
    (d.code@, opt_text(d.message), params_map(d.params@))
}

/// A copy of an error detail.
pub fn copy_detail(d: &ErrorDetail) -> (r: ErrorDetail)
    ensures
        detail_view(r) == detail_view(*d),
{
    let mut params: Vec<(String, String)> = Vec::new();
    let mut i: usize = 0;
    while i < d.params.len()
        invariant
            i <= d.params.len(),
            params_map(params@) == params_map(d.params@.take(i as int)),
        decreases d.params.len() - i,
    {
        let (name, value) = &d.params[i];
        let pair = (name.clone(), value.clone());
        assert(d.params@.take(i as int + 1).drop_last() =~= d.params@.take(i as int));
        let ghost before = params@;
        params.push(pair);
        assert(params@.drop_last() =~= before);
        i = i + 1;
    }
    assert(d.params@.take(d.params.len() as int) =~= d.params@);
    let message = match &d.message {
        Some(m) => Some(m.clone()),
        None => None,
    };
    ErrorDetail { code: d.code.clone(), message, params }
}

/// One entry of a set of validation errors: a field and what is wrong with it.
#[derive(Debug)]
pub struct FieldError {
    pub field: String,
    pub error: ErrorDetail,
}

/// Validation errors, field by field, in the order in which they were found.
#[derive(Debug)]
pub struct ValidationErrors {
    pub fields: Vec<FieldError>,
}

/// The plain values of one field's entry.
pub open spec fn field_error_view(e: FieldError) -> (Seq<char>, DetailView) {
    (e.field@, detail_view(e.error))
}

impl View for ValidationErrors {
    type V = Seq<(Seq<char>, DetailView)>;

    open spec fn view(&self) -> Seq<(Seq<char>, DetailView)> {
        self.fields@.map_values(|e: FieldError| field_error_view(e))
    }
}

/// The kinds of failure that the coordinator reports.
#[derive(Debug)]
pub enum Error {
    NotFound,
    Parse,
    Validate(ValidationErrors),
    HttpClient,
    RpcClient,
    Forbidden,
    Unknown,
}

/// The HTTP status with which a failure of each kind is answered.
pub open spec fn error_code(e: &Error) -> u16 {
    match e {
        Error::NotFound => 404,
        Error::Validate(_) => 400,
        Error::Parse => 422,
        Error::HttpClient | Error::RpcClient | Error::Unknown => 500,
        Error::Forbidden => 403,
    }
}

/// The words with which a failure of each kind is described.
pub open spec fn error_description(e: &Error) -> Seq<char> {
    match e {
        Error::NotFound => "Not found"@,
        Error::Parse => "Parse error"@,
        Error::Validate(_) => "Validation error"@,
        Error::HttpClient => "Http client error"@,
        Error::RpcClient => "Rpc client error"@,
        Error::Forbidden => "Server is refusing to fullfil the reqeust"@,
        Error::Unknown => "Unknown server error"@,
    }
}

impl Error {
    /// The words with which the failure is described.
    pub fn description(&self) -> (r: &'static str)
        ensures
            r@ == error_description(self),
    {
        match self {
            Error::NotFound => "Not found",
            Error::Parse => "Parse error",
            Error::Validate(_) => "Validation error",
            Error::HttpClient => "Http client error",
            Error::RpcClient => "Rpc client error",
            Error::Forbidden => "Server is refusing to fullfil the reqeust",
            Error::Unknown => "Unknown server error",
        }
    }

    /// The HTTP status of the answer to a request that failed so.
    pub fn code(&self) -> (r: u16)
        ensures
            r == error_code(self),
    {
        match self {
            Error::NotFound => 404,
            Error::Validate(_) => 400,
            Error::Parse => 422,
            Error::HttpClient | Error::RpcClient | Error::Unknown => 500,
            Error::Forbidden => 403,
        }
    }

    /// The body that goes with the answer: the validation errors, for a
    /// validation failure, and nothing otherwise.
    pub fn payload(&self) -> (r: Option<&ValidationErrors>)
        ensures
            match self {
                Error::Validate(v) => r == Some(v),
                _ => r is None,
            },
    {
        match self {
            Error::Validate(v) => Some(v),
            _ => None,
        }
    }

    /// The failure that an error of a remote API call becomes: `Forbidden`
    /// where the API answered with status 403, `RpcClient` otherwise
    /// (`api_status` is the status of the API's answer, if it answered).
    pub fn from_api_error(api_status: Option<u16>) -> (r: Error)
        ensures
            api_status == Some(403u16) ==> r is Forbidden,
            api_status != Some(403u16) ==> r is RpcClient,
    {
        match api_status {
            Some(s) => if s == 403 { Error::Forbidden } else { Error::RpcClient },
            None => Error::RpcClient,
        }
    }
}

}
