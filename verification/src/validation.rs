use vstd::prelude::*;

use crate::errors::{copy_detail, detail_view, names_distinct, DetailView, Error, ErrorDetail, FieldError, ValidationErrors};

verus! {

/// What a microservice said when it refused a call: the HTTP status, its
/// description, and the JSON text of the payload that came with it.
#[derive(Clone, Debug)]
pub struct CommonErrorMessage {
    pub code: u16,
    pub description: String,
    pub payload: Option<String>,
}

/// The entries of a JSON object that maps field names to lists of
/// validation errors, as `serde_json` reads it into
/// `validator::ValidationError`s (sorted by field name), each error by its
/// code, message and parameters; `None` where the text is no such object.
pub uninterp spec fn field_errors_of_json(text: Seq<char>) -> Option<Seq<(Seq<char>, Seq<DetailView>)>>;

pub open spec fn pairs_view(v: Seq<(String, Vec<ErrorDetail>)>) -> Seq<(Seq<char>, Seq<DetailView>)> {
    v.map_values(|p: (String, Vec<ErrorDetail>)| (p.0@, p.1@.map_values(|d: ErrorDetail| detail_view(d))))
}

/// Reads a JSON object of field names and validation-error lists with
/// `serde_json::from_str` into `validator::ValidationError`s, and hands each
/// error on as its code, its message, and its parameters (each name with
/// the JSON text of its value, in the order the parameter map is walked).
/// The entries are given the name `field_errors_of_json`; no error has a
/// parameter name twice, since they come from a map.
#[verifier::external_body]
fn parse_field_errors(payload: &str) -> (r: Option<Vec<(String, Vec<ErrorDetail>)>>)
    ensures
        match r {
            Some(v) => field_errors_of_json(payload@) == Some(pairs_view(v@))
                && forall|i: int, k: int| 0 <= i < v@.len() && 0 <= k < v@[i].1@.len()
                    ==> names_distinct(#[trigger] v@[i].1@[k].params@),
            None => field_errors_of_json(payload@) is None,
        },
{
    let m = serde_json::from_str::<std::collections::BTreeMap<String, Vec<validator::ValidationError>>>(payload).ok()?;
    Some(m.into_iter().map(|(f, es)| (f, es.into_iter().map(|e| ErrorDetail {
        code: e.code.to_string(),
        message: e.message.map(|t| t.to_string()),
        params: e.params.into_iter().map(|(k, v)| (k.to_string(), v.to_string())).collect(),
    }).collect())).collect())
}

/// The errors listed for field `f`: those of its first entry.
pub open spec fn lookup_field(pairs: Seq<(Seq<char>, Seq<DetailView>)>, f: Seq<char>) -> Option<Seq<DetailView>>
    decreases pairs.len(),
{
    if pairs.len() == 0 {
        None
    } else if pairs[0].0 == f {
        Some(pairs[0].1)
    } else {
        lookup_field(pairs.drop_first(), f)
    }
}

/// For each of `fields` in turn that has a non-empty list of errors, the
/// field and the first of its errors.
pub open spec fn picked_errors(
    pairs: Seq<(Seq<char>, Seq<DetailView>)>,
    fields: Seq<Seq<char>>,
) -> Seq<(Seq<char>, DetailView)>
    decreases fields.len(),
{
    if fields.len() == 0 {
        seq![]
    } else {
        let rest = picked_errors(pairs, fields.drop_last());
        match lookup_field(pairs, fields.last()) {
            Some(v) => if v.len() > 0 { rest.push((fields.last(), v[0])) } else { rest },
            None => rest,
        }
    }
}

pub open spec fn texts_of(errors: Seq<&'static str>) -> Seq<Seq<char>> {
    errors.map_values(|s: &'static str| s@)
}

/// What a refusal turns into, given the fields that the caller knows of:
/// 403 is `Forbidden`, 404 is `NotFound`, 400 with a payload that reads as
/// field errors is `Validate` with the first error of each known field, and
/// everything else is `Unknown`.
pub open spec fn refusal_error_ok(r: Error, m: CommonErrorMessage, fields: Seq<Seq<char>>) -> bool {
    if m.code == 403 {
        r is Forbidden
    } else if m.code == 404 {
        r is NotFound
    } else if m.code == 400 {
        match m.payload {
            Some(p) => match field_errors_of_json(p@) {
                Some(pairs) => r matches Error::Validate(v) && v@ == picked_errors(pairs, fields),
                None => r is Unknown,
            },
            None => r is Unknown,
        }
    } else {
        r is Unknown
    }
}

fn find_field(pairs: &Vec<(String, Vec<ErrorDetail>)>, f: &String) -> (r: Option<usize>)
    ensures
        match r {
            Some(j) => j < pairs.len() && lookup_field(pairs_view(pairs@), f@) == Some(pairs_view(pairs@)[j as int].1),
            None => lookup_field(pairs_view(pairs@), f@) is None,
        },
{
    let mut j: usize = 0;
    assert(pairs_view(pairs@).skip(0) =~= pairs_view(pairs@));
    while j < pairs.len()
        invariant
            j <= pairs.len(),
            lookup_field(pairs_view(pairs@), f@) == lookup_field(pairs_view(pairs@).skip(j as int), f@),
        decreases pairs.len() - j,
    {
        let ghost s = pairs_view(pairs@).skip(j as int);
        assert(s[0] == pairs_view(pairs@)[j as int]);
        if pairs[j].0 == *f {
            return Some(j);
        }
        assert(s.drop_first() =~= pairs_view(pairs@).skip(j as int + 1));
        j = j + 1;
    }
    None
}

/// The failure that a microservice's refusal becomes, where the refusal came
/// with a message; `None` where it came without one, and the failure then
/// stays what it was. Only the fields named in `errors` are kept from a
/// validation payload.
pub fn parse_validation_errors(message: Option<CommonErrorMessage>, errors: &[&'static str]) -> (r: Option<Error>)
    ensures
        match message {
            None => r is None,
            Some(m) => match r {
                Some(e) => refusal_error_ok(e, m, texts_of(errors@)),
                None => false,
            },
        },
{
    let m = match message {
        None => return None,
        Some(m) => m,
    };
    if m.code == 403 {
        return Some(Error::Forbidden);
    }
    if m.code == 404 {
        return Some(Error::NotFound);
    }
    if m.code != 400 {
        return Some(Error::Unknown);
    }
    let payload = match &m.payload {
        None => return Some(Error::Unknown),
        Some(p) => p,
    };
    let pairs = match parse_field_errors(payload.as_str()) {
        None => return Some(Error::Unknown),
        Some(pairs) => pairs,
    };
    let ghost pv = pairs_view(pairs@);
    let ghost fields = texts_of(errors@);
    let mut picked: Vec<FieldError> = Vec::new();
    let mut i: usize = 0;
    while i < errors.len()
        invariant
            i <= errors.len(),
            pv == pairs_view(pairs@),
            fields == texts_of(errors@),
            picked@.map_values(|e: FieldError| crate::errors::field_error_view(e)) == picked_errors(pv, fields.take(i as int)),
        decreases errors.len() - i,
    {
        let f: String = errors[i].to_owned();
        assert(fields.take(i as int + 1).drop_last() =~= fields.take(i as int));
        assert(fields.take(i as int + 1).last() == f@);
        match find_field(&pairs, &f) {
            Some(j) => {
                if pairs[j].1.len() > 0 {
                    let e = copy_detail(&pairs[j].1[0]);
                    picked.push(FieldError { field: f, error: e });
                    assert(picked@.map_values(|e: FieldError| crate::errors::field_error_view(e))
                        =~= picked_errors(pv, fields.take(i as int + 1)));
                } else {
                    assert(picked@.map_values(|e: FieldError| crate::errors::field_error_view(e))
                        =~= picked_errors(pv, fields.take(i as int + 1)));
                }
            },
            None => {
                assert(picked@.map_values(|e: FieldError| crate::errors::field_error_view(e))
                    =~= picked_errors(pv, fields.take(i as int + 1)));
            },
        }
        i = i + 1;
    }
    assert(fields.take(errors.len() as int) =~= fields);
    let v = ValidationErrors { fields: picked };
    Some(Error::Validate(v))
}

}
