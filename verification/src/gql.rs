//! The GraphQL endpoint: which requests it takes, and how errors are
//! labelled for metrics.
use vstd::prelude::*;
use crate::error::{api_error, ApiError, ApiErrorCode, StatusCode};
use crate::text::{chars_of, decimal, push_decimal, push_str, same_text, string_of};

verus! {

/// One step of the path to a GraphQL field.
#[derive(Clone, Debug)]
pub enum PathSegment {
    Field(String),
    Index(usize),
}

/// A path as metrics label it: fields joined by dots, list positions in
/// square brackets.
pub open spec fn render_path(segs: Seq<PathSegment>) -> Seq<char>
    decreases segs.len(),
{
    if segs.len() == 0 {
        Seq::empty()
    } else {
        let p = render_path(segs.drop_last());
        match segs.last() {
            PathSegment::Field(f) => (if p.len() > 0 { p.push('.') } else { p }) + f@,
            PathSegment::Index(i) => p.push('[') + decimal(i as nat) + seq![']'],
        }
    }
}

/// The label of a path.
pub fn path_segment_display(segments: &Vec<PathSegment>) -> (r: String)
    ensures
        r@ == render_path(segments@),
{
    let mut path: Vec<char> = Vec::new();
    let mut i: usize = 0;
    while i < segments.len()
        invariant
            i <= segments@.len(),
            path@ == render_path(segments@.subrange(0, i as int)),
        decreases segments@.len() - i,
    {
        assert(segments@.subrange(0, i + 1).drop_last() =~= segments@.subrange(0, i as int));
        match &segments[i] {
            PathSegment::Field(f) => {
                if path.len() > 0 {
                    path.push('.');
                }
                push_str(&mut path, f.as_str());
            },
            PathSegment::Index(n) => {
                path.push('[');
                push_decimal(&mut path, *n as u64);
                path.push(']');
            },
        }
        i = i + 1;
    }
    assert(segments@.subrange(0, segments@.len() as int) =~= segments@);
    string_of(&path)
}

/// A GraphQL value, as far as error labels read it; a number comes with its
/// decimal text.
#[derive(Clone, Debug)]
pub enum GqlValue {
    Null,
    Number(String),
    String(String),
    Boolean(bool),
    Other,
}

/// The label text of a value: strings as they are, booleans and numbers as
/// written, `null`, and `unknown` for lists and objects.
pub open spec fn value_text(v: GqlValue) -> Seq<char> {
    match v {
        GqlValue::String(s) => s@,
        GqlValue::Boolean(b) => if b { "true"@ } else { "false"@ },
        GqlValue::Number(n) => n@,
        GqlValue::Null => "null"@,
        GqlValue::Other => "unknown"@,
    }
}

/// The label text of a value.
pub fn val_to_string(val: &GqlValue) -> (r: String)
    ensures
        r@ == value_text(*val),
{
    match val {
        GqlValue::String(s) => s.clone(),
        GqlValue::Boolean(b) => if *b { "true".to_string() } else { "false".to_string() },
        GqlValue::Number(n) => n.clone(),
        GqlValue::Null => "null".to_string(),
        GqlValue::Other => "unknown".to_string(),
    }
}

/// The labels of an error for metrics: its path, and the text of its `code`
/// and `status` extensions (empty when missing).
pub fn error_labels(path: &Vec<PathSegment>, code: &Option<GqlValue>, status: &Option<GqlValue>) -> (r: (String, String, String))
    ensures
        r.0@ == render_path(path@),
        r.1@ == (match code {
            Some(v) => value_text(*v),
            None => Seq::<char>::empty(),
        }),
        r.2@ == (match status {
            Some(v) => value_text(*v),
            None => Seq::<char>::empty(),
        }),
{
    let code = match code {
        Some(v) => val_to_string(v),
        None => String::new(),
    };
    let status = match status {
        Some(v) => val_to_string(v),
        None => String::new(),
    };
    (path_segment_display(path), code, status)
}

pub open spec fn get_in_browser() -> ApiError {
    api_error(StatusCode::BadRequest, ApiErrorCode::BadRequest, "You cannot use GET requests in a web-browser, use POST instead.")
}

/// Refuses a GET request that carries a cookie, origin or referrer header:
/// such a request most likely comes from a browser tricked into sending it.
pub fn check_get_request(is_get: bool, has_cookie: bool, has_origin: bool, has_referer: bool) -> (r: Result<(), ApiError>)
    ensures
        r == (if is_get && (has_cookie || has_origin || has_referer) {
            Err(get_in_browser())
        } else {
            Ok(())
        }),
{
    if is_get && (has_cookie || has_origin || has_referer) {
        Err(ApiError::bad_request(ApiErrorCode::BadRequest, "You cannot use GET requests in a web-browser, use POST instead."))
    } else {
        Ok(())
    }
}

/// What the endpoint does with a parsed batch.
#[derive(Clone, Copy, Debug, PartialEq, Eq, Structural)]
pub enum BatchDecision {
    /// Answer the single query `forsen` with the string `forsen1`.
    Forsen,
    /// Run the batch.
    Execute,
}

/// The largest batch the endpoint runs.
pub const MAX_BATCH_SIZE: usize = 30;

/// What the endpoint does with a parsed batch: a single query `forsen` gets
/// its fixed answer; batches of more than thirty requests are refused;
/// others run.
pub fn batch_decision(single_query: Option<&str>, batch_size: usize) -> (r: Result<BatchDecision, ApiError>)
    ensures
        r == (if single_query matches Some(q) && q@ == "forsen"@ {
            Ok::<BatchDecision, ApiError>(BatchDecision::Forsen)
        } else if batch_size > 30 {
            Err(api_error(StatusCode::BadRequest, ApiErrorCode::BadRequest, "batch size too large"))
        } else {
            Ok(BatchDecision::Execute)
        }),
{
    if let Some(q) = single_query {
        if same_text(&chars_of(q), &chars_of("forsen")) {
            return Ok(BatchDecision::Forsen);
        }
    }
    if batch_size > MAX_BATCH_SIZE {
        Err(ApiError::bad_request(ApiErrorCode::BadRequest, "batch size too large"))
    } else {
        Ok(BatchDecision::Execute)
    }
}

} // verus!
