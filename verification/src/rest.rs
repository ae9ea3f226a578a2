use vstd::prelude::*;
use crate::category::Category;
use crate::error::{spec_http_status, spec_message, Error, ErrorV};
use crate::id::Id;
use crate::json::{
    categories_json, category_json, decimal_string, spec_categories_json, spec_category_json,
    spec_decimal,
};

verus! {

// The decision half of the request handlers. The HTTP layer parses the
// request, runs the client operation, and hands its outcome to the
// functions here, which decide the whole response; the handlers are
// verified for every possible outcome.

/// One finished HTTP response: the status code and the body text. Success
/// bodies are JSON; failure bodies are the failure's display text.
#[derive(Debug)]
pub struct Response {
    pub status: u16,
    pub body: String,
}

/// Mathematical model of a `Response`.
#[verifier::ext_equal]
pub struct ResponseV {
    pub status: u16,
    pub body: Seq<char>,
}

impl View for Response {
    type V = ResponseV;

    open spec fn view(&self) -> ResponseV {
        ResponseV { status: self.status, body: self.body@ }
    }
}

/// The response of a failure: its mapped HTTP status, its display text as
/// the body.
pub open spec fn spec_error_response(e: ErrorV) -> ResponseV {
    ResponseV { status: spec_http_status(e), body: spec_message(e) }
}

/// Renders a failure into its response.
pub fn error_response(e: &Error) -> (r: Response)
    ensures
        r@ == spec_error_response(e@),
{
    Response { status: e.http_status(), body: e.message() }
}

/// What a fetch-one handler answers: 200 with the category as JSON; 404
/// when the lookup matched no row — only here, never in the client
/// operations, does an empty lookup become `NotFound`; and the failure's
/// mapped response otherwise.
pub open spec fn spec_category_response(outcome: Result<Option<Category>, Error>) -> ResponseV {
    match outcome {
        Ok(Some(c)) => ResponseV { status: 200, body: spec_category_json(c.deep_view()) },
        Ok(None) => spec_error_response(ErrorV::NotFound { context: "Category does not exist"@ }),
        Err(e) => spec_error_response(e@),
    }
}

fn category_response(outcome: Result<Option<Category>, Error>) -> (r: Response)
    ensures
        r@ == spec_category_response(outcome),
{
    match outcome {
        Ok(Some(c)) => Response { status: 200, body: category_json(&c) },
        Ok(None) => {
            let e = Error::not_found("Category does not exist");
            error_response(&e)
        },
        Err(e) => error_response(&e),
    }
}

/// Answers a category-by-identifier request, from the outcome of the
/// fetch-one-optional operation over the statement selecting by `id`.
pub fn category_by_id(outcome: Result<Option<Category>, Error>) -> (r: Response)
    ensures
        r@ == spec_category_response(outcome),
{
    category_response(outcome)
}

/// Answers a category-by-name request, from the outcome of the
/// fetch-one-optional operation over the statement selecting by `name`.
pub fn category_by_name(outcome: Result<Option<Category>, Error>) -> (r: Response)
    ensures
        r@ == spec_category_response(outcome),
{
    category_response(outcome)
}

/// What the list-all handler answers: 200 with every category as a JSON
/// array — an empty table answers `[]` — or the failure's mapped response.
pub open spec fn spec_all_categories_response(outcome: Result<Vec<Category>, Error>) -> ResponseV {
    match outcome {
        Ok(cats) => ResponseV { status: 200, body: spec_categories_json(cats.deep_view()) },
        Err(e) => spec_error_response(e@),
    }
}

/// Answers a list-all-categories request, from the outcome of the
/// fetch-all-of-table operation.
pub fn all_categories(outcome: Result<Vec<Category>, Error>) -> (r: Response)
    ensures
        r@ == spec_all_categories_response(outcome),
{
    match outcome {
        Ok(cats) => Response { status: 200, body: categories_json(&cats) },
        Err(e) => error_response(&e),
    }
}

/// What the create handler answers: 200 with the storage-generated
/// identifier as a JSON number, or the failure's mapped response — for a
/// duplicate name, 400.
pub open spec fn spec_new_category_response(outcome: Result<Id, Error>) -> ResponseV {
    match outcome {
        Ok(id) => ResponseV { status: 200, body: spec_decimal(id.0 as int) },
        Err(e) => spec_error_response(e@),
    }
}

/// Answers a create-category request, from the outcome of the insert
/// operation.
pub fn new_category(outcome: Result<Id, Error>) -> (r: Response)
    ensures
        r@ == spec_new_category_response(outcome),
{
    match outcome {
        Ok(id) => Response { status: 200, body: decimal_string(id.value()) },
        Err(e) => error_response(&e),
    }
}

} // verus!
