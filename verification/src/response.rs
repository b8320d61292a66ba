//! The response envelope the API wraps every answer in, and the errors a
//! call ends in.
use vstd::prelude::*;
use vstd::string::*;

use crate::form::{i64_text, signed_decimal};

verus! {

/// The envelope of every response: a business code, its message, the id
/// of the request, and the data of the call.
#[derive(Debug)]
pub struct ApiResponse<T> {
    /// Business status code; `0` means success.
    pub code: i64,
    /// Description of the status code.
    pub message: String,
    /// Unique id of the request, to find it in the server's logs.
    pub request_id: String,
    /// The data the call returned.
    pub data: Option<T>,
}

/// Why a call did not yield its data.
#[derive(Debug)]
pub enum ApiError {
    /// The base URL, the path or the query did not make a URL; holds the
    /// URL parser's message.
    InvalidUrl(String),
    /// The server answered with a business code other than `0`.
    Business { path: String, code: i64, message: String, request_id: String },
    /// The server answered with code `0` but without data.
    MissingData { path: String },
}

/// An [`ApiError`] with its texts as character sequences.
pub enum ApiErrorView {
    InvalidUrl(Seq<char>),
    Business { path: Seq<char>, code: i64, message: Seq<char>, request_id: Seq<char> },
    MissingData { path: Seq<char> },
}

impl View for ApiError {
    type V = ApiErrorView;

    open spec fn view(&self) -> ApiErrorView {
        match self {
            ApiError::InvalidUrl(m) => ApiErrorView::InvalidUrl(m@),
            ApiError::Business { path, code, message, request_id } => ApiErrorView::Business {
                path: path@,
                code: *code,
                message: message@,
                request_id: request_id@,
            },
            ApiError::MissingData { path } => ApiErrorView::MissingData { path: path@ },
        }
    }
}

/// The message an error is reported with.
pub open spec fn error_message(e: ApiErrorView) -> Seq<char> {
    match e {
        ApiErrorView::InvalidUrl(m) => m,
        ApiErrorView::Business { path, code, message, request_id } => "API request failed: path="@
            + path + ", code="@ + signed_decimal(code as int) + ", message="@ + message
            + ", request_id="@ + request_id,
        ApiErrorView::MissingData { path } => "API response missing data: path="@ + path,
    }
}

/// What an envelope yields for the call at `path`: its data when the code
/// is `0` and data is present, else the error it is reported as.
pub open spec fn envelope_outcome<T>(response: ApiResponse<T>, path: Seq<char>) -> Result<
    T,
    ApiErrorView,
> {
    if response.code != 0 {
        Err(
            ApiErrorView::Business {
                path,
                code: response.code,
                message: response.message@,
                request_id: response.request_id@,
            },
        )
    } else {
        match response.data {
            Some(data) => Ok(data),
            None => Err(ApiErrorView::MissingData { path }),
        }
    }
}

/// A result whose error is taken by its view.
pub open spec fn result_view<T>(r: Result<T, ApiError>) -> Result<T, ApiErrorView> {
    match r {
        Ok(v) => Ok(v),
        Err(e) => Err(e@),
    }
}

impl ApiError {
    /// The message the error is reported with.
    pub fn message(&self) -> (r: String)
        ensures
            r@ == error_message(self@),
    {
        match self {
            ApiError::InvalidUrl(m) => m.clone(),
            ApiError::Business { path, code, message, request_id } => {
                let code_text = i64_text(*code);
                let mut s = "API request failed: path=".to_owned();
                s.append(path.as_str());
                s.append(", code=");
                s.append(code_text.as_str());
                s.append(", message=");
                s.append(message.as_str());
                s.append(", request_id=");
                s.append(request_id.as_str());
                s
            },
            ApiError::MissingData { path } => {
                let mut s = "API response missing data: path=".to_owned();
                s.append(path.as_str());
                s
            },
        }
    }
}

impl<T> ApiResponse<T> {
    /// The data of the call at `path`, or the error the envelope stands for:
    /// a business error, with the path, code, message and request id, when
    /// the code is not `0`; a missing-data error when it is `0` and there is
    /// no data.
    pub fn into_data(self, path: &str) -> (r: Result<T, ApiError>)
        ensures
            result_view(r) == envelope_outcome(self, path@),
    {
        if self.code != 0 {
            Err(
                ApiError::Business {
                    path: path.to_owned(),
                    code: self.code,
                    message: self.message,
                    request_id: self.request_id,
                },
            )
        } else {
            match self.data {
                Some(data) => Ok(data),
                None => Err(ApiError::MissingData { path: path.to_owned() }),
            }
        }
    }
}

/// A response yields its data exactly when its code is `0` and it carries
/// data; a refused call is reported with the path it was made to.
pub proof fn law_envelope_yields_data_iff_success<T>(response: ApiResponse<T>, path: Seq<char>)
    ensures
        envelope_outcome(response, path) is Ok <==> (response.code == 0 && response.data is Some),
        envelope_outcome(response, path) matches Ok(d) ==> response.data == Some(d),
        envelope_outcome(response, path) matches Err(e) ==> match e {
            ApiErrorView::Business { path: p, code, .. } => p == path && code == response.code
                && code != 0,
            ApiErrorView::MissingData { path: p } => p == path && response.code == 0,
            ApiErrorView::InvalidUrl(_) => false,
        },
{
}

} // verus!
