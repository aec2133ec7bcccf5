//! The envelope every handler answers with: a payload on success, a message
//! on failure, together with the HTTP status that goes with it.

use vstd::prelude::*;

verus! {

/// Body of an answer: the payload, or the reason there is none.
#[derive(Debug, Clone, PartialEq, Eq)]
pub enum ApiResponse<T> {
    Success(T),
    Error { error: String },
}

/// Mathematical model of an [`ApiResponse`].
pub enum ApiResponseView<V> {
    Success(V),
    Error { error: Seq<char> },
}

impl<T: DeepView> DeepView for ApiResponse<T> {
    type V = ApiResponseView<T::V>;

    open spec fn deep_view(&self) -> ApiResponseView<T::V> {
        match self {
            ApiResponse::Success(data) => ApiResponseView::Success(data.deep_view()),
            ApiResponse::Error { error } => ApiResponseView::Error { error: error@ },
        }
    }
}

impl<T: DeepView> View for ApiResponse<T> {
    type V = ApiResponseView<T::V>;

    open spec fn view(&self) -> ApiResponseView<T::V> {
        self.deep_view()
    }
}

impl<T: DeepView> ApiResponse<T> {
    /// Wraps a payload.
    pub fn success(data: T) -> (out: Self)
        ensures
            out@ == ApiResponseView::Success(data.deep_view()),
    {
        ApiResponse::Success(data)
    }

    /// Wraps a failure message.
    pub fn error(message: String) -> (out: Self)
        ensures
            out@ == (ApiResponseView::<T::V>::Error { error: message@ }),
    {
        ApiResponse::Error { error: message }
    }
}

/// HTTP status of a request that was carried out.
pub const STATUS_OK: u16 = 200;

/// HTTP status of a request that created a resource.
pub const STATUS_CREATED: u16 = 201;

/// HTTP status of a request with missing or invalid input.
pub const STATUS_BAD_REQUEST: u16 = 400;

/// HTTP status of a request that names an entity which does not exist.
pub const STATUS_NOT_FOUND: u16 = 404;

/// HTTP status of a request that a uniqueness rule of the store refuses.
pub const STATUS_CONFLICT: u16 = 409;

/// HTTP status of a request that failed for a reason the client cannot mend.
pub const STATUS_INTERNAL_SERVER_ERROR: u16 = 500;

/// A complete answer: status code and body.
#[derive(Debug, Clone, PartialEq, Eq)]
pub struct Response<T> {
    pub status: u16,
    pub body: ApiResponse<T>,
}

/// Mathematical model of a [`Response`].
pub struct ResponseView<V> {
    pub status: u16,
    pub body: ApiResponseView<V>,
}

impl<T: DeepView> DeepView for Response<T> {
    type V = ResponseView<T::V>;

    open spec fn deep_view(&self) -> ResponseView<T::V> {
        ResponseView { status: self.status, body: self.body.deep_view() }
    }
}

impl<T: DeepView> View for Response<T> {
    type V = ResponseView<T::V>;

    open spec fn view(&self) -> ResponseView<T::V> {
        self.deep_view()
    }
}

/// The answer that carries `data` under `status`.
pub open spec fn success_response<V>(status: u16, data: V) -> ResponseView<V> {
    ResponseView { status, body: ApiResponseView::Success(data) }
}

/// The answer that carries the failure `message` under `status`.
pub open spec fn error_response<V>(status: u16, message: Seq<char>) -> ResponseView<V> {
    ResponseView { status, body: ApiResponseView::Error { error: message } }
}

impl<T: DeepView> Response<T> {
    /// Answers with a payload.
    pub fn succeed(status: u16, data: T) -> (out: Self)
        ensures
            out@ == success_response(status, data.deep_view()),
    {
        Response { status, body: ApiResponse::success(data) }
    }

    /// Answers with a failure message.
    pub fn fail(status: u16, message: String) -> (out: Self)
        ensures
            out@ == error_response::<T::V>(status, message@),
    {
        Response { status, body: ApiResponse::error(message) }
    }
}

/// Mathematical model of a confirmation that something was deleted.
pub struct DeleteResponseView {
    pub success: bool,
    pub message: Seq<char>,
}

} // verus!
