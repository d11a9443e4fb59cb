use vstd::prelude::*;

verus! {

/// The errors that the library reports to its caller.
#[derive(Debug, Clone, PartialEq, Eq)]
pub enum AppError {
    /// A failure inside the service itself.
    InternalError(String),
    /// A requested item does not exist.
    NotFound(String),
    /// The request lacks a field or carries an unusable one.
    BadRequest(String),
    /// The vector index could not be reached or refused an operation.
    QdrantError(String),
    /// The completion provider answered with its error envelope.
    ProviderError(String),
    /// The completion provider answered with a body that is neither a reply
    /// nor an error envelope.
    MalformedResponse,
    /// A transport failure towards an upstream service.
    UpstreamError(String),
    /// Reading or writing local storage failed.
    StorageError(String),
}

/// The value of an error: its kind and its text.
pub enum ErrorView {
    Internal(Seq<char>),
    NotFound(Seq<char>),
    BadRequest(Seq<char>),
    Qdrant(Seq<char>),
    Provider(Seq<char>),
    MalformedResponse,
    Upstream(Seq<char>),
    Storage(Seq<char>),
}

impl View for AppError {
    type V = ErrorView;

    open spec fn view(&self) -> ErrorView {
        match self {
            AppError::InternalError(m) => ErrorView::Internal(m@),
            AppError::NotFound(m) => ErrorView::NotFound(m@),
            AppError::BadRequest(m) => ErrorView::BadRequest(m@),
            AppError::QdrantError(m) => ErrorView::Qdrant(m@),
            AppError::ProviderError(m) => ErrorView::Provider(m@),
            AppError::MalformedResponse => ErrorView::MalformedResponse,
            AppError::UpstreamError(m) => ErrorView::Upstream(m@),
            AppError::StorageError(m) => ErrorView::Storage(m@),
        }
    }
}

/// The value of a text result.
pub open spec fn result_view(r: Result<String, AppError>) -> Result<Seq<char>, ErrorView> {
    match r {
        Ok(s) => Ok(s@),
        Err(e) => Err(e@),
    }
}

/// HTTP status codes of the error envelope.
pub const STATUS_BAD_REQUEST: u16 = 400;

pub const STATUS_NOT_FOUND: u16 = 404;

pub const STATUS_INTERNAL: u16 = 500;

pub const STATUS_BAD_GATEWAY: u16 = 502;

/// The status that each kind of error is reported with.
pub open spec fn status_of(e: ErrorView) -> u16 {
    match e {
        ErrorView::Internal(_) => STATUS_INTERNAL,
        ErrorView::NotFound(_) => STATUS_NOT_FOUND,
        ErrorView::BadRequest(_) => STATUS_BAD_REQUEST,
        ErrorView::Qdrant(_) => STATUS_BAD_GATEWAY,
        ErrorView::Provider(_) => STATUS_BAD_GATEWAY,
        ErrorView::MalformedResponse => STATUS_BAD_GATEWAY,
        ErrorView::Upstream(_) => STATUS_BAD_GATEWAY,
        ErrorView::Storage(_) => STATUS_INTERNAL,
    }
}

/// The human-readable message that the error envelope carries.
pub open spec fn message_of(e: ErrorView) -> Seq<char> {
    match e {
        ErrorView::Internal(m) => m,
        ErrorView::NotFound(m) => m,
        ErrorView::BadRequest(m) => m,
        ErrorView::Qdrant(m) => m,
        ErrorView::Provider(m) => "OpenAI error: "@ + m,
        ErrorView::MalformedResponse => "Unknown response format"@,
        ErrorView::Upstream(m) => m,
        ErrorView::Storage(m) => m,
    }
}

impl AppError {
    /// The HTTP status of the error envelope for this error.
    pub fn status_code(&self) -> (r: u16)
        ensures
            r == status_of(self@),
    {
        match self {
            AppError::InternalError(_) => STATUS_INTERNAL,
            AppError::NotFound(_) => STATUS_NOT_FOUND,
            AppError::BadRequest(_) => STATUS_BAD_REQUEST,
            AppError::QdrantError(_) => STATUS_BAD_GATEWAY,
            AppError::ProviderError(_) => STATUS_BAD_GATEWAY,
            AppError::MalformedResponse => STATUS_BAD_GATEWAY,
            AppError::UpstreamError(_) => STATUS_BAD_GATEWAY,
            AppError::StorageError(_) => STATUS_INTERNAL,
        }
    }

    /// The message of the error envelope for this error.
    pub fn message(&self) -> (r: String)
        ensures
            r@ == message_of(self@),
    {
        match self {
            AppError::InternalError(m) => m.clone(),
            AppError::NotFound(m) => m.clone(),
            AppError::BadRequest(m) => m.clone(),
            AppError::QdrantError(m) => m.clone(),
            AppError::ProviderError(m) => String::from_str("OpenAI error: ").concat(m.as_str()),
            AppError::MalformedResponse => String::from_str("Unknown response format"),
            AppError::UpstreamError(m) => m.clone(),
            AppError::StorageError(m) => m.clone(),
        }
    }
}

} // verus!
