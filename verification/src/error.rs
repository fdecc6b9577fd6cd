use vstd::prelude::*;
use vstd::string::*;

verus! {

/// Everything that can go wrong while serving a request.
///
/// Variants that stem from a collaborator (the store, the hasher, a parser)
/// carry that collaborator's own words for diagnostics.
#[derive(Debug, Clone, PartialEq, Eq)]
pub enum AppError {
    /// A conflict: the request is well formed but the current state forbids
    /// it, or the store gave its transaction up in favour of another.
    UnprocessableEntity(String),
    /// The book, user or loan that the request names does not exist.
    EntityNotFound(String),
    /// A field of the request breaks a rule.
    ValidationError(String),
    /// An identifier could not be read from text.
    ConvertToUuidError(String),
    /// A transaction could not be opened or committed.
    TransactionError(String),
    /// A statement failed in the store.
    SpecificOperationError(String),
    /// A write failed: it should have changed a row and changed none.
    NoRowsAffectedError(String),
    /// The token store failed.
    KeyValueStoreError(String),
    /// The password hasher failed.
    BcryptError(String),
    /// A stored value could not be turned into an entity.
    ConversionEntityError(String),
    /// No valid credentials came with the request.
    UnauthenticatedError,
    /// The credentials were refused.
    UnauthorizedError,
    /// The user may not do this.
    ForbiddenOperation,
}

/// The shape of an [`AppError`] with its text as a sequence of characters.
pub enum ErrorView {
    UnprocessableEntity(Seq<char>),
    EntityNotFound(Seq<char>),
    ValidationError(Seq<char>),
    ConvertToUuidError(Seq<char>),
    TransactionError(Seq<char>),
    SpecificOperationError(Seq<char>),
    NoRowsAffectedError(Seq<char>),
    KeyValueStoreError(Seq<char>),
    BcryptError(Seq<char>),
    ConversionEntityError(Seq<char>),
    UnauthenticatedError,
    UnauthorizedError,
    ForbiddenOperation,
}

impl View for AppError {
    type V = ErrorView;

    open spec fn view(&self) -> ErrorView {
        match self {
            AppError::UnprocessableEntity(m) => ErrorView::UnprocessableEntity(m@),
            AppError::EntityNotFound(m) => ErrorView::EntityNotFound(m@),
            AppError::ValidationError(m) => ErrorView::ValidationError(m@),
            AppError::ConvertToUuidError(m) => ErrorView::ConvertToUuidError(m@),
            AppError::TransactionError(m) => ErrorView::TransactionError(m@),
            AppError::SpecificOperationError(m) => ErrorView::SpecificOperationError(m@),
            AppError::NoRowsAffectedError(m) => ErrorView::NoRowsAffectedError(m@),
            AppError::KeyValueStoreError(m) => ErrorView::KeyValueStoreError(m@),
            AppError::BcryptError(m) => ErrorView::BcryptError(m@),
            AppError::ConversionEntityError(m) => ErrorView::ConversionEntityError(m@),
            AppError::UnauthenticatedError => ErrorView::UnauthenticatedError,
            AppError::UnauthorizedError => ErrorView::UnauthorizedError,
            AppError::ForbiddenOperation => ErrorView::ForbiddenOperation,
        }
    }
}

impl ErrorView {
    /// What the error says.
    pub open spec fn text(self) -> Seq<char> {
        match self {
            ErrorView::UnprocessableEntity(m) => m,
            ErrorView::EntityNotFound(m) => m,
            ErrorView::ValidationError(m) => m,
            ErrorView::ConvertToUuidError(m) => m,
            ErrorView::TransactionError(m) => m,
            ErrorView::SpecificOperationError(m) => m,
            ErrorView::NoRowsAffectedError(m) => m,
            ErrorView::KeyValueStoreError(m) => m,
            ErrorView::BcryptError(m) => m,
            ErrorView::ConversionEntityError(m) => m,
            ErrorView::UnauthenticatedError => "no valid credentials were given"@,
            ErrorView::UnauthorizedError => "the credentials were refused"@,
            ErrorView::ForbiddenOperation => "the operation is forbidden"@,
        }
    }

    /// How the error shows to the client.
    pub open spec fn surface(self) -> Surface {
        match self {
            ErrorView::UnprocessableEntity(_) => Surface::Unprocessable,
            ErrorView::EntityNotFound(_) => Surface::NotFound,
            ErrorView::ValidationError(_) | ErrorView::ConvertToUuidError(_) => Surface::BadRequest,
            ErrorView::UnauthenticatedError | ErrorView::ForbiddenOperation => Surface::Forbidden,
            ErrorView::UnauthorizedError => Surface::Unauthorized,
            ErrorView::TransactionError(_)
            | ErrorView::SpecificOperationError(_)
            | ErrorView::NoRowsAffectedError(_)
            | ErrorView::KeyValueStoreError(_)
            | ErrorView::BcryptError(_)
            | ErrorView::ConversionEntityError(_) => Surface::ServerFailure,
        }
    }
}

/// How an error shows to the client.
#[derive(Debug, Clone, Copy, PartialEq, Eq, Structural)]
pub enum Surface {
    /// The request is at fault.
    BadRequest,
    /// The client must prove who it is.
    Unauthorized,
    /// The client may not do this.
    Forbidden,
    /// What the request names does not exist.
    NotFound,
    /// The request is well formed but cannot be carried out as things stand.
    Unprocessable,
    /// The server failed; the client is told no more.
    ServerFailure,
}

impl Surface {
    /// The HTTP status code.
    pub fn status_code(self) -> (code: u16)
        ensures
            code == match self {
                Surface::BadRequest => 400u16,
                Surface::Unauthorized => 401u16,
                Surface::Forbidden => 403u16,
                Surface::NotFound => 404u16,
                Surface::Unprocessable => 422u16,
                Surface::ServerFailure => 500u16,
            },
    {
        match self {
            Surface::BadRequest => 400,
            Surface::Unauthorized => 401,
            Surface::Forbidden => 403,
            Surface::NotFound => 404,
            Surface::Unprocessable => 422,
            Surface::ServerFailure => 500,
        }
    }
}

impl AppError {
    /// What the error says.
    pub fn to_string(&self) -> (text: String)
        ensures
            text@ == self@.text(),
    {
        match self {
            AppError::UnprocessableEntity(m) => m.clone(),
            AppError::EntityNotFound(m) => m.clone(),
            AppError::ValidationError(m) => m.clone(),
            AppError::ConvertToUuidError(m) => m.clone(),
            AppError::TransactionError(m) => m.clone(),
            AppError::SpecificOperationError(m) => m.clone(),
            AppError::NoRowsAffectedError(m) => m.clone(),
            AppError::KeyValueStoreError(m) => m.clone(),
            AppError::BcryptError(m) => m.clone(),
            AppError::ConversionEntityError(m) => m.clone(),
            AppError::UnauthenticatedError => String::from_str("no valid credentials were given"),
            AppError::UnauthorizedError => String::from_str("the credentials were refused"),
            AppError::ForbiddenOperation => String::from_str("the operation is forbidden"),
        }
    }

    /// How the error shows to the client: a book or loan that is missing as
    /// not found, a request that the current state forbids as
    /// unprocessable, a failure of the store or of another collaborator as
    /// a failure of the server.
    pub fn surface(&self) -> (surface: Surface)
        ensures
            surface == self@.surface(),
    {
        match self {
            AppError::UnprocessableEntity(_) => Surface::Unprocessable,
            AppError::EntityNotFound(_) => Surface::NotFound,
            AppError::ValidationError(_) | AppError::ConvertToUuidError(_) => Surface::BadRequest,
            AppError::UnauthenticatedError | AppError::ForbiddenOperation => Surface::Forbidden,
            AppError::UnauthorizedError => Surface::Unauthorized,
            AppError::TransactionError(_)
            | AppError::SpecificOperationError(_)
            | AppError::NoRowsAffectedError(_)
            | AppError::KeyValueStoreError(_)
            | AppError::BcryptError(_)
            | AppError::ConversionEntityError(_) => Surface::ServerFailure,
        }
    }
}

} // verus!
