//! The failures the service reports, with their messages and HTTP statuses.
use vstd::prelude::*;

verus! {

/// A failure of a request, as it is reported to the client.
#[derive(Debug)]
pub enum Error {
    InvalidCredentialsError,
    DatabaseConnectionError,
    QueryError,
    JwtCreationError,
    EncryptionError,
    PrincipalExistsError(String),
    UtfEncodingError,
    InvalidAuthHeaderError,
    MissingAuthHeaderError,
    BadRequestError,
    InvalidJwtError,
    InvalidRefreshTokenError,
    SerialisationError,
    InvalidRequestInputError(String),
    QrCodeError(String),
    TeraError(String),
    PdfError(String),
    IoError(String),
}

/// The HTTP status with which an error is answered.
pub open spec fn status_of(e: Error) -> u16 {
    match e {
        Error::InvalidCredentialsError => 403,
        Error::MissingAuthHeaderError | Error::InvalidJwtError
        | Error::InvalidRefreshTokenError => 401,
        Error::PrincipalExistsError(_) | Error::UtfEncodingError | Error::InvalidAuthHeaderError
        | Error::BadRequestError | Error::InvalidRequestInputError(_) => 400,
        _ => 500,
    }
}

/// The message with which an error is answered.
pub open spec fn message_of(e: Error) -> Seq<char> {
    match e {
        Error::InvalidCredentialsError => "invalid credentials"@,
        Error::DatabaseConnectionError => "Could not establish database connection"@,
        Error::QueryError => "There has been an error executing a query"@,
        Error::JwtCreationError => "There has been an error creating the JWT token"@,
        Error::EncryptionError => "There has been an error encrypting / decrypting a password"@,
        Error::PrincipalExistsError(id) => "There already exists a principal with the given identifier: '"@
            + id@ + "'"@,
        Error::UtfEncodingError => "Failed to decode request header as valid utf8"@,
        Error::InvalidAuthHeaderError => "The auth header is not formatted correctly (expected JWT 'Bearer ' header)"@,
        Error::MissingAuthHeaderError => "No auth header provided"@,
        Error::BadRequestError => "The request is not formatted correctly"@,
        Error::InvalidJwtError => "The JWT is not or no longer valid"@,
        Error::InvalidRefreshTokenError => "The refresh token is not or no longer valid"@,
        Error::SerialisationError => "There has been an error serialising the response"@,
        Error::InvalidRequestInputError(m) => m@,
        Error::QrCodeError(m) => m@,
        Error::TeraError(m) => m@,
        Error::PdfError(m) => m@,
        Error::IoError(m) => m@,
    }
}

impl Error {
    /// The HTTP status code of this error.
    pub fn status_code(&self) -> (r: u16)
        ensures
            r == status_of(*self),
    {
        match self {
            Error::InvalidCredentialsError => 403,
            Error::MissingAuthHeaderError | Error::InvalidJwtError
            | Error::InvalidRefreshTokenError => 401,
            Error::PrincipalExistsError(_) | Error::UtfEncodingError
            | Error::InvalidAuthHeaderError | Error::BadRequestError
            | Error::InvalidRequestInputError(_) => 400,
            _ => 500,
        }
    }

    /// The message of this error.
    pub fn message(&self) -> (r: String)
        ensures
            r@ == message_of(*self),
    {
        match self {
            Error::InvalidCredentialsError => String::from_str("invalid credentials"),
            Error::DatabaseConnectionError => String::from_str(
                "Could not establish database connection",
            ),
            Error::QueryError => String::from_str("There has been an error executing a query"),
            Error::JwtCreationError => String::from_str(
                "There has been an error creating the JWT token",
            ),
            Error::EncryptionError => String::from_str(
                "There has been an error encrypting / decrypting a password",
            ),
            Error::PrincipalExistsError(id) => {
                let mut m = String::from_str(
                    "There already exists a principal with the given identifier: '",
                );
                m.append(id.as_str());
                m.append("'");
                m
            },
            Error::UtfEncodingError => String::from_str(
                "Failed to decode request header as valid utf8",
            ),
            Error::InvalidAuthHeaderError => String::from_str(
                "The auth header is not formatted correctly (expected JWT 'Bearer ' header)",
            ),
            Error::MissingAuthHeaderError => String::from_str("No auth header provided"),
            Error::BadRequestError => String::from_str("The request is not formatted correctly"),
            Error::InvalidJwtError => String::from_str("The JWT is not or no longer valid"),
            Error::InvalidRefreshTokenError => String::from_str(
                "The refresh token is not or no longer valid",
            ),
            Error::SerialisationError => String::from_str(
                "There has been an error serialising the response",
            ),
            Error::InvalidRequestInputError(m) => m.clone(),
            Error::QrCodeError(m) => m.clone(),
            Error::TeraError(m) => m.clone(),
            Error::PdfError(m) => m.clone(),
            Error::IoError(m) => m.clone(),
        }
    }
}

} // verus!
