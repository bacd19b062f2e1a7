use vstd::prelude::*;

verus! {

pub const STATUS_BAD_REQUEST: u16 = 400;

pub const STATUS_NOT_FOUND: u16 = 404;

pub const STATUS_INTERNAL_SERVER_ERROR: u16 = 500;

/// The failures a request can end in, as the client sees them.
#[derive(Clone, Copy, Debug, PartialEq, Eq, Structural)]
pub enum UserError {
    /// An input constraint was violated before any store access.
    ValidationError,
    /// The store or a pooled connection failed while the query ran.
    DBPoolGetError,
    /// The query matched no row.
    NotFoundError,
    /// The blocking executor failed to run the query.
    UnexpectedError,
}

impl UserError {
    /// The HTTP status that belongs to each kind.
    pub open spec fn spec_status_code(self) -> u16 {
        match self {
            UserError::ValidationError => STATUS_BAD_REQUEST,
            UserError::DBPoolGetError => STATUS_INTERNAL_SERVER_ERROR,
            UserError::NotFoundError => STATUS_NOT_FOUND,
            UserError::UnexpectedError => STATUS_INTERNAL_SERVER_ERROR,
        }
    }

    /// The canonical message of each kind; driver-level causes never appear in it.
    pub open spec fn spec_message(self) -> Seq<char> {
        match self {
            UserError::ValidationError => "Invalid input parameter"@,
            UserError::DBPoolGetError => "Internal server error"@,
            UserError::NotFoundError => "Not found"@,
            UserError::UnexpectedError => "Internal server error"@,
        }
    }

    /// The JSON body of an error response: an object with the single field `msg`.
    pub open spec fn spec_body(self) -> Seq<char> {
        "{\"msg\":\""@ + self.spec_message() + "\"}"@
    }

    pub fn status_code(&self) -> (r: u16)
        ensures
            r == self.spec_status_code(),
    {
        match self {
            UserError::ValidationError => STATUS_BAD_REQUEST,
            UserError::DBPoolGetError => STATUS_INTERNAL_SERVER_ERROR,
            UserError::NotFoundError => STATUS_NOT_FOUND,
            UserError::UnexpectedError => STATUS_INTERNAL_SERVER_ERROR,
        }
    }

    /// The human-readable message of this kind.
    pub fn message(&self) -> (r: String)
        ensures
            r@ == self.spec_message(),
    {
        match self {
            UserError::ValidationError => String::from_str("Invalid input parameter"),
            UserError::DBPoolGetError => String::from_str("Internal server error"),
            UserError::NotFoundError => String::from_str("Not found"),
            UserError::UnexpectedError => String::from_str("Internal server error"),
        }
    }

    /// The JSON body sent with this kind: `{"msg":"<message>"}`.
    pub fn error_body(&self) -> (r: String)
        ensures
            r@ == self.spec_body(),
    {
        let mut body = String::from_str("{\"msg\":\"");
        let msg = self.message();
        body.append(msg.as_str());
        body.append("\"}");
        body
    }
}

} // verus!
