//! The failures that store and session operations report.
use vstd::prelude::*;

verus! {

/// What went wrong in an operation on the store or on the session.
#[derive(Clone, Copy, Debug, PartialEq, Eq, Structural)]
pub enum ErrorKind {
    /// The store cannot be reached, or cannot take the row because the
    /// identifiers of its table are used up.
    StorageUnavailable,
    /// The username or the email of a new user is already in use.
    UniquenessViolation,
    /// A value lies outside the range or the set that its column admits.
    ConstraintViolation,
    /// The operation names a row that does not exist.
    NotFound,
    /// The permission level is none of `none`, `regular` and `admin`.
    InvalidPermissionLevel,
    /// A session change could not be delivered to its observers.
    NotificationDeliveryFailure,
}

impl ErrorKind {
    /// The text that stands for each kind of failure.
    pub open spec fn message_spec(self) -> Seq<char> {
        match self {
            ErrorKind::StorageUnavailable => "storage unavailable"@,
            ErrorKind::UniquenessViolation => "username or email already in use"@,
            ErrorKind::ConstraintViolation => "value violates a schema constraint"@,
            ErrorKind::NotFound => "no such row"@,
            ErrorKind::InvalidPermissionLevel => "Invalid permission level"@,
            ErrorKind::NotificationDeliveryFailure => "Failed to set user state"@,
        }
    }

    /// A textual description of the failure, for callers that report text.
    pub fn message(&self) -> (text: String)
        ensures
            text@ == self.message_spec(),
    {
        match self {
            ErrorKind::StorageUnavailable => "storage unavailable".to_owned(),
            ErrorKind::UniquenessViolation => "username or email already in use".to_owned(),
            ErrorKind::ConstraintViolation => "value violates a schema constraint".to_owned(),
            ErrorKind::NotFound => "no such row".to_owned(),
            ErrorKind::InvalidPermissionLevel => "Invalid permission level".to_owned(),
            ErrorKind::NotificationDeliveryFailure => "Failed to set user state".to_owned(),
        }
    }
}

} // verus!
