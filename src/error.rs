use vstd::prelude::*;

verus! {

/// The errors that a request can end with.
#[derive(PartialEq, Eq, Structural, Clone, Copy, Debug)]
pub enum LocalError {
    IdNotSent,
    IdNotFound,
    ItemNotAvailable,
    WrongParameters,
    OperationFailed,
    UnauthenticatedUser,
    WrongUserOrPassword,
}

/// The text shown to the caller for each error.
pub open spec fn error_message(e: LocalError) -> Seq<char> {
    match e {
        LocalError::IdNotSent => "Wrong request"@,
        LocalError::IdNotFound => "Wrong ID"@,
        LocalError::ItemNotAvailable => "Item is not available"@,
        LocalError::WrongParameters => "Wrong parameters"@,
        LocalError::OperationFailed => "Operation has not been executed"@,
        LocalError::UnauthenticatedUser => "User is not authenticated"@,
        LocalError::WrongUserOrPassword => "Wrong user or password"@,
    }
}

/// Whether an error is the server's fault rather than the client's.
pub open spec fn is_server_error(e: LocalError) -> bool {
    e == LocalError::OperationFailed
}

impl LocalError {
    pub fn to_string(&self) -> (r: String)
        ensures
            r@ == error_message(*self),
    {
        match self {
            LocalError::IdNotSent => String::from_str("Wrong request"),
            LocalError::IdNotFound => String::from_str("Wrong ID"),
            LocalError::ItemNotAvailable => String::from_str("Item is not available"),
            LocalError::WrongParameters => String::from_str("Wrong parameters"),
            LocalError::OperationFailed => String::from_str("Operation has not been executed"),
            LocalError::UnauthenticatedUser => String::from_str("User is not authenticated"),
            LocalError::WrongUserOrPassword => String::from_str("Wrong user or password"),
        }
    }

    /// The HTTP-equivalent status of a response that carries this error:
    /// 500 for a store failure, 400 for everything the client caused.
    pub fn status_code(&self) -> (r: u16)
        ensures
            r == (if is_server_error(*self) { 500u16 } else { 400u16 }),
    {
        match self {
            LocalError::OperationFailed => 500,
            _ => 400,
        }
    }
}

/// Which kind of record a store call was about.
#[derive(PartialEq, Eq, Structural, Clone, Copy, Debug)]
pub enum RecordType {
    User,
    Product,
    Order,
}

/// How a call to the relational store failed, as far as the service cares.
#[derive(PartialEq, Eq, Structural, Clone, Copy, Debug)]
pub enum StoreFailure {
    /// No row matched.
    RecordNotFound,
    /// The data handed to the store did not fit the record (bad JSON or type).
    BadData,
    /// Any other failure: connection, constraint, timeout.
    Other,
}

pub open spec fn spec_local_error(f: StoreFailure, record: RecordType) -> LocalError {
    match f {
        StoreFailure::RecordNotFound => match record {
            RecordType::User => LocalError::WrongUserOrPassword,
            _ => LocalError::IdNotFound,
        },
        StoreFailure::BadData => LocalError::WrongParameters,
        StoreFailure::Other => LocalError::OperationFailed,
    }
}

/// Classifies a store failure into the service's error for the given record.
pub fn to_local_error(f: StoreFailure, record: RecordType) -> (r: LocalError)
    ensures
        r == spec_local_error(f, record),
{
    match f {
        StoreFailure::RecordNotFound => match record {
            RecordType::User => LocalError::WrongUserOrPassword,
            _ => LocalError::IdNotFound,
        },
        StoreFailure::BadData => LocalError::WrongParameters,
        StoreFailure::Other => LocalError::OperationFailed,
    }
}

} // verus!
