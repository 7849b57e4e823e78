use vstd::prelude::*;

verus! {

/// Failures tied to a user.
#[derive(Debug, Clone, Copy, PartialEq, Eq, Structural)]
pub enum ErrUser {
    InvalidNameTooShort,
    InvalidNameTooLong,
    InvalidID,
    AlreadyExist,
    UserNotFound,
}

/// Failures tied to a room.
#[derive(Debug, Clone, Copy, PartialEq, Eq, Structural)]
pub enum ErrRoom {
    InvalidNameTooShort,
    InvalidNameTooLong,
    InvalidID,
    AlreadyExist,
    RoomNotFound,
}

/// Failures tied to a booking.
#[derive(Debug, Clone, Copy, PartialEq, Eq, Structural)]
pub enum ErrBook {
    RoomNotFound,
    UserNotFound,
    AlreadyBooked,
    InvalidDateFormat,
    InvalidDate,
    InvalidID,
    UnableToRead,
    BookNotFound,
}

/// Failures while turning a stored row into a value.
#[derive(Debug, Clone, Copy, PartialEq, Eq, Structural)]
pub enum ErrType {
    RawConversionFailed,
}

/// Failures reported by a store.
#[derive(Debug, Clone, Copy, PartialEq, Eq, Structural)]
pub enum ErrRepo {
    Unreachable,
    DoesntExist,
    RequestError,
    BadRequest,
    UnableToDelete,
    IsEmpty,
}

/// Validation failures of the value objects.
#[derive(Debug, Clone, Copy, PartialEq, Eq, Structural)]
pub enum ErrDomain {
    Book(ErrBook),
    Room(ErrRoom),
    User(ErrUser),
}

/// Every failure a service operation can report.
#[derive(Debug, Clone, Copy, PartialEq, Eq, Structural)]
pub enum ErrService {
    Book(ErrBook),
    User(ErrUser),
    Room(ErrRoom),
    Repo(ErrRepo),
    Domain(ErrDomain),
    Type(ErrType),
}

impl From<ErrUser> for ErrService {
    fn from(err: ErrUser) -> ErrService {
        ErrService::User(err)
    }
}

impl vstd::std_specs::convert::FromSpecImpl<ErrUser> for ErrService {
    open spec fn obeys_from_spec() -> bool {
        true
    }

    open spec fn from_spec(err: ErrUser) -> ErrService {
        ErrService::User(err)
    }
}

impl From<ErrBook> for ErrService {
    fn from(err: ErrBook) -> ErrService {
        ErrService::Book(err)
    }
}

impl vstd::std_specs::convert::FromSpecImpl<ErrBook> for ErrService {
    open spec fn obeys_from_spec() -> bool {
        true
    }

    open spec fn from_spec(err: ErrBook) -> ErrService {
        ErrService::Book(err)
    }
}

impl From<ErrRoom> for ErrService {
    fn from(err: ErrRoom) -> ErrService {
        ErrService::Room(err)
    }
}

impl vstd::std_specs::convert::FromSpecImpl<ErrRoom> for ErrService {
    open spec fn obeys_from_spec() -> bool {
        true
    }

    open spec fn from_spec(err: ErrRoom) -> ErrService {
        ErrService::Room(err)
    }
}

impl From<ErrRepo> for ErrService {
    fn from(err: ErrRepo) -> ErrService {
        ErrService::Repo(err)
    }
}

impl vstd::std_specs::convert::FromSpecImpl<ErrRepo> for ErrService {
    open spec fn obeys_from_spec() -> bool {
        true
    }

    open spec fn from_spec(err: ErrRepo) -> ErrService {
        ErrService::Repo(err)
    }
}

impl From<ErrDomain> for ErrService {
    fn from(err: ErrDomain) -> ErrService {
        ErrService::Domain(err)
    }
}

impl vstd::std_specs::convert::FromSpecImpl<ErrDomain> for ErrService {
    open spec fn obeys_from_spec() -> bool {
        true
    }

    open spec fn from_spec(err: ErrDomain) -> ErrService {
        ErrService::Domain(err)
    }
}

impl From<ErrType> for ErrService {
    fn from(err: ErrType) -> ErrService {
        ErrService::Type(err)
    }
}

impl vstd::std_specs::convert::FromSpecImpl<ErrType> for ErrService {
    open spec fn obeys_from_spec() -> bool {
        true
    }

    open spec fn from_spec(err: ErrType) -> ErrService {
        ErrService::Type(err)
    }
}

/// Failures raised by the transport layer itself, each with its message.
#[derive(Debug, Clone)]
pub enum AppError {
    NotFound(String),
    BadRequest(String),
    Internal(String),
}

impl AppError {
    /// The HTTP status that reports this failure.
    pub fn status(&self) -> (r: u16)
        ensures
            r == match self {
                AppError::NotFound(_) => 404u16,
                AppError::BadRequest(_) => 400u16,
                AppError::Internal(_) => 500u16,
            },
    {
        match self {
            AppError::NotFound(_) => 404,
            AppError::BadRequest(_) => 400,
            AppError::Internal(_) => 500,
        }
    }
}

/// The HTTP status that reports `e`. A validation failure is reported as the
/// failure of its entity kind; anything unlisted is an internal error.
pub open spec fn status_of(e: ErrService) -> u16 {
    match e.lifted() {
        ErrService::Book(ErrBook::InvalidDateFormat) => 400,
        ErrService::Book(ErrBook::AlreadyBooked) => 409,
        ErrService::Book(ErrBook::InvalidDate) => 422,
        ErrService::Book(ErrBook::RoomNotFound) => 404,
        ErrService::Book(ErrBook::UserNotFound) => 404,
        ErrService::Book(ErrBook::UnableToRead) => 500,
        ErrService::Book(ErrBook::InvalidID) => 400,
        ErrService::User(ErrUser::InvalidNameTooShort) => 422,
        ErrService::User(ErrUser::InvalidNameTooLong) => 422,
        ErrService::User(ErrUser::InvalidID) => 404,
        ErrService::User(ErrUser::UserNotFound) => 404,
        ErrService::User(ErrUser::AlreadyExist) => 409,
        ErrService::Room(ErrRoom::InvalidNameTooShort) => 422,
        ErrService::Room(ErrRoom::InvalidNameTooLong) => 422,
        ErrService::Room(ErrRoom::InvalidID) => 400,
        ErrService::Room(ErrRoom::AlreadyExist) => 409,
        ErrService::Room(ErrRoom::RoomNotFound) => 404,
        ErrService::Type(ErrType::RawConversionFailed) => 500,
        ErrService::Repo(ErrRepo::BadRequest) => 400,
        ErrService::Repo(ErrRepo::Unreachable) => 503,
        ErrService::Repo(ErrRepo::DoesntExist) => 404,
        ErrService::Repo(ErrRepo::IsEmpty) => 404,
        ErrService::Repo(ErrRepo::UnableToDelete) => 503,
        _ => 500,
    }
}

impl ErrService {
    /// The same failure, with a validation failure lifted to its entity kind.
    pub open spec fn lifted(self) -> ErrService {
        match self {
            ErrService::Domain(ErrDomain::Book(b)) => ErrService::Book(b),
            ErrService::Domain(ErrDomain::Room(x)) => ErrService::Room(x),
            ErrService::Domain(ErrDomain::User(u)) => ErrService::User(u),
            other => other,
        }
    }

    /// The same failure, with a validation failure lifted to its entity kind.
    pub fn lift(&self) -> (r: ErrService)
        ensures
            r == self.lifted(),
    {
        match *self {
            ErrService::Domain(ErrDomain::Book(b)) => ErrService::Book(b),
            ErrService::Domain(ErrDomain::Room(x)) => ErrService::Room(x),
            ErrService::Domain(ErrDomain::User(u)) => ErrService::User(u),
            other => other,
        }
    }

    /// The HTTP status that reports this failure.
    pub fn status(&self) -> (r: u16)
        ensures
            r == status_of(*self),
    {
        match self.lift() {
            ErrService::Book(ErrBook::InvalidDateFormat) => 400,
            ErrService::Book(ErrBook::AlreadyBooked) => 409,
            ErrService::Book(ErrBook::InvalidDate) => 422,
            ErrService::Book(ErrBook::RoomNotFound) => 404,
            ErrService::Book(ErrBook::UserNotFound) => 404,
            ErrService::Book(ErrBook::UnableToRead) => 500,
            ErrService::Book(ErrBook::InvalidID) => 400,
            ErrService::User(ErrUser::InvalidNameTooShort) => 422,
            ErrService::User(ErrUser::InvalidNameTooLong) => 422,
            ErrService::User(ErrUser::InvalidID) => 404,
            ErrService::User(ErrUser::UserNotFound) => 404,
            ErrService::User(ErrUser::AlreadyExist) => 409,
            ErrService::Room(ErrRoom::InvalidNameTooShort) => 422,
            ErrService::Room(ErrRoom::InvalidNameTooLong) => 422,
            ErrService::Room(ErrRoom::InvalidID) => 400,
            ErrService::Room(ErrRoom::AlreadyExist) => 409,
            ErrService::Room(ErrRoom::RoomNotFound) => 404,
            ErrService::Type(ErrType::RawConversionFailed) => 500,
            ErrService::Repo(ErrRepo::BadRequest) => 400,
            ErrService::Repo(ErrRepo::Unreachable) => 503,
            ErrService::Repo(ErrRepo::DoesntExist) => 404,
            ErrService::Repo(ErrRepo::IsEmpty) => 404,
            ErrService::Repo(ErrRepo::UnableToDelete) => 503,
            _ => 500,
        }
    }

    /// The message shown to the client with the status.
    pub fn message(&self) -> (r: &'static str)
        ensures
            r@ == message_of(*self)@,
    {
        match self.lift() {
            ErrService::Book(ErrBook::InvalidDateFormat) => "Invalid date format",
            ErrService::Book(ErrBook::AlreadyBooked) => "Room already booked at this date",
            ErrService::Book(ErrBook::InvalidDate) => "Date already past",
            ErrService::Book(ErrBook::RoomNotFound) => "Room not found in the system",
            ErrService::Book(ErrBook::UserNotFound) => "User not found in the system",
            ErrService::Book(ErrBook::UnableToRead) => "Unable to read book",
            ErrService::Book(ErrBook::InvalidID) => "Invalid ID, please check book ID",
            ErrService::User(ErrUser::InvalidNameTooShort) => "User's name is too short",
            ErrService::User(ErrUser::InvalidNameTooLong) => "User's name is too long",
            ErrService::User(ErrUser::InvalidID) => "User's ID not found in the system",
            ErrService::User(ErrUser::UserNotFound) => "User not found in the system",
            ErrService::User(ErrUser::AlreadyExist) => "User already exists",
            ErrService::Room(ErrRoom::InvalidNameTooShort) => "Room's name is too short",
            ErrService::Room(ErrRoom::InvalidNameTooLong) => "Room's name is too long",
            ErrService::Room(ErrRoom::InvalidID) => "Invalid room's ID",
            ErrService::Room(ErrRoom::AlreadyExist) => "Room already exists",
            ErrService::Room(ErrRoom::RoomNotFound) => "Room not found in the system",
            ErrService::Type(ErrType::RawConversionFailed) => "Raw conversion failed",
            ErrService::Repo(ErrRepo::BadRequest) => "Invalid request",
            ErrService::Repo(ErrRepo::Unreachable) => "Database is unreachable",
            ErrService::Repo(ErrRepo::DoesntExist) => "Not found in the system",
            ErrService::Repo(ErrRepo::IsEmpty) => "Already empty",
            ErrService::Repo(ErrRepo::UnableToDelete) => "Unable to do this action",
            _ => "Service error",
        }
    }
}

/// The message that reports `e`.
pub open spec fn message_of(e: ErrService) -> &'static str {
    match e.lifted() {
        ErrService::Book(ErrBook::InvalidDateFormat) => "Invalid date format",
        ErrService::Book(ErrBook::AlreadyBooked) => "Room already booked at this date",
        ErrService::Book(ErrBook::InvalidDate) => "Date already past",
        ErrService::Book(ErrBook::RoomNotFound) => "Room not found in the system",
        ErrService::Book(ErrBook::UserNotFound) => "User not found in the system",
        ErrService::Book(ErrBook::UnableToRead) => "Unable to read book",
        ErrService::Book(ErrBook::InvalidID) => "Invalid ID, please check book ID",
        ErrService::User(ErrUser::InvalidNameTooShort) => "User's name is too short",
        ErrService::User(ErrUser::InvalidNameTooLong) => "User's name is too long",
        ErrService::User(ErrUser::InvalidID) => "User's ID not found in the system",
        ErrService::User(ErrUser::UserNotFound) => "User not found in the system",
        ErrService::User(ErrUser::AlreadyExist) => "User already exists",
        ErrService::Room(ErrRoom::InvalidNameTooShort) => "Room's name is too short",
        ErrService::Room(ErrRoom::InvalidNameTooLong) => "Room's name is too long",
        ErrService::Room(ErrRoom::InvalidID) => "Invalid room's ID",
        ErrService::Room(ErrRoom::AlreadyExist) => "Room already exists",
        ErrService::Room(ErrRoom::RoomNotFound) => "Room not found in the system",
        ErrService::Type(ErrType::RawConversionFailed) => "Raw conversion failed",
        ErrService::Repo(ErrRepo::BadRequest) => "Invalid request",
        ErrService::Repo(ErrRepo::Unreachable) => "Database is unreachable",
        ErrService::Repo(ErrRepo::DoesntExist) => "Not found in the system",
        ErrService::Repo(ErrRepo::IsEmpty) => "Already empty",
        ErrService::Repo(ErrRepo::UnableToDelete) => "Unable to do this action",
        _ => "Service error",
    }
}

} // verus!
