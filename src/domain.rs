//! Value objects: validated names, identities, dates, and the three entities.
use vstd::prelude::*;

use chrono::Datelike;

use crate::error::{ErrBook, ErrDomain, ErrRoom, ErrUser};
use crate::text::{
    char_count_up_to, char_replaced, lowercased, replace_char, to_lowercase, to_uppercase,
    trim, trimmed, uppercased,
};

verus! {

/// Shortest accepted user name, in characters.
pub const USER_NAME_MIN: usize = 3;

/// Longest accepted user name, in characters.
pub const USER_NAME_MAX: usize = 34;

/// Shortest accepted room name, in characters.
pub const ROOM_NAME_MIN: usize = 3;

/// Longest accepted room name, in characters.
pub const ROOM_NAME_MAX: usize = 16;

/// Number of characters of a date written `dd.mm.yy`.
pub const DATE_TEXT_LEN: usize = 8;

// ---------------------------------------------------------------- users

/// The normalized form of a raw user name: trimmed, then lower-cased.
pub open spec fn normalized_user_name(raw: Seq<char>) -> Seq<char> {
    lowercased(trimmed(raw))
}

/// What validating a raw user name gives: its normalized text, or why it is refused.
pub open spec fn user_name_outcome(raw: Seq<char>) -> Result<Seq<char>, ErrDomain> {
    user_name_check(normalized_user_name(raw))
}

/// The length rule on a normalized user name.
pub open spec fn user_name_check(n: Seq<char>) -> Result<Seq<char>, ErrDomain> {
    if n.len() < USER_NAME_MIN {
        Err(ErrDomain::User(ErrUser::InvalidNameTooShort))
    } else if n.len() > USER_NAME_MAX {
        Err(ErrDomain::User(ErrUser::InvalidNameTooLong))
    } else {
        Ok(n)
    }
}

/// A validated user name.
#[derive(Debug, PartialEq, Eq, Hash)]
pub struct UserName {
    pub name: String,
}

impl Clone for UserName {
    fn clone(&self) -> (r: Self)
        ensures
            r == *self,
    {
        UserName { name: self.name.clone() }
    }
}

impl UserName {
    /// Trims and lower-cases `name`, then checks its length.
    pub fn new(name: &str) -> (r: Result<Self, ErrDomain>)
        ensures
            match user_name_outcome(name@) {
                Ok(n) => r matches Ok(u) && u.name@ == n,
                Err(e) => r == Err::<UserName, ErrDomain>(e),
            },
    {
        UserName::checked(to_lowercase(trim(name)))
    }

    /// Applies the length rule to an already normalized name.
    pub fn checked(normalized: String) -> (r: Result<Self, ErrDomain>)
        ensures
            match user_name_check(normalized@) {
                Ok(n) => r matches Ok(u) && u.name@ == n,
                Err(e) => r == Err::<UserName, ErrDomain>(e),
            },
    {
        let n = char_count_up_to(normalized.as_str(), USER_NAME_MAX + 1);
        if n < USER_NAME_MIN {
            Err(ErrDomain::User(ErrUser::InvalidNameTooShort))
        } else if n > USER_NAME_MAX {
            Err(ErrDomain::User(ErrUser::InvalidNameTooLong))
        } else {
            Ok(UserName { name: normalized })
        }
    }
}

// ---------------------------------------------------------------- rooms

/// The normalized form of a raw room name: trimmed, then upper-cased.
pub open spec fn normalized_room_name(raw: Seq<char>) -> Seq<char> {
    uppercased(trimmed(raw))
}

/// What validating a raw room name gives: its normalized text, or why it is refused.
pub open spec fn room_name_outcome(raw: Seq<char>) -> Result<Seq<char>, ErrDomain> {
    room_name_check(normalized_room_name(raw))
}

/// The length rule on a normalized room name.
pub open spec fn room_name_check(n: Seq<char>) -> Result<Seq<char>, ErrDomain> {
    if n.len() < ROOM_NAME_MIN {
        Err(ErrDomain::Room(ErrRoom::InvalidNameTooShort))
    } else if n.len() > ROOM_NAME_MAX {
        Err(ErrDomain::Room(ErrRoom::InvalidNameTooLong))
    } else {
        Ok(n)
    }
}

/// A validated room name.
#[derive(Debug, PartialEq, Eq, Hash)]
pub struct RoomName {
    pub name: String,
}

impl Clone for RoomName {
    fn clone(&self) -> (r: Self)
        ensures
            r == *self,
    {
        RoomName { name: self.name.clone() }
    }
}

impl RoomName {
    /// Trims and upper-cases `name`, then checks its length.
    pub fn new(name: &str) -> (r: Result<Self, ErrDomain>)
        ensures
            match room_name_outcome(name@) {
                Ok(n) => r matches Ok(x) && x.name@ == n,
                Err(e) => r == Err::<RoomName, ErrDomain>(e),
            },
    {
        RoomName::checked(to_uppercase(trim(name)))
    }

    /// Applies the length rule to an already normalized name.
    pub fn checked(normalized: String) -> (r: Result<Self, ErrDomain>)
        ensures
            match room_name_check(normalized@) {
                Ok(n) => r matches Ok(x) && x.name@ == n,
                Err(e) => r == Err::<RoomName, ErrDomain>(e),
            },
    {
        let n = char_count_up_to(normalized.as_str(), ROOM_NAME_MAX + 1);
        if n < ROOM_NAME_MIN {
            Err(ErrDomain::Room(ErrRoom::InvalidNameTooShort))
        } else if n > ROOM_NAME_MAX {
            Err(ErrDomain::Room(ErrRoom::InvalidNameTooLong))
        } else {
            Ok(RoomName { name: normalized })
        }
    }
}

// ---------------------------------------------------------------- dates

/// The calendar date, as year, month and day, that `chrono` reads from `s`
/// under the format `fmt`, if it reads one.
pub uninterp spec fn date_read(s: Seq<char>, fmt: Seq<char>) -> Option<(i32, u32, u32)>;

/// The format of a booking date: day, month and two-digit year, dot-separated.
pub const DATE_FORMAT: &'static str = "%d.%m.%y";

/// A calendar day.
#[derive(Debug, Clone, Copy, PartialEq, Eq, Hash, Structural)]
pub struct BookDate {
    pub year: i32,
    pub month: u32,
    pub day: u32,
}

impl BookDate {
    /// Chronological order: `self` is a strictly earlier day than `other`.
    pub open spec fn precedes(self, other: BookDate) -> bool {
        ||| self.year < other.year
        ||| self.year == other.year && self.month < other.month
        ||| self.year == other.year && self.month == other.month && self.day < other.day
    }

    /// Whether `self` is a strictly earlier day than `other`.
    pub fn is_before(&self, other: &BookDate) -> (r: bool)
        ensures
            r == self.precedes(*other),
    {
        if self.year != other.year {
            self.year < other.year
        } else if self.month != other.month {
            self.month < other.month
        } else {
            self.day < other.day
        }
    }
}

/// What reading a raw date gives: trimmed, `/` turned into `.`, exactly
/// eight characters long, then read as `dd.mm.yy`.
pub open spec fn date_outcome(raw: Seq<char>) -> Result<BookDate, ErrDomain> {
    trimmed_date_outcome(trimmed(raw))
}

/// What reading an already trimmed date gives.
pub open spec fn trimmed_date_outcome(t: Seq<char>) -> Result<BookDate, ErrDomain> {
    let cleaned = char_replaced(t, '/', '.');
    if cleaned.len() != DATE_TEXT_LEN {
        Err(ErrDomain::Book(ErrBook::InvalidDateFormat))
    } else {
        match date_read(cleaned, DATE_FORMAT@) {
            Some((y, m, d)) => Ok(BookDate { year: y, month: m, day: d }),
            None => Err(ErrDomain::Book(ErrBook::InvalidDateFormat)),
        }
    }
}

/// Relies on `chrono::NaiveDate::parse_from_str`: the date read from `s`
/// under `fmt`, as year, month and day, which form a real calendar day.
#[verifier::external_body]
fn parse_date(s: &str, fmt: &str) -> (r: Option<BookDate>)
    ensures
        match date_read(s@, fmt@) {
            Some((y, m, d)) => r == Some(BookDate { year: y, month: m, day: d }),
            None => r is None,
        },
        r matches Some(d) ==> 1 <= d.month <= 12 && 1 <= d.day <= 31,
{
    chrono::NaiveDate::parse_from_str(s, fmt).ok().map(
        |d| BookDate { year: d.year(), month: d.month(), day: d.day() },
    )
}

/// Relies on `chrono::Local::now` and `DateTime::date_naive`: the current day
/// in the machine's time zone, which changes with the clock.
#[verifier::external_body]
pub(crate) fn today() -> (r: BookDate)
    ensures
        1 <= r.month <= 12,
        1 <= r.day <= 31,
{
    let d = chrono::Local::now().date_naive();
    BookDate { year: d.year(), month: d.month(), day: d.day() }
}

impl BookDate {
    /// Reads a date written `dd.mm.yy` or `dd/mm/yy`, surrounding whitespace allowed.
    pub fn new(input_date: &str) -> (r: Result<Self, ErrDomain>)
        ensures
            r == date_outcome(input_date@),
    {
        BookDate::from_trimmed(trim(input_date))
    }

    /// Reads a date already stripped of surrounding whitespace.
    pub fn from_trimmed(trimmed_date: &str) -> (r: Result<Self, ErrDomain>)
        ensures
            r == trimmed_date_outcome(trimmed_date@),
    {
        let cleaned = replace_char(trimmed_date, '/', '.');
        if char_count_up_to(cleaned.as_str(), DATE_TEXT_LEN + 1) != DATE_TEXT_LEN {
            return Err(ErrDomain::Book(ErrBook::InvalidDateFormat));
        }
        match parse_date(cleaned.as_str(), DATE_FORMAT) {
            Some(date) => Ok(date),
            None => Err(ErrDomain::Book(ErrBook::InvalidDateFormat)),
        }
    }
}

// ---------------------------------------------------------------- entities

/// Relies on `uuid::Uuid::new_v4` and `Uuid::as_u128`: a random identifier
/// whose version field, bits 76 to 79, reads 4.
#[verifier::external_body]
fn random_uuid() -> (r: u128)
    ensures
        (r >> 76u128) & 0xfu128 == 4,
{
    uuid::Uuid::new_v4().as_u128()
}

/// The identity of a user: a random (version 4) UUID, held as its 128 bits.
#[derive(Debug, Clone, Copy, PartialEq, Eq, Hash, Structural)]
pub struct UserID {
    pub id: u128,
}

impl UserID {
    /// A fresh random identity.
    pub fn new() -> (r: Self)
        ensures
            (r.id >> 76u128) & 0xfu128 == 4,
    {
        UserID { id: random_uuid() }
    }
}

impl Default for UserID {
    fn default() -> (r: Self)
        ensures
            (r.id >> 76u128) & 0xfu128 == 4,
    {
        UserID::new()
    }
}

/// A user: an identity and a unique name.
#[derive(Debug, PartialEq, Eq, Hash)]
pub struct User {
    pub user_id: UserID,
    pub user_name: UserName,
}

impl Clone for User {
    fn clone(&self) -> (r: Self)
        ensures
            r == *self,
    {
        User { user_id: self.user_id, user_name: self.user_name.clone() }
    }
}

impl User {
    /// A user with a fresh identity and the validated form of `name`.
    pub fn new(name: &str) -> (r: Result<Self, ErrDomain>)
        ensures
            match user_name_outcome(name@) {
                Ok(n) => r matches Ok(u) && u.user_name.name@ == n,
                Err(e) => r == Err::<User, ErrDomain>(e),
            },
    {
        let user_name = UserName::new(name)?;
        Ok(User { user_id: UserID::new(), user_name })
    }
}

/// A room: a store-assigned number and a unique name.
#[derive(Debug, PartialEq, Eq, Hash)]
pub struct Room {
    pub id: i32,
    pub room_name: RoomName,
}

impl Clone for Room {
    fn clone(&self) -> (r: Self)
        ensures
            r == *self,
    {
        Room { id: self.id, room_name: self.room_name.clone() }
    }
}

impl Room {
    /// A room not yet stored (number 0) with the validated form of `name`.
    pub fn new(name: &str) -> (r: Result<Self, ErrDomain>)
        ensures
            match room_name_outcome(name@) {
                Ok(n) => r matches Ok(x) && x.id == 0 && x.room_name.name@ == n,
                Err(e) => r == Err::<Room, ErrDomain>(e),
            },
    {
        let room_name = RoomName::new(name)?;
        Ok(Room { id: 0, room_name })
    }
}

/// A booking: a user holding a room for one day.
#[derive(Debug, PartialEq, Eq, Hash)]
pub struct Book {
    pub id: i32,
    pub room_name: RoomName,
    pub user_name: UserName,
    pub date: BookDate,
}

impl Clone for Book {
    fn clone(&self) -> (r: Self)
        ensures
            r == *self,
    {
        Book {
            id: self.id,
            room_name: self.room_name.clone(),
            user_name: self.user_name.clone(),
            date: self.date,
        }
    }
}

impl Book {
    /// A booking not yet stored (number 0); the room name is checked first.
    pub fn new(room_name: &str, user_name: &str, date: BookDate) -> (r: Result<Self, ErrDomain>)
        ensures
            match (room_name_outcome(room_name@), user_name_outcome(user_name@)) {
                (Err(e), _) => r == Err::<Book, ErrDomain>(e),
                (Ok(_), Err(e)) => r == Err::<Book, ErrDomain>(e),
                (Ok(rn), Ok(un)) => r matches Ok(b) && b.id == 0 && b.room_name.name@ == rn
                    && b.user_name.name@ == un && b.date == date,
            },
    {
        let room_name = RoomName::new(room_name)?;
        let user_name = UserName::new(user_name)?;
        Ok(Book { id: 0, room_name, user_name, date })
    }
}

} // verus!
