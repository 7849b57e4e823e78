//! Payloads and rows exchanged with the transport and the store, and their
//! conversions to and from the validated entities.
use vstd::prelude::*;

use crate::domain::{
    date_outcome, room_name_outcome, user_name_outcome, Book, BookDate, Room, RoomName, User,
    UserID, UserName,
};
use crate::error::{ErrDomain, ErrService};

verus! {

/// Request to create a user.
pub struct CreateUserDto {
    pub user_name: String,
}

/// Request to rename a user.
pub struct UpdateUserNameDto {
    pub old_name: String,
    pub new_name: String,
}

/// Request to delete a user.
pub struct DeleteUserByIdDto {
    pub user_id: i32,
}

/// A user as returned to clients.
pub struct UserDto {
    pub user_id: u128,
    pub user_name: String,
}

/// A renamed user as returned to clients.
pub struct UpdateUserDto {
    pub user_id: u128,
    pub new_name: String,
}

/// The name column of a user row.
pub struct UserUpdateRowDto {
    pub user_name: String,
}

/// A user row as the store holds it.
pub struct UserRowDto {
    pub user_id: u128,
    pub user_name: String,
}

/// Request to create a room.
pub struct CreateRoomDto {
    pub room_name: String,
}

/// Request to delete a room.
pub struct DeleteRoomByIdDto {
    pub id: i32,
}

/// Request to rename a room.
pub struct UpdateRoomDto {
    pub old_name: String,
    pub new_name: String,
}

/// A room as returned to clients.
pub struct RoomDto {
    pub id: i32,
    pub room_name: String,
}

/// A room row as the store holds it.
pub struct RoomRowDto {
    pub id: i32,
    pub room_name: String,
}

/// Request to book a room.
pub struct CreateBookDto {
    pub room_name: String,
    pub user_name: String,
    pub date: String,
}

/// Request to move a booking.
pub struct UpdateBookDto {
    pub old_id: i32,
    pub room_name: String,
    pub user_name: String,
    pub date: String,
}

/// Request to delete a booking.
pub struct DeleteBookByIdDto {
    pub id: i32,
}

/// A booking as returned to clients.
pub struct BookDto {
    pub id: i32,
    pub room_name: String,
    pub user_name: String,
    pub date: BookDate,
}

/// A booking row as the store holds it.
pub struct BookRowDto {
    pub id: i32,
    pub room_name: String,
    pub user_name: String,
    pub date: BookDate,
}

impl User {
    /// A user with a fresh identity from a creation request.
    pub fn from_create_dto(dto: CreateUserDto) -> (r: Result<User, ErrDomain>)
        ensures
            match user_name_outcome(dto.user_name@) {
                Ok(n) => r matches Ok(u) && u.user_name.name@ == n,
                Err(e) => r == Err::<User, ErrDomain>(e),
            },
    {
        User::new(dto.user_name.as_str())
    }

    /// A user from a stored row, its name validated again.
    pub fn from_row(dto: UserRowDto) -> (r: Result<User, ErrDomain>)
        ensures
            match user_name_outcome(dto.user_name@) {
                Ok(n) => r matches Ok(u) && u.user_id.id == dto.user_id && u.user_name.name@ == n,
                Err(e) => r == Err::<User, ErrDomain>(e),
            },
    {
        let user_name = match UserName::new(dto.user_name.as_str()) {
            Ok(x) => x,
            Err(e) => return Err(e),
        };
        Ok(User { user_id: UserID { id: dto.user_id }, user_name })
    }
}

impl UserDto {
    /// The client view of `user`.
    pub fn from_user(user: User) -> (r: UserDto)
        ensures
            r.user_id == user.user_id.id,
            r.user_name == user.user_name.name,
    {
        UserDto { user_id: user.user_id.id, user_name: user.user_name.name }
    }
}

impl UpdateUserDto {
    /// The client view of a renamed `user`.
    pub fn from_user(user: User) -> (r: UpdateUserDto)
        ensures
            r.user_id == user.user_id.id,
            r.new_name == user.user_name.name,
    {
        UpdateUserDto { user_id: user.user_id.id, new_name: user.user_name.name }
    }
}

impl Room {
    /// A room not yet stored from a creation request.
    pub fn from_create_dto(dto: CreateRoomDto) -> (r: Result<Room, ErrDomain>)
        ensures
            match room_name_outcome(dto.room_name@) {
                Ok(n) => r matches Ok(x) && x.id == 0 && x.room_name.name@ == n,
                Err(e) => r == Err::<Room, ErrDomain>(e),
            },
    {
        Room::new(dto.room_name.as_str())
    }

    /// A room from a stored row, its name validated again.
    pub fn from_row(dto: RoomRowDto) -> (r: Result<Room, ErrDomain>)
        ensures
            match room_name_outcome(dto.room_name@) {
                Ok(n) => r matches Ok(x) && x.id == dto.id && x.room_name.name@ == n,
                Err(e) => r == Err::<Room, ErrDomain>(e),
            },
    {
        let room_name = match RoomName::new(dto.room_name.as_str()) {
            Ok(x) => x,
            Err(e) => return Err(e),
        };
        Ok(Room { id: dto.id, room_name })
    }
}

impl RoomDto {
    /// The client view of `room`.
    pub fn from_room(room: Room) -> (r: RoomDto)
        ensures
            r.id == room.id,
            r.room_name == room.room_name.name,
    {
        RoomDto { id: room.id, room_name: room.room_name.name }
    }
}

impl Book {
    /// A booking not yet stored from a request: room name, then user name,
    /// then date are validated.
    pub fn from_create_dto(dto: CreateBookDto) -> (r: Result<Book, ErrService>)
        ensures
            match (
                room_name_outcome(dto.room_name@),
                user_name_outcome(dto.user_name@),
                date_outcome(dto.date@),
            ) {
                (Err(e), _, _) => r == Err::<Book, ErrService>(ErrService::Domain(e)),
                (Ok(_), Err(e), _) => r == Err::<Book, ErrService>(ErrService::Domain(e)),
                (Ok(_), Ok(_), Err(e)) => r == Err::<Book, ErrService>(ErrService::Domain(e)),
                (Ok(rn), Ok(un), Ok(d)) => r matches Ok(b) && b.id == 0 && b.room_name.name@ == rn
                    && b.user_name.name@ == un && b.date == d,
            },
    {
        let room_name = match RoomName::new(dto.room_name.as_str()) {
            Ok(x) => x,
            Err(e) => return Err(ErrService::Domain(e)),
        };
        let user_name = match UserName::new(dto.user_name.as_str()) {
            Ok(x) => x,
            Err(e) => return Err(ErrService::Domain(e)),
        };
        let date = match BookDate::new(dto.date.as_str()) {
            Ok(x) => x,
            Err(e) => return Err(ErrService::Domain(e)),
        };
        Ok(Book { id: 0, room_name, user_name, date })
    }

    /// A booking from a stored row, its names validated again.
    pub fn from_row(dto: BookRowDto) -> (r: Result<Book, ErrService>)
        ensures
            match (room_name_outcome(dto.room_name@), user_name_outcome(dto.user_name@)) {
                (Err(e), _) => r == Err::<Book, ErrService>(ErrService::Domain(e)),
                (Ok(_), Err(e)) => r == Err::<Book, ErrService>(ErrService::Domain(e)),
                (Ok(rn), Ok(un)) => r matches Ok(b) && b.id == dto.id && b.room_name.name@ == rn
                    && b.user_name.name@ == un && b.date == dto.date,
            },
    {
        let room_name = match RoomName::new(dto.room_name.as_str()) {
            Ok(x) => x,
            Err(e) => return Err(ErrService::Domain(e)),
        };
        let user_name = match UserName::new(dto.user_name.as_str()) {
            Ok(x) => x,
            Err(e) => return Err(ErrService::Domain(e)),
        };
        Ok(Book { id: dto.id, room_name, user_name, date: dto.date })
    }
}

impl BookDto {
    /// The client view of `book`.
    pub fn from_book(book: Book) -> (r: BookDto)
        ensures
            r.id == book.id,
            r.room_name == book.room_name.name,
            r.user_name == book.user_name.name,
            r.date == book.date,
    {
        BookDto {
            id: book.id,
            room_name: book.room_name.name,
            user_name: book.user_name.name,
            date: book.date,
        }
    }
}

} // verus!
