//! The persistent store, as seen by the services: one trait per entity kind.
//! Each exposes its rows as a map from identity to entity; a write that
//! fails leaves the rows as they were.
use vstd::prelude::*;

use crate::cache::some_user_named;
use crate::domain::{Book, Room, RoomName, User, UserID, UserName};
use crate::error::ErrService;

verus! {

/// The users of `m` whose name is not `n`.
pub open spec fn users_not_named(m: Map<u128, User>, n: Seq<char>) -> Map<u128, User> {
    m.restrict(m.dom().filter(|k: u128| m[k].user_name.name@ != n))
}

/// `v` lists the users of `rows`, each once, and each row is keyed by its identity.
pub open spec fn lists_users(v: Seq<User>, rows: Map<u128, User>) -> bool {
    &&& forall|i: int|
        0 <= i < v.len() ==> #[trigger] rows.contains_key(v[i].user_id.id) && rows[v[i].user_id.id]
            == v[i]
    &&& forall|i: int, j: int| 0 <= i < j < v.len() ==> v[i].user_id.id != v[j].user_id.id
    &&& forall|k: u128|
        #[trigger] rows.contains_key(k) ==> exists|i: int| 0 <= i < v.len() && v[i].user_id.id == k
}

/// `v` lists the rooms of `rows`, each once, and each row is keyed by its number.
pub open spec fn lists_rooms(v: Seq<Room>, rows: Map<i32, Room>) -> bool {
    &&& forall|i: int| 0 <= i < v.len() ==> #[trigger] rows.contains_key(v[i].id) && rows[v[i].id] == v[i]
    &&& forall|i: int, j: int| 0 <= i < j < v.len() ==> v[i].id != v[j].id
    &&& forall|k: i32| #[trigger] rows.contains_key(k) ==> exists|i: int| 0 <= i < v.len() && v[i].id == k
}

/// `v` lists the bookings of `rows`, each once, and each row is keyed by its number.
pub open spec fn lists_books(v: Seq<Book>, rows: Map<i32, Book>) -> bool {
    &&& forall|i: int| 0 <= i < v.len() ==> #[trigger] rows.contains_key(v[i].id) && rows[v[i].id] == v[i]
    &&& forall|i: int, j: int| 0 <= i < j < v.len() ==> v[i].id != v[j].id
    &&& forall|k: i32| #[trigger] rows.contains_key(k) ==> exists|i: int| 0 <= i < v.len() && v[i].id == k
}

/// Store of users.
pub trait UserRepo {
    /// The stored users, by identity. Every store this crate verifies defines it.
    /// A store that leaves it undefined is described by one fixed,
    /// unspecified map that no successful write can honour, so nothing
    /// proved here covers such a store (the database adapter of the
    /// application is one).
    closed spec fn user_rows(&self) -> Map<u128, User> {
        arbitrary()
    }

    /// Stores a new user under its identity.
    fn insert_user(&mut self, user: &User) -> (r: Result<User, ErrService>)
        ensures
            match r {
                Ok(u) => u == *user && !old(self).user_rows().contains_key(user.user_id.id)
                    && final(self).user_rows() == old(self).user_rows().insert(user.user_id.id, u),
                Err(_) => final(self).user_rows() == old(self).user_rows(),
            },
    ;

    /// Renames the stored user with identity `id`.
    fn update_user(&mut self, id: u128, new_name: &UserName) -> (r: Result<User, ErrService>)
        ensures
            match r {
                Ok(u) => old(self).user_rows().contains_key(id) && u.user_id == (UserID { id })
                    && u.user_name == *new_name && final(self).user_rows() == old(self).user_rows().insert(id, u),
                Err(_) => final(self).user_rows() == old(self).user_rows(),
            },
    ;

    /// Deletes every stored user named `name`; tells whether there was one.
    fn delete_user_by_name(&mut self, name: &UserName) -> (r: Result<bool, ErrService>)
        ensures
            match r {
                Ok(found) => found == some_user_named(old(self).user_rows(), name.name@)
                    && final(self).user_rows() == users_not_named(
                    old(self).user_rows(),
                    name.name@,
                ),
                Err(_) => final(self).user_rows() == old(self).user_rows(),
            },
    ;

    /// Every stored user.
    fn get_all_users(&self) -> (r: Result<Vec<User>, ErrService>)
        ensures
            r matches Ok(v) ==> lists_users(v@, self.user_rows()),
    ;
}

/// Store of rooms.
pub trait RoomRepo {
    /// The stored rooms, by number. Every store this crate verifies defines it.
    /// A store that leaves it undefined is described by one fixed,
    /// unspecified map that no successful write can honour, so nothing
    /// proved here covers such a store (the database adapter of the
    /// application is one).
    closed spec fn room_rows(&self) -> Map<i32, Room> {
        arbitrary()
    }

    /// Stores a new room under a number the store picks.
    fn insert_room(&mut self, room: &Room) -> (r: Result<Room, ErrService>)
        ensures
            match r {
                Ok(x) => x.room_name == room.room_name && !old(self).room_rows().contains_key(x.id)
                    && final(self).room_rows() == old(self).room_rows().insert(x.id, x),
                Err(_) => final(self).room_rows() == old(self).room_rows(),
            },
    ;

    /// Renames the stored room numbered `id`.
    fn update_room(&mut self, id: i32, new_name: &RoomName) -> (r: Result<Room, ErrService>)
        ensures
            match r {
                Ok(x) => old(self).room_rows().contains_key(id) && x.id == id && x.room_name
                    == *new_name && final(self).room_rows() == old(self).room_rows().insert(id, x),
                Err(_) => final(self).room_rows() == old(self).room_rows(),
            },
    ;

    /// Deletes the stored room numbered `id`; tells whether there was one.
    fn delete_room_by_id(&mut self, id: i32) -> (r: Result<bool, ErrService>)
        ensures
            match r {
                Ok(found) => found == old(self).room_rows().contains_key(id)
                    && final(self).room_rows() == old(self).room_rows().remove(id),
                Err(_) => final(self).room_rows() == old(self).room_rows(),
            },
    ;

    /// Every stored room.
    fn get_all_rooms(&self) -> (r: Result<Vec<Room>, ErrService>)
        ensures
            r matches Ok(v) ==> lists_rooms(v@, self.room_rows()),
    ;
}

/// Store of bookings.
pub trait BookRepo {
    /// The stored bookings, by number. Every store this crate verifies defines it.
    /// A store that leaves it undefined is described by one fixed,
    /// unspecified map that no successful write can honour, so nothing
    /// proved here covers such a store (the database adapter of the
    /// application is one).
    closed spec fn book_rows(&self) -> Map<i32, Book> {
        arbitrary()
    }

    /// Stores a new booking under a number the store picks.
    fn insert_book(&mut self, book: &Book) -> (r: Result<Book, ErrService>)
        ensures
            match r {
                Ok(b) => b.room_name == book.room_name && b.user_name == book.user_name && b.date
                    == book.date && !old(self).book_rows().contains_key(b.id)
                    && final(self).book_rows() == old(self).book_rows().insert(b.id, b),
                Err(_) => final(self).book_rows() == old(self).book_rows(),
            },
    ;

    /// Replaces the stored booking numbered `book.id`.
    fn update_book(&mut self, book: &Book) -> (r: Result<Book, ErrService>)
        ensures
            match r {
                Ok(b) => old(self).book_rows().contains_key(book.id) && b == *book
                    && final(self).book_rows() == old(self).book_rows().insert(book.id, b),
                Err(_) => final(self).book_rows() == old(self).book_rows(),
            },
    ;

    /// Deletes the stored booking numbered `id`; tells whether there was one.
    fn delete_book_by_id(&mut self, id: i32) -> (r: Result<bool, ErrService>)
        ensures
            match r {
                Ok(found) => found == old(self).book_rows().contains_key(id)
                    && final(self).book_rows() == old(self).book_rows().remove(id),
                Err(_) => final(self).book_rows() == old(self).book_rows(),
            },
    ;

    /// Deletes every stored booking; `Ok(false)` when nothing was deleted.
    fn delete_all_book(&mut self) -> (r: Result<bool, ErrService>)
        ensures
            match r {
                Ok(true) => final(self).book_rows() == Map::<i32, Book>::empty(),
                _ => final(self).book_rows() == old(self).book_rows(),
            },
    ;

    /// Every stored booking.
    fn get_all_books(&self) -> (r: Result<Vec<Book>, ErrService>)
        ensures
            r matches Ok(v) ==> lists_books(v@, self.book_rows()),
    ;
}

} // verus!
