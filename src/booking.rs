//! Booking straight against the store, without a cache: the collision check
//! reads the store's full listing.
use vstd::prelude::*;

use crate::cache::slot_taken;
use crate::domain::{date_outcome, Book, BookDate, Room, User};
use crate::error::{ErrBook, ErrDomain, ErrService};
use crate::repo::{lists_books, BookRepo};

verus! {

/// A booking service that consults only its store.
pub struct BookingService<T> {
    repo: T,
}

impl<T> BookingService<T> {
    /// The store behind the service.
    pub closed spec fn repo(&self) -> T {
        self.repo
    }

    /// A service over `repo`.
    pub fn new(repo: T) -> (r: Self)
        ensures
            r.repo() == repo,
    {
        BookingService { repo }
    }
}

/// Whether some booking of `books` holds the room named `room` on `date`.
fn listed_slot_taken(books: &Vec<Book>, room: &Room, date: &BookDate) -> (r: bool)
    ensures
        r == exists|i: int|
            0 <= i < books@.len() && #[trigger] books@[i].date == *date && books@[i].room_name.name@
                == room.room_name.name@,
{
    let mut i: usize = 0;
    while i < books.len()
        invariant
            i <= books@.len(),
            forall|j: int|
                0 <= j < i ==> !(#[trigger] books@[j].date == *date && books@[j].room_name.name@
                    == room.room_name.name@),
        decreases books@.len() - i,
    {
        if books[i].date == *date && books[i].room_name.name == room.room_name.name {
            return true;
        }
        i = i + 1;
    }
    false
}

impl<T: BookRepo> BookingService<T> {
    /// The stored bookings, by number.
    pub open spec fn stored(&self) -> Map<i32, Book> {
        self.repo().book_rows()
    }

    /// Books `room` for `user` on `desired_date` unless the store already
    /// holds a booking of that room on that day.
    pub fn book_room(&mut self, room: &Room, user: &User, desired_date: &str) -> (r: Result<
        (),
        ErrService,
    >)
        ensures
            match date_outcome(desired_date@) {
                Err(_) => r == Err::<(), ErrService>(
                    ErrService::Domain(ErrDomain::Book(ErrBook::InvalidDateFormat)),
                ) && final(self).stored() == old(self).stored(),
                Ok(d) => {
                    &&& slot_taken(old(self).stored(), room.room_name.name@, d, None) ==> r is Err
                    &&& r is Err ==> final(self).stored() == old(self).stored()
                    &&& r is Ok ==> exists|b: Book|
                        #![trigger old(self).stored().insert(b.id, b)]
                        !old(self).stored().contains_key(b.id) && b.room_name == room.room_name
                            && b.user_name == user.user_name && b.date == d && final(self).stored()
                            == old(self).stored().insert(b.id, b)
                },
            },
    {
        let date = match BookDate::new(desired_date) {
            Ok(d) => d,
            Err(_) => return Err(ErrService::Domain(ErrDomain::Book(ErrBook::InvalidDateFormat))),
        };
        let all_book = match self.repo.get_all_books() {
            Ok(v) => v,
            Err(e) => return Err(e),
        };
        if listed_slot_taken(&all_book, room, &date) {
            return Err(ErrService::Book(ErrBook::AlreadyBooked));
        }
        proof {
            let rows = self.stored();
            if slot_taken(rows, room.room_name.name@, date, None) {
                let k = choose|k: i32|
                    #[trigger] rows.contains_key(k) && Some(k) != None::<i32> && rows[k].room_name.name@
                        == room.room_name.name@ && rows[k].date == date;
                let i = choose|i: int| 0 <= i < all_book@.len() && all_book@[i].id == k;
                assert(rows.contains_key(all_book@[i].id));
                assert(rows[k] == all_book@[i]);
                assert(all_book@[i].date == date);
            }
        }
        let book = Book {
            id: 1,
            room_name: room.room_name.clone(),
            user_name: user.user_name.clone(),
            date,
        };
        match self.repo.insert_book(&book) {
            Ok(b) => {
                assert(self.stored() == old(self).stored().insert(b.id, b));
                Ok(())
            },
            Err(e) => Err(e),
        }
    }

    /// Every stored booking, as the store lists them.
    pub fn print_book(&self) -> (r: Result<Vec<Book>, ErrService>)
        ensures
            r matches Ok(v) ==> lists_books(v@, self.stored()),
    {
        self.repo.get_all_books()
    }
}

} // verus!
