//! Bookings: a room held by a user on a day. Requests are checked against the
//! room and user caches and against the booking cache before the store is
//! written. Every write borrows its service mutably, so no other write can
//! slip between a conflict check and the store write it guards.
use vstd::prelude::*;

use crate::cache::{lists_values, slot_taken, some_room_named, some_user_named, BookingCache};
use crate::domain::{
    date_outcome, room_name_outcome, today, user_name_outcome, Book, BookDate, RoomName, UserName,
};
use crate::error::{ErrBook, ErrDomain, ErrRepo, ErrService};
use crate::repo::{lists_books, BookRepo, RoomRepo, UserRepo};
use crate::room_service::RoomService;
use crate::user_service::UserService;

verus! {

/// No two entries of `m` hold the same room on the same day.
pub open spec fn no_double_booking(m: Map<i32, Book>) -> bool {
    forall|a: i32, b: i32|
        #[trigger] m.contains_key(a) && #[trigger] m.contains_key(b) && a != b ==> !(
        m[a].room_name.name@ == m[b].room_name.name@ && m[a].date == m[b].date)
}

/// What checking a new booking gives, before the store is asked: the room
/// name, user name and day to book, or the first reason to refuse.
pub open spec fn booking_check(
    books: Map<i32, Book>,
    rooms: Map<i32, crate::domain::Room>,
    users: Map<u128, crate::domain::User>,
    room: Seq<char>,
    user: Seq<char>,
    date: Seq<char>,
    today: BookDate,
) -> Result<(Seq<char>, Seq<char>, BookDate), ErrService> {
    match date_outcome(date) {
        Err(_) => Err(ErrService::Domain(ErrDomain::Book(ErrBook::InvalidDateFormat))),
        Ok(d) => match room_name_outcome(room) {
            Err(e) => Err(ErrService::Domain(e)),
            Ok(rn) => match user_name_outcome(user) {
                Err(e) => Err(ErrService::Domain(e)),
                Ok(un) => if d.precedes(today) {
                    Err(ErrService::Book(ErrBook::InvalidDate))
                } else if !some_room_named(rooms, rn) {
                    Err(ErrService::Book(ErrBook::RoomNotFound))
                } else if !some_user_named(users, un) {
                    Err(ErrService::Book(ErrBook::UserNotFound))
                } else if slot_taken(books, rn, d, None) {
                    Err(ErrService::Book(ErrBook::AlreadyBooked))
                } else {
                    Ok((rn, un, d))
                },
            },
        },
    }
}

/// What checking a change of booking `id` gives, before the store is asked.
pub open spec fn rebooking_check(
    books: Map<i32, Book>,
    rooms: Map<i32, crate::domain::Room>,
    users: Map<u128, crate::domain::User>,
    id: i32,
    room: Seq<char>,
    user: Seq<char>,
    date: Seq<char>,
    today: BookDate,
) -> Result<(Seq<char>, Seq<char>, BookDate), ErrService> {
    match room_name_outcome(room) {
        Err(e) => Err(ErrService::Domain(e)),
        Ok(rn) => match user_name_outcome(user) {
            Err(e) => Err(ErrService::Domain(e)),
            Ok(un) => match date_outcome(date) {
                Err(e) => Err(ErrService::Domain(e)),
                Ok(d) => if !books.contains_key(id) {
                    Err(ErrService::Book(ErrBook::InvalidID))
                } else if slot_taken(books, rn, d, Some(id)) {
                    Err(ErrService::Book(ErrBook::AlreadyBooked))
                } else if d.precedes(today) {
                    Err(ErrService::Book(ErrBook::InvalidDate))
                } else if !some_user_named(users, un) {
                    Err(ErrService::Book(ErrBook::UserNotFound))
                } else if !some_room_named(rooms, rn) {
                    Err(ErrService::Book(ErrBook::RoomNotFound))
                } else {
                    Ok((rn, un, d))
                },
            },
        },
    }
}

/// How a booking request moved cache and store from (`c0`, `s0`) to (`c1`, `s1`)
/// and what it returned, given what the checks gave.
pub open spec fn booking_effect(
    check: Result<(Seq<char>, Seq<char>, BookDate), ErrService>,
    c0: Map<i32, Book>,
    s0: Map<i32, Book>,
    c1: Map<i32, Book>,
    s1: Map<i32, Book>,
    r: Result<Book, ErrService>,
) -> bool {
    match check {
        Err(e) => r == Err::<Book, ErrService>(e) && c1 == c0 && s1 == s0,
        Ok((rn, un, d)) => match r {
            Ok(b) => b.room_name.name@ == rn && b.user_name.name@ == un && b.date == d
                && !s0.contains_key(b.id) && s1 == s0.insert(b.id, b) && c1 == c0.insert(b.id, b),
            Err(_) => c1 == c0 && s1 == s0,
        },
    }
}

/// How changing booking `id` moved cache and store, given what the checks gave.
pub open spec fn rebooking_effect(
    check: Result<(Seq<char>, Seq<char>, BookDate), ErrService>,
    id: i32,
    c0: Map<i32, Book>,
    s0: Map<i32, Book>,
    c1: Map<i32, Book>,
    s1: Map<i32, Book>,
    r: Result<Book, ErrService>,
) -> bool {
    match check {
        Err(e) => r == Err::<Book, ErrService>(e) && c1 == c0 && s1 == s0,
        Ok((rn, un, d)) => match r {
            Ok(b) => b.id == id && b.room_name.name@ == rn && b.user_name.name@ == un && b.date == d
                && s0.contains_key(id) && s1 == s0.insert(id, b) && c1 == c0.insert(id, b),
            Err(_) => c1 == c0 && s1 == s0,
        },
    }
}

/// The booking service: a store of bookings and the cache that mirrors it.
pub struct BookService<T> {
    repo: T,
    cache: BookingCache,
}

impl<T> BookService<T> {
    /// The store behind the service.
    pub closed spec fn repo(&self) -> T {
        self.repo
    }

    /// The cached bookings, by number.
    pub closed spec fn cached(&self) -> Map<i32, Book> {
        self.cache@
    }

    /// A service over `repo` with an empty cache; `populate_cache` fills it.
    pub fn new(repo: T) -> (r: Self)
        ensures
            r.repo() == repo,
            r.cached() == Map::<i32, Book>::empty(),
    {
        BookService { repo, cache: BookingCache::new() }
    }
}

impl<T: BookRepo> BookService<T> {
    /// The stored bookings, by number.
    pub open spec fn stored(&self) -> Map<i32, Book> {
        self.repo().book_rows()
    }

    /// The cache holds exactly the stored bookings.
    pub open spec fn mirrored(&self) -> bool {
        self.cached() == self.stored()
    }

    /// Neither the cache nor the store differs between `self` and `other`.
    pub open spec fn same_as(&self, other: &Self) -> bool {
        self.cached() == other.cached() && self.stored() == other.stored()
    }

    /// Books room `room` for user `user` on `desired_date`, taking `today` as
    /// the current day: the date must parse and not be past, room and user
    /// must be cached, and the room must be free that day.
    pub fn book_room_on<R: RoomRepo, U: UserRepo>(
        &mut self,
        rooms: &RoomService<R>,
        users: &UserService<U>,
        room: &str,
        user: &str,
        desired_date: &str,
        today: BookDate,
    ) -> (r: Result<Book, ErrService>)
        ensures
            booking_effect(
                booking_check(
                    old(self).cached(),
                    rooms.cached(),
                    users.cached(),
                    room@,
                    user@,
                    desired_date@,
                    today,
                ),
                old(self).cached(),
                old(self).stored(),
                final(self).cached(),
                final(self).stored(),
                r,
            ),
            old(self).mirrored() ==> final(self).mirrored(),
            no_double_booking(old(self).cached()) ==> no_double_booking(final(self).cached()),
    {
        let date = match BookDate::new(desired_date) {
            Ok(d) => d,
            Err(_) => return Err(ErrService::Domain(ErrDomain::Book(ErrBook::InvalidDateFormat))),
        };
        let room_name = match RoomName::new(room) {
            Ok(x) => x,
            Err(e) => return Err(ErrService::Domain(e)),
        };
        let user_name = match UserName::new(user) {
            Ok(x) => x,
            Err(e) => return Err(ErrService::Domain(e)),
        };
        if date.is_before(&today) {
            return Err(ErrService::Book(ErrBook::InvalidDate));
        }
        match rooms.is_exist_room(&room_name) {
            Ok(true) => {},
            _ => return Err(ErrService::Book(ErrBook::RoomNotFound)),
        }
        match users.is_exist_user(&user_name) {
            Ok(true) => {},
            _ => return Err(ErrService::Book(ErrBook::UserNotFound)),
        }
        if self.cache.slot_taken(&room_name, &date, None) {
            return Err(ErrService::Book(ErrBook::AlreadyBooked));
        }
        let book = Book { id: 0, room_name, user_name, date };
        let answer = self.repo.insert_book(&book);
        self.record_write(answer)
    }

    /// Books room `room` for user `user` on `desired_date`, against the
    /// current day of the machine's clock.
    pub fn book_room<R: RoomRepo, U: UserRepo>(
        &mut self,
        rooms: &RoomService<R>,
        users: &UserService<U>,
        room: &str,
        user: &str,
        desired_date: &str,
    ) -> (r: Result<Book, ErrService>)
        ensures
            exists|day: BookDate|
                booking_effect(
                    #[trigger] booking_check(
                        old(self).cached(),
                        rooms.cached(),
                        users.cached(),
                        room@,
                        user@,
                        desired_date@,
                        day,
                    ),
                    old(self).cached(),
                    old(self).stored(),
                    final(self).cached(),
                    final(self).stored(),
                    r,
                ),
            old(self).mirrored() ==> final(self).mirrored(),
            no_double_booking(old(self).cached()) ==> no_double_booking(final(self).cached()),
    {
        let day = today();
        self.book_room_on(rooms, users, room, user, desired_date, day)
    }

    /// Moves booking `old_book_id` to room `room`, user `user` and day `date`,
    /// taking `today` as the current day.
    pub fn update_book_by_id_on<R: RoomRepo, U: UserRepo>(
        &mut self,
        rooms: &RoomService<R>,
        users: &UserService<U>,
        old_book_id: i32,
        room: &str,
        user: &str,
        date: &str,
        today: BookDate,
    ) -> (r: Result<Book, ErrService>)
        ensures
            rebooking_effect(
                rebooking_check(
                    old(self).cached(),
                    rooms.cached(),
                    users.cached(),
                    old_book_id,
                    room@,
                    user@,
                    date@,
                    today,
                ),
                old_book_id,
                old(self).cached(),
                old(self).stored(),
                final(self).cached(),
                final(self).stored(),
                r,
            ),
            old(self).mirrored() ==> final(self).mirrored(),
            no_double_booking(old(self).cached()) ==> no_double_booking(final(self).cached()),
    {
        let room_name = match RoomName::new(room) {
            Ok(x) => x,
            Err(e) => return Err(ErrService::Domain(e)),
        };
        let user_name = match UserName::new(user) {
            Ok(x) => x,
            Err(e) => return Err(ErrService::Domain(e)),
        };
        let day = match BookDate::new(date) {
            Ok(d) => d,
            Err(e) => return Err(ErrService::Domain(e)),
        };
        match self.is_exist_book_id(&old_book_id) {
            Ok(true) => {},
            _ => return Err(ErrService::Book(ErrBook::InvalidID)),
        }
        if self.cache.slot_taken(&room_name, &day, Some(old_book_id)) {
            return Err(ErrService::Book(ErrBook::AlreadyBooked));
        }
        if day.is_before(&today) {
            return Err(ErrService::Book(ErrBook::InvalidDate));
        }
        match users.is_exist_user(&user_name) {
            Ok(true) => {},
            _ => return Err(ErrService::Book(ErrBook::UserNotFound)),
        }
        match rooms.is_exist_room(&room_name) {
            Ok(true) => {},
            _ => return Err(ErrService::Book(ErrBook::RoomNotFound)),
        }
        let book = Book { id: old_book_id, room_name, user_name, date: day };
        let answer = self.repo.update_book(&book);
        self.record_write(answer)
    }

    /// Moves booking `old_book_id` to room `room`, user `user` and day `date`,
    /// against the current day of the machine's clock.
    pub fn update_book_by_id<R: RoomRepo, U: UserRepo>(
        &mut self,
        rooms: &RoomService<R>,
        users: &UserService<U>,
        old_book_id: i32,
        room: &str,
        user: &str,
        date: &str,
    ) -> (r: Result<Book, ErrService>)
        ensures
            exists|day: BookDate|
                rebooking_effect(
                    #[trigger] rebooking_check(
                        old(self).cached(),
                        rooms.cached(),
                        users.cached(),
                        old_book_id,
                        room@,
                        user@,
                        date@,
                        day,
                    ),
                    old_book_id,
                    old(self).cached(),
                    old(self).stored(),
                    final(self).cached(),
                    final(self).stored(),
                    r,
                ),
            old(self).mirrored() ==> final(self).mirrored(),
            no_double_booking(old(self).cached()) ==> no_double_booking(final(self).cached()),
    {
        let day = today();
        self.update_book_by_id_on(rooms, users, old_book_id, room, user, date, day)
    }

    /// Every stored booking, as the store lists them.
    pub fn list_book(&self) -> (r: Result<Vec<Book>, ErrService>)
        ensures
            r matches Ok(v) ==> lists_books(v@, self.stored()),
    {
        self.repo.get_all_books()
    }

    /// Every cached booking, in some order.
    pub fn list_book_by_cache(&self) -> (r: Result<Vec<Book>, ErrService>)
        ensures
            r matches Ok(v) && lists_values(v@, self.cached()),
    {
        Ok(self.cache.values())
    }

    /// Deletes booking `book_id`: refused with `InvalidID`, without asking the
    /// store, when it is not cached; then removed from the store and the cache.
    pub fn delete_book_by_id(&mut self, book_id: i32) -> (r: Result<(), ErrService>)
        ensures
            !old(self).cached().contains_key(book_id) ==> r == Err::<(), ErrService>(
                ErrService::Book(ErrBook::InvalidID),
            ),
            match r {
                Ok(_) => old(self).stored().contains_key(book_id)
                    && final(self).stored() == old(self).stored().remove(book_id)
                    && final(self).cached() == old(self).cached().remove(book_id),
                Err(_) => final(self).same_as(old(self)),
            },
            old(self).mirrored() ==> final(self).mirrored(),
            no_double_booking(old(self).cached()) ==> no_double_booking(final(self).cached()),
    {
        match self.is_exist_book_id(&book_id) {
            Ok(true) => {},
            _ => return Err(ErrService::Book(ErrBook::InvalidID)),
        }
        let answer = self.repo.delete_book_by_id(book_id);
        if answer matches Ok(false) {
            assert(self.stored() =~= old(self).stored());
        }
        self.record_delete(book_id, answer)
    }

    /// Whether a cached booking holds room `room` on `date`.
    pub fn is_exist_book(&self, room: &RoomName, date: &BookDate) -> (r: Result<bool, ErrService>)
        ensures
            r == Ok::<bool, ErrService>(slot_taken(self.cached(), room.name@, *date, None)),
    {
        Ok(self.cache.slot_taken(room, date, None))
    }

    /// Whether booking number `id` is cached.
    pub fn is_exist_book_id(&self, id: &i32) -> (r: Result<bool, ErrService>)
        ensures
            r == Ok::<bool, ErrService>(self.cached().contains_key(*id)),
    {
        Ok(self.cache.get(*id).is_some())
    }

    /// Deletes every booking from the store, then empties the cache.
    pub fn delete_all_book(&mut self) -> (r: Result<(), ErrService>)
        ensures
            match r {
                Ok(_) => final(self).stored() == Map::<i32, Book>::empty() && final(self).cached()
                    == Map::<i32, Book>::empty(),
                Err(_) => final(self).same_as(old(self)),
            },
            old(self).mirrored() ==> final(self).mirrored(),
            no_double_booking(old(self).cached()) ==> no_double_booking(final(self).cached()),
    {
        let answer = self.repo.delete_all_book();
        self.record_clear(answer)
    }

    /// Records in the cache what the store answered to a write of a booking:
    /// the stored booking when the write succeeded; nothing when it failed,
    /// and its error is returned as it is.
    pub fn record_write(&mut self, answer: Result<Book, ErrService>) -> (r: Result<Book, ErrService>)
        ensures
            final(self).repo() == old(self).repo(),
            r == answer,
            match answer {
                Ok(b) => final(self).cached() == old(self).cached().insert(b.id, b),
                Err(_) => final(self).cached() == old(self).cached(),
            },
    {
        match answer {
            Ok(b) => {
                self.cache.insert(b.clone());
                Ok(b)
            },
            Err(e) => Err(e),
        }
    }

    /// Records in the cache what the store answered to deleting booking `id`:
    /// `Ok(true)` drops it from the cache; `Ok(false)`, nothing deleted, gives
    /// `UnableToDelete`; a store error is returned as it is.
    pub fn record_delete(&mut self, id: i32, answer: Result<bool, ErrService>) -> (r: Result<(), ErrService>)
        ensures
            final(self).repo() == old(self).repo(),
            match answer {
                Ok(true) => r is Ok && final(self).cached() == old(self).cached().remove(id),
                Ok(false) => r == Err::<(), ErrService>(ErrService::Repo(ErrRepo::UnableToDelete))
                    && final(self).cached() == old(self).cached(),
                Err(e) => r == Err::<(), ErrService>(e) && final(self).cached() == old(self).cached(),
            },
    {
        match answer {
            Ok(found) => {
                if found {
                    self.cache.remove(id);
                    Ok(())
                } else {
                    Err(ErrService::Repo(ErrRepo::UnableToDelete))
                }
            },
            Err(e) => Err(e),
        }
    }

    /// Records in the cache what the store answered to deleting every
    /// booking: `Ok(true)` empties the cache; `Ok(false)`, nothing deleted,
    /// gives `UnableToDelete`; a store error is returned as it is.
    pub fn record_clear(&mut self, answer: Result<bool, ErrService>) -> (r: Result<(), ErrService>)
        ensures
            final(self).repo() == old(self).repo(),
            match answer {
                Ok(true) => r is Ok && final(self).cached() == Map::<i32, Book>::empty(),
                Ok(false) => r == Err::<(), ErrService>(ErrService::Repo(ErrRepo::UnableToDelete))
                    && final(self).cached() == old(self).cached(),
                Err(e) => r == Err::<(), ErrService>(e) && final(self).cached() == old(self).cached(),
            },
    {
        match answer {
            Ok(deleted) => {
                if deleted {
                    self.cache = BookingCache::new();
                    Ok(())
                } else {
                    Err(ErrService::Repo(ErrRepo::UnableToDelete))
                }
            },
            Err(e) => Err(e),
        }
    }

    /// Loads every stored booking into the cache.
    pub fn populate_cache(&mut self) -> (r: Result<(), ErrService>)
        ensures
            final(self).stored() == old(self).stored(),
            match r {
                Ok(_) => final(self).cached() == old(self).cached().union_prefer_right(
                    old(self).stored(),
                ),
                Err(_) => final(self).cached() == old(self).cached(),
            },
    {
        let listed = self.repo.get_all_books();
        self.load_listed(listed)
    }

    /// Loads the store's listing `listed` into the cache: every listed booking
    /// when the listing succeeded; nothing when it failed, and its error is
    /// returned as it is.
    pub fn load_listed(&mut self, listed: Result<Vec<Book>, ErrService>) -> (r: Result<(), ErrService>)
        requires
            listed matches Ok(v) ==> lists_books(v@, old(self).stored()),
        ensures
            final(self).repo() == old(self).repo(),
            match listed {
                Ok(_) => r is Ok && final(self).cached() == old(self).cached().union_prefer_right(
                    old(self).stored(),
                ),
                Err(e) => r == Err::<(), ErrService>(e) && final(self).cached() == old(self).cached(),
            },
    {
        let books = match listed {
            Ok(v) => v,
            Err(e) => return Err(e),
        };
        let ghost rows = self.stored();
        let ghost start = self.cache@;
        let mut i: usize = 0;
        while i < books.len()
            invariant
                self.stored() == rows,
                self.repo == old(self).repo,
                start == old(self).cache@,
                lists_books(books@, rows),
                i <= books@.len(),
                forall|k: i32|
                    #[trigger] self.cache@.contains_key(k) == (start.contains_key(k) || exists|j: int|
                        0 <= j < i && books@[j].id == k),
                forall|k: i32|
                    #[trigger] self.cache@.contains_key(k) ==> self.cache@[k] == if exists|j: int|
                        0 <= j < i && books@[j].id == k {
                        rows[k]
                    } else {
                        start[k]
                    },
            decreases books@.len() - i,
        {
            let x = books[i].clone();
            proof {
                assert(rows.contains_key(books@[i as int].id));
            }
            self.cache.insert(x);
            i = i + 1;
            proof {
                assert forall|k: i32| #[trigger] self.cache@.contains_key(k) implies self.cache@[k]
                    == if exists|j: int| 0 <= j < i && books@[j].id == k {
                    rows[k]
                } else {
                    start[k]
                } by {
                    if k == books@[i - 1].id {
                        assert(exists|j: int| 0 <= j < i && books@[j].id == k);
                    }
                }
            }
        }
        proof {
            assert forall|k: i32| #[trigger] rows.contains_key(k) implies exists|j: int|
                0 <= j < i && books@[j].id == k by {}
            assert(self.cache@ =~= start.union_prefer_right(rows));
        }
        Ok(())
    }
}

} // verus!
