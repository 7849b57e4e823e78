//! A store kept in process memory, one table per entity kind. It serves the
//! services where no database is at hand, and honours the same store contracts.
use vstd::prelude::*;
use vstd::std_specs::hash::spec_hash_map_iter;
use vstd::std_specs::iter::IteratorSpec;

use std::collections::HashMap;

use crate::book_service::BookService;
use crate::domain::{Book, BookDate, Room, RoomName, User, UserID, UserName};
use crate::error::{ErrBook, ErrRepo, ErrRoom, ErrService, ErrUser};
use crate::cache::some_user_named;
use crate::repo::{lists_users, users_not_named, BookRepo, RoomRepo, UserRepo};
use crate::room_service::RoomService;
use crate::user_service::UserService;

verus! {

broadcast use vstd::std_specs::hash::group_hash_axioms;

/// Tables held in memory: each row's identity is its key, the other columns
/// are the value. Users are listed in the order they were added; numbers for
/// new rooms and bookings count up from 1.
pub struct InMemoryRepo {
    users: HashMap<u128, UserName>,
    user_order: Vec<u128>,
    rooms: HashMap<i32, RoomName>,
    books: HashMap<i32, (RoomName, UserName, BookDate)>,
    next_room_id: i32,
    next_book_id: i32,
}

impl InMemoryRepo {
    /// Empty tables.
    pub fn new() -> (r: Self)
        ensures
            r.user_rows() == Map::<u128, User>::empty(),
            r.room_rows() == Map::<i32, Room>::empty(),
            r.book_rows() == Map::<i32, Book>::empty(),
    {
        let r = InMemoryRepo {
            users: HashMap::new(),
            user_order: Vec::new(),
            rooms: HashMap::new(),
            books: HashMap::new(),
            next_room_id: 1,
            next_book_id: 1,
        };
        assert(r.user_rows() =~= Map::<u128, User>::empty());
        assert(r.room_rows() =~= Map::<i32, Room>::empty());
        assert(r.book_rows() =~= Map::<i32, Book>::empty());
        r
    }
}

impl UserRepo for InMemoryRepo {
    closed spec fn user_rows(&self) -> Map<u128, User> {
        Map::new(
            |k: u128| self.users@.contains_key(k),
            |k: u128| User { user_id: UserID { id: k }, user_name: self.users@[k] },
        )
    }

    fn insert_user(&mut self, user: &User) -> (r: Result<User, ErrService>) {
        let id = user.user_id.id;
        if self.users.contains_key(&id) {
            return Err(ErrService::Repo(ErrRepo::BadRequest));
        }
        self.users.insert(id, user.user_name.clone());
        self.user_order.push(id);
        let u = user.clone();
        assert(self.user_rows() =~= old(self).user_rows().insert(id, u));
        Ok(u)
    }

    fn update_user(&mut self, id: u128, new_name: &UserName) -> (r: Result<User, ErrService>) {
        if !self.users.contains_key(&id) {
            return Err(ErrService::User(ErrUser::UserNotFound));
        }
        self.users.insert(id, new_name.clone());
        let u = User { user_id: UserID { id }, user_name: new_name.clone() };
        assert(self.user_rows() =~= old(self).user_rows().insert(id, u));
        Ok(u)
    }

    fn delete_user_by_name(&mut self, name: &UserName) -> (r: Result<bool, ErrService>) {
        let ghost rows = self.user_rows();
        let entries = self.users.iter();
        let ghost s = entries.remaining();
        assert(s.no_duplicates());
        let mut kept: HashMap<u128, UserName> = HashMap::new();
        let mut found = false;
        for (k, v) in it: entries
            invariant
                it.seq() == s,
                s == spec_hash_map_iter(&self.users).remaining(),
                rows == self.user_rows(),
                forall|k2: u128|
                    #[trigger] kept@.contains_key(k2) ==> self.users@.contains_key(k2)
                        && kept@[k2] == self.users@[k2] && self.users@[k2].name@ != name.name@,
                forall|j: int|
                    0 <= j < it.index() && s[j].1.name@ != name.name@ ==> #[trigger] kept@.contains_key(
                        *s[j].0,
                    ),
                found == exists|j: int| 0 <= j < it.index() && #[trigger] s[j].1.name@ == name.name@,
        {
            proof {
                assert(self.users@.contains_key(*s[it.index()].0));
            }
            if v.name == name.name {
                found = true;
            } else {
                kept.insert(*k, v.clone());
            }
        }
        proof {
            let n = name.name@;
            assert forall|k2: u128| self.users@.contains_key(k2) && self.users@[k2].name@ != n implies #[trigger] kept@.contains_key(k2) by {
                assert(s.contains((&k2, &self.users@[k2])));
                let j = choose|j: int| 0 <= j < s.len() && s[j] == (&k2, &self.users@[k2]);
                assert(s[j].1.name@ != n);
                assert(kept@.contains_key(*s[j].0));
            }
            if some_user_named(rows, n) {
                let k2 = choose|k2: u128| #[trigger] rows.contains_key(k2) && rows[k2].user_name.name@ == n;
                assert(s.contains((&k2, &self.users@[k2])));
                let j = choose|j: int| 0 <= j < s.len() && s[j] == (&k2, &self.users@[k2]);
                assert(s[j].1.name@ == n);
            }
            if found {
                let j = choose|j: int| 0 <= j < s.len() && #[trigger] s[j].1.name@ == n;
                assert(rows.contains_key(*s[j].0));
            }
        }
        if !found {
            return Err(ErrService::User(ErrUser::UserNotFound));
        }
        self.users = kept;
        assert(self.user_rows() =~= users_not_named(rows, name.name@));
        Ok(true)
    }

    fn get_all_users(&self) -> (r: Result<Vec<User>, ErrService>) {
        let ghost rows = self.user_rows();
        let mut out: Vec<User> = Vec::new();
        let mut i: usize = 0;
        while i < self.user_order.len()
            invariant
                rows == self.user_rows(),
                i <= self.user_order@.len(),
                forall|o: int|
                    #![trigger out@[o]]
                    0 <= o < out@.len() ==> rows.contains_key(out@[o].user_id.id) && rows[out@[o].user_id.id]
                        == out@[o],
                forall|a: int, b: int| 0 <= a < b < out@.len() ==> out@[a].user_id.id != out@[b].user_id.id,
            decreases self.user_order@.len() - i,
        {
            let id = self.user_order[i];
            if !lists_user_id(&out, id) {
                match self.users.get(&id) {
                    Some(name) => {
                        out.push(User { user_id: UserID { id }, user_name: name.clone() });
                    },
                    None => {},
                }
            }
            i = i + 1;
        }
        let all = self.users_in_any_order();
        let mut j: usize = 0;
        while j < all.len()
            invariant
                rows == self.user_rows(),
                lists_users(all@, rows),
                j <= all@.len(),
                forall|o: int|
                    #![trigger out@[o]]
                    0 <= o < out@.len() ==> rows.contains_key(out@[o].user_id.id) && rows[out@[o].user_id.id]
                        == out@[o],
                forall|a: int, b: int| 0 <= a < b < out@.len() ==> out@[a].user_id.id != out@[b].user_id.id,
                forall|x: int|
                    #![trigger all@[x]]
                    0 <= x < j ==> exists|o: int|
                        0 <= o < out@.len() && #[trigger] out@[o].user_id.id == all@[x].user_id.id,
            decreases all@.len() - j,
        {
            let ghost prev = out@;
            if !lists_user_id(&out, all[j].user_id.id) {
                out.push(all[j].clone());
            }
            proof {
                assert forall|x: int| #![trigger all@[x]] 0 <= x <= j implies exists|o: int|
                    0 <= o < out@.len() && #[trigger] out@[o].user_id.id == all@[x].user_id.id by {
                    if x < j {
                        let o = choose|o: int| 0 <= o < prev.len() && #[trigger] prev[o].user_id.id == all@[x].user_id.id;
                        assert(out@[o] == prev[o]);
                    } else if out@.len() > prev.len() {
                        assert(out@[out@.len() - 1].user_id.id == all@[x].user_id.id);
                    }
                }
            }
            j = j + 1;
        }
        proof {
            assert forall|k: u128| #[trigger] rows.contains_key(k) implies exists|o: int|
                0 <= o < out@.len() && out@[o].user_id.id == k by {
                let x = choose|x: int| 0 <= x < all@.len() && all@[x].user_id.id == k;
                assert(all@[x].user_id.id == k);
            }
        }
        Ok(out)
    }
}

impl InMemoryRepo {
    /// Every stored user, in the order the table yields them.
    fn users_in_any_order(&self) -> (r: Vec<User>)
        ensures
            lists_users(r@, self.user_rows()),
    {
        let ghost rows = self.user_rows();
        let entries = self.users.iter();
        let ghost s = entries.remaining();
        assert(s.no_duplicates());
        let mut out: Vec<User> = Vec::new();
        for (k, v) in it: entries
            invariant
                it.seq() == s,
                s.no_duplicates(),
                s == spec_hash_map_iter(&self.users).remaining(),
                rows == self.user_rows(),
                out@.len() == it.index(),
                forall|i: int|
                    0 <= i < out@.len() ==> #[trigger] out@[i].user_id.id == *s[i].0 && rows.contains_key(
                        out@[i].user_id.id,
                    ) && rows[out@[i].user_id.id] == out@[i],
                forall|i: int, j: int|
                    0 <= i < j < out@.len() ==> out@[i].user_id.id != out@[j].user_id.id,
        {
            proof {
                assert(self.users@.contains_key(*s[out@.len() as int].0));
                assert forall|i: int| 0 <= i < out@.len() implies out@[i].user_id.id != *k by {
                    if out@[i].user_id.id == *k {
                        assert(s[i] == s[out@.len() as int]);
                    }
                }
            }
            out.push(User { user_id: UserID { id: *k }, user_name: v.clone() });
        }
        proof {
            assert(out@.len() == s.len());
            assert forall|k: u128| #[trigger] rows.contains_key(k) implies exists|i: int|
                0 <= i < out@.len() && out@[i].user_id.id == k by {
                assert(s.contains((&k, &self.users@[k])));
                let i = choose|i: int| 0 <= i < s.len() && s[i] == (&k, &self.users@[k]);
                assert(out@[i].user_id.id == k);
            }
        }
        out
    }
}

/// Whether some user of `v` has identity `id`.
fn lists_user_id(v: &Vec<User>, id: u128) -> (r: bool)
    ensures
        r == exists|o: int| 0 <= o < v@.len() && #[trigger] v@[o].user_id.id == id,
{
    let mut i: usize = 0;
    while i < v.len()
        invariant
            i <= v@.len(),
            forall|o: int| 0 <= o < i ==> #[trigger] v@[o].user_id.id != id,
        decreases v@.len() - i,
    {
        if v[i].user_id.id == id {
            return true;
        }
        i = i + 1;
    }
    false
}

impl RoomRepo for InMemoryRepo {
    closed spec fn room_rows(&self) -> Map<i32, Room> {
        Map::new(
            |k: i32| self.rooms@.contains_key(k),
            |k: i32| Room { id: k, room_name: self.rooms@[k] },
        )
    }

    fn insert_room(&mut self, room: &Room) -> (r: Result<Room, ErrService>) {
        let id = self.next_room_id;
        if id == i32::MAX || self.rooms.contains_key(&id) {
            return Err(ErrService::Repo(ErrRepo::BadRequest));
        }
        self.rooms.insert(id, room.room_name.clone());
        self.next_room_id = id + 1;
        let x = Room { id, room_name: room.room_name.clone() };
        assert(self.room_rows() =~= old(self).room_rows().insert(id, x));
        Ok(x)
    }

    fn update_room(&mut self, id: i32, new_name: &RoomName) -> (r: Result<Room, ErrService>) {
        if !self.rooms.contains_key(&id) {
            return Err(ErrService::Repo(ErrRepo::Unreachable));
        }
        self.rooms.insert(id, new_name.clone());
        let x = Room { id, room_name: new_name.clone() };
        assert(self.room_rows() =~= old(self).room_rows().insert(id, x));
        Ok(x)
    }

    fn delete_room_by_id(&mut self, id: i32) -> (r: Result<bool, ErrService>) {
        if !self.rooms.contains_key(&id) {
            return Err(ErrService::Room(ErrRoom::RoomNotFound));
        }
        self.rooms.remove(&id);
        assert(self.room_rows() =~= old(self).room_rows().remove(id));
        Ok(true)
    }

    fn get_all_rooms(&self) -> (r: Result<Vec<Room>, ErrService>) {
        let ghost rows = self.room_rows();
        let entries = self.rooms.iter();
        let ghost s = entries.remaining();
        assert(s.no_duplicates());
        let mut out: Vec<Room> = Vec::new();
        for (k, v) in it: entries
            invariant
                it.seq() == s,
                s.no_duplicates(),
                s == spec_hash_map_iter(&self.rooms).remaining(),
                rows == self.room_rows(),
                out@.len() == it.index(),
                forall|i: int|
                    0 <= i < out@.len() ==> #[trigger] out@[i].id == *s[i].0 && rows.contains_key(out@[i].id)
                        && rows[out@[i].id] == out@[i],
                forall|i: int, j: int| 0 <= i < j < out@.len() ==> out@[i].id != out@[j].id,
        {
            proof {
                assert(self.rooms@.contains_key(*s[out@.len() as int].0));
                assert forall|i: int| 0 <= i < out@.len() implies out@[i].id != *k by {
                    if out@[i].id == *k {
                        assert(s[i] == s[out@.len() as int]);
                    }
                }
            }
            out.push(Room { id: *k, room_name: v.clone() });
        }
        proof {
            assert(out@.len() == s.len());
            assert forall|k: i32| #[trigger] rows.contains_key(k) implies exists|i: int|
                0 <= i < out@.len() && out@[i].id == k by {
                assert(s.contains((&k, &self.rooms@[k])));
                let i = choose|i: int| 0 <= i < s.len() && s[i] == (&k, &self.rooms@[k]);
                assert(out@[i].id == k);
            }
        }
        Ok(out)
    }
}

impl BookRepo for InMemoryRepo {
    closed spec fn book_rows(&self) -> Map<i32, Book> {
        Map::new(
            |k: i32| self.books@.contains_key(k),
            |k: i32|
                Book {
                    id: k,
                    room_name: self.books@[k].0,
                    user_name: self.books@[k].1,
                    date: self.books@[k].2,
                },
        )
    }

    fn insert_book(&mut self, book: &Book) -> (r: Result<Book, ErrService>) {
        let id = self.next_book_id;
        if id == i32::MAX || self.books.contains_key(&id) {
            return Err(ErrService::Repo(ErrRepo::BadRequest));
        }
        self.books.insert(id, (book.room_name.clone(), book.user_name.clone(), book.date));
        self.next_book_id = id + 1;
        let b = Book {
            id,
            room_name: book.room_name.clone(),
            user_name: book.user_name.clone(),
            date: book.date,
        };
        assert(self.book_rows() =~= old(self).book_rows().insert(id, b));
        Ok(b)
    }

    fn update_book(&mut self, book: &Book) -> (r: Result<Book, ErrService>) {
        if !self.books.contains_key(&book.id) {
            return Err(ErrService::Book(ErrBook::InvalidID));
        }
        self.books.insert(book.id, (book.room_name.clone(), book.user_name.clone(), book.date));
        let b = book.clone();
        assert(self.book_rows() =~= old(self).book_rows().insert(book.id, b));
        Ok(b)
    }

    fn delete_book_by_id(&mut self, id: i32) -> (r: Result<bool, ErrService>) {
        let found = self.books.contains_key(&id);
        self.books.remove(&id);
        assert(self.book_rows() =~= old(self).book_rows().remove(id));
        Ok(found)
    }

    fn delete_all_book(&mut self) -> (r: Result<bool, ErrService>) {
        if self.books.is_empty() {
            return Err(ErrService::Repo(ErrRepo::IsEmpty));
        }
        self.books.clear();
        assert(self.book_rows() =~= Map::<i32, Book>::empty());
        Ok(true)
    }

    fn get_all_books(&self) -> (r: Result<Vec<Book>, ErrService>) {
        let ghost rows = self.book_rows();
        let entries = self.books.iter();
        let ghost s = entries.remaining();
        assert(s.no_duplicates());
        let mut out: Vec<Book> = Vec::new();
        for (k, v) in it: entries
            invariant
                it.seq() == s,
                s.no_duplicates(),
                s == spec_hash_map_iter(&self.books).remaining(),
                rows == self.book_rows(),
                out@.len() == it.index(),
                forall|i: int|
                    0 <= i < out@.len() ==> #[trigger] out@[i].id == *s[i].0 && rows.contains_key(out@[i].id)
                        && rows[out@[i].id] == out@[i],
                forall|i: int, j: int| 0 <= i < j < out@.len() ==> out@[i].id != out@[j].id,
        {
            proof {
                assert(self.books@.contains_key(*s[out@.len() as int].0));
                assert forall|i: int| 0 <= i < out@.len() implies out@[i].id != *k by {
                    if out@[i].id == *k {
                        assert(s[i] == s[out@.len() as int]);
                    }
                }
            }
            out.push(Book { id: *k, room_name: v.0.clone(), user_name: v.1.clone(), date: v.2 });
        }
        proof {
            assert(out@.len() == s.len());
            assert forall|k: i32| #[trigger] rows.contains_key(k) implies exists|i: int|
                0 <= i < out@.len() && out@[i].id == k by {
                assert(s.contains((&k, &self.books@[k])));
                let i = choose|i: int| 0 <= i < s.len() && s[i] == (&k, &self.books@[k]);
                assert(out@[i].id == k);
            }
        }
        Ok(out)
    }
}

impl InMemoryRepo {
    /// A user service over empty in-memory tables.
    pub fn init_user_service() -> (r: UserService<InMemoryRepo>)
        ensures
            r.cached() == Map::<u128, User>::empty(),
            r.stored() == Map::<u128, User>::empty(),
    {
        UserService::new(InMemoryRepo::new())
    }

    /// A room service over empty in-memory tables.
    pub fn init_room_service() -> (r: RoomService<InMemoryRepo>)
        ensures
            r.cached() == Map::<i32, Room>::empty(),
            r.stored() == Map::<i32, Room>::empty(),
    {
        RoomService::new(InMemoryRepo::new())
    }

    /// A booking service over empty in-memory tables.
    pub fn init_book_service() -> (r: BookService<InMemoryRepo>)
        ensures
            r.cached() == Map::<i32, Book>::empty(),
            r.stored() == Map::<i32, Book>::empty(),
    {
        BookService::new(InMemoryRepo::new())
    }
}

} // verus!
