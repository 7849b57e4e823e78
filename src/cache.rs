//! Entity caches: one concurrent map per entity kind, keyed by identity,
//! mirroring that kind's rows in the store.
use vstd::prelude::*;

use dashmap::DashMap;

use crate::domain::{Book, BookDate, Room, RoomName, User, UserName};

verus! {

/// `dashmap::DashMap`, a concurrent hash map, held opaquely: what a map holds
/// is read through the names below.
#[verifier::external_type_specification]
#[verifier::external_body]
#[verifier::reject_recursive_types(K)]
#[verifier::reject_recursive_types(V)]
#[verifier::reject_recursive_types(S)]
pub struct ExDashMap<K, V, S>(DashMap<K, V, S>);

/// What a map of users holds, by identity.
pub uninterp spec fn user_entries(m: DashMap<u128, User>) -> Map<u128, User>;

/// The concurrent map behind the user cache.
pub type UserMap = DashMap<u128, User>;

/// `s` lists the entries of `m`, each once, in some order.
pub open spec fn lists_entries<K, V>(s: Seq<(K, V)>, m: Map<K, V>) -> bool {
    &&& forall|i: int| 0 <= i < s.len() ==> #[trigger] m.contains_key(s[i].0) && m[s[i].0] == s[i].1
    &&& forall|i: int, j: int| 0 <= i < j < s.len() ==> s[i].0 != s[j].0
    &&& forall|k: K| #[trigger] m.contains_key(k) ==> exists|i: int| 0 <= i < s.len() && s[i].0 == k
}

/// Some user of `m` is named `n`.
pub open spec fn some_user_named(m: Map<u128, User>, n: Seq<char>) -> bool {
    exists|k: u128| #[trigger] m.contains_key(k) && m[k].user_name.name@ == n
}

/// Some room of `m` is named `n`.
pub open spec fn some_room_named(m: Map<i32, Room>, n: Seq<char>) -> bool {
    exists|k: i32| #[trigger] m.contains_key(k) && m[k].room_name.name@ == n
}

/// Some booking of `m`, other than number `except`, holds room `room` on `date`.
pub open spec fn slot_taken(m: Map<i32, Book>, room: Seq<char>, date: BookDate, except: Option<
    i32,
>) -> bool {
    exists|k: i32|
        #[trigger] m.contains_key(k) && Some(k) != except && m[k].room_name.name@ == room
            && m[k].date == date
}

/// `v` lists the values of `m`, each entry once, in some order.
pub open spec fn lists_values<K, V>(v: Seq<V>, m: Map<K, V>) -> bool {
    exists|s: Seq<(K, V)>| lists_entries(s, m) && v == s.map_values(|p: (K, V)| p.1)
}

/// Relies on `DashMap::new`: an empty map.
#[verifier::external_body]
fn new_user_map() -> (r: UserMap)
    ensures
        user_entries(r).dom() == Set::<u128>::empty(),
{
    DashMap::new()
}

/// Relies on `DashMap::insert`: the key now maps to the value, other keys unchanged.
#[verifier::external_body]
fn user_map_insert(m: &mut DashMap<u128, User>, k: u128, v: User)
    ensures
        user_entries(*final(m)) == user_entries(*old(m)).insert(k, v),
{
    m.insert(k, v);
}

/// Relies on `DashMap::remove`: the key is gone, other keys unchanged.
#[verifier::external_body]
fn user_map_remove(m: &mut DashMap<u128, User>, k: u128)
    ensures
        user_entries(*final(m)) == user_entries(*old(m)).remove(k),
{
    m.remove(&k);
}

/// Relies on `DashMap::iter`, which visits every entry once: each key with a clone of its value.
#[verifier::external_body]
fn user_map_pairs(m: &DashMap<u128, User>) -> (r: Vec<(u128, User)>)
    ensures
        lists_entries(r@, user_entries(*m)),
{
    m.iter().map(|e| (*e.key(), e.value().clone())).collect()
}

/// The users held in memory, by identity.
pub struct UserCache {
    entries: DashMap<u128, User>,
}

impl View for UserCache {
    type V = Map<u128, User>;

    closed spec fn view(&self) -> Map<u128, User> {
        user_entries(self.entries)
    }
}

impl UserCache {
    /// An empty cache.
    pub fn new() -> (r: Self)
        ensures
            r@ == Map::<u128, User>::empty(),
    {
        let r = UserCache { entries: new_user_map() };
        assert(r@ =~= Map::<u128, User>::empty());
        r
    }

    /// Adds `user` under its identity; a no-op if that very entry is already there.
    pub fn insert(&mut self, user: User)
        ensures
            final(self)@ == old(self)@.insert(user.user_id.id, user),
    {
        let k = user.user_id.id;
        user_map_insert(&mut self.entries, k, user);
    }

    /// Removes the user with identity `id`, if any.
    pub fn remove(&mut self, id: u128)
        ensures
            final(self)@ == old(self)@.remove(id),
    {
        user_map_remove(&mut self.entries, id);
    }

    /// A point-in-time copy of every entry, as (identity, user) pairs.
    pub fn snapshot(&self) -> (r: Vec<(u128, User)>)
        ensures
            lists_entries(r@, self@),
    {
        user_map_pairs(&self.entries)
    }

    /// The user with identity `id`, if cached.
    pub fn get(&self, id: u128) -> (r: Option<User>)
        ensures
            r == (if self@.contains_key(id) { Some(self@[id]) } else { None::<User> }),
    {
        let pairs = self.snapshot();
        let mut i: usize = 0;
        while i < pairs.len()
            invariant
                lists_entries(pairs@, self@),
                i <= pairs@.len(),
                forall|j: int| 0 <= j < i ==> pairs@[j].0 != id,
            decreases pairs@.len() - i,
        {
            if pairs[i].0 == id {
                return Some(pairs[i].1.clone());
            }
            i = i + 1;
        }
        None
    }

    /// Every cached user, in some order.
    pub fn values(&self) -> (r: Vec<User>)
        ensures
            lists_values(r@, self@),
    {
        let pairs = self.snapshot();
        let mut out: Vec<User> = Vec::new();
        let mut i: usize = 0;
        while i < pairs.len()
            invariant
                lists_entries(pairs@, self@),
                i <= pairs@.len(),
                out@ == pairs@.take(i as int).map_values(|p: (u128, User)| p.1),
            decreases pairs@.len() - i,
        {
            out.push(pairs[i].1.clone());
            i = i + 1;
            assert(pairs@.take(i as int) == pairs@.take(i - 1).push(pairs@[i - 1]));
        }
        assert(pairs@.take(pairs@.len() as int) == pairs@);
        out
    }

    /// A cached user named `name`, with its identity, if there is one.
    pub fn find_by_name(&self, name: &UserName) -> (r: Option<(u128, User)>)
        ensures
            r is None <==> !some_user_named(self@, name.name@),
            r matches Some((k, u)) ==> self@.contains_key(k) && self@[k] == u
                && u.user_name.name@ == name.name@,
    {
        let pairs = self.snapshot();
        let mut i: usize = 0;
        while i < pairs.len()
            invariant
                lists_entries(pairs@, self@),
                i <= pairs@.len(),
                forall|j: int| 0 <= j < i ==> pairs@[j].1.user_name.name@ != name.name@,
            decreases pairs@.len() - i,
        {
            if pairs[i].1.user_name.name == name.name {
                assert(self@.contains_key(pairs@[i as int].0));
                return Some((pairs[i].0, pairs[i].1.clone()));
            }
            i = i + 1;
        }
        proof {
            assert forall|k: u128| #[trigger] self@.contains_key(k) implies self@[k].user_name.name@
                != name.name@ by {
                let j = choose|j: int| 0 <= j < pairs@.len() && pairs@[j].0 == k;
                assert(pairs@[j].1 == self@[k]);
            }
        }
        None
    }

}

/// What a map of rooms holds, by number.
pub uninterp spec fn room_entries(m: DashMap<i32, Room>) -> Map<i32, Room>;

/// The concurrent map behind the room cache.
pub type RoomMap = DashMap<i32, Room>;

/// Relies on `DashMap::new`: an empty map.
#[verifier::external_body]
fn new_room_map() -> (r: RoomMap)
    ensures
        room_entries(r).dom() == Set::<i32>::empty(),
{
    DashMap::new()
}

/// Relies on `DashMap::insert`: the key now maps to the value, other keys unchanged.
#[verifier::external_body]
fn room_map_insert(m: &mut DashMap<i32, Room>, k: i32, v: Room)
    ensures
        room_entries(*final(m)) == room_entries(*old(m)).insert(k, v),
{
    m.insert(k, v);
}

/// Relies on `DashMap::remove`: the key is gone, other keys unchanged.
#[verifier::external_body]
fn room_map_remove(m: &mut DashMap<i32, Room>, k: i32)
    ensures
        room_entries(*final(m)) == room_entries(*old(m)).remove(k),
{
    m.remove(&k);
}

/// Relies on `DashMap::iter`, which visits every entry once: each key with a clone of its value.
#[verifier::external_body]
fn room_map_pairs(m: &DashMap<i32, Room>) -> (r: Vec<(i32, Room)>)
    ensures
        lists_entries(r@, room_entries(*m)),
{
    m.iter().map(|e| (*e.key(), e.value().clone())).collect()
}

/// The rooms held in memory, by number.
pub struct RoomCache {
    entries: DashMap<i32, Room>,
}

impl View for RoomCache {
    type V = Map<i32, Room>;

    closed spec fn view(&self) -> Map<i32, Room> {
        room_entries(self.entries)
    }
}

impl RoomCache {
    /// An empty cache.
    pub fn new() -> (r: Self)
        ensures
            r@ == Map::<i32, Room>::empty(),
    {
        let r = RoomCache { entries: new_room_map() };
        assert(r@ =~= Map::<i32, Room>::empty());
        r
    }

    /// Adds `room` under its number; a no-op if that very entry is already there.
    pub fn insert(&mut self, room: Room)
        ensures
            final(self)@ == old(self)@.insert(room.id, room),
    {
        let k = room.id;
        room_map_insert(&mut self.entries, k, room);
    }

    /// Removes the room numbered `id`, if any.
    pub fn remove(&mut self, id: i32)
        ensures
            final(self)@ == old(self)@.remove(id),
    {
        room_map_remove(&mut self.entries, id);
    }

    /// A point-in-time copy of every entry, as (number, room) pairs.
    pub fn snapshot(&self) -> (r: Vec<(i32, Room)>)
        ensures
            lists_entries(r@, self@),
    {
        room_map_pairs(&self.entries)
    }

    /// The room numbered `id`, if cached.
    pub fn get(&self, id: i32) -> (r: Option<Room>)
        ensures
            r == (if self@.contains_key(id) { Some(self@[id]) } else { None::<Room> }),
    {
        let pairs = self.snapshot();
        let mut i: usize = 0;
        while i < pairs.len()
            invariant
                lists_entries(pairs@, self@),
                i <= pairs@.len(),
                forall|j: int| 0 <= j < i ==> pairs@[j].0 != id,
            decreases pairs@.len() - i,
        {
            if pairs[i].0 == id {
                return Some(pairs[i].1.clone());
            }
            i = i + 1;
        }
        None
    }

    /// Every cached room, in some order.
    pub fn values(&self) -> (r: Vec<Room>)
        ensures
            lists_values(r@, self@),
    {
        let pairs = self.snapshot();
        let mut out: Vec<Room> = Vec::new();
        let mut i: usize = 0;
        while i < pairs.len()
            invariant
                lists_entries(pairs@, self@),
                i <= pairs@.len(),
                out@ == pairs@.take(i as int).map_values(|p: (i32, Room)| p.1),
            decreases pairs@.len() - i,
        {
            out.push(pairs[i].1.clone());
            i = i + 1;
            assert(pairs@.take(i as int) == pairs@.take(i - 1).push(pairs@[i - 1]));
        }
        assert(pairs@.take(pairs@.len() as int) == pairs@);
        out
    }

    /// A cached room named `name`, with its number, if there is one.
    pub fn find_by_name(&self, name: &RoomName) -> (r: Option<(i32, Room)>)
        ensures
            r is None <==> !some_room_named(self@, name.name@),
            r matches Some((k, u)) ==> self@.contains_key(k) && self@[k] == u
                && u.room_name.name@ == name.name@,
    {
        let pairs = self.snapshot();
        let mut i: usize = 0;
        while i < pairs.len()
            invariant
                lists_entries(pairs@, self@),
                i <= pairs@.len(),
                forall|j: int| 0 <= j < i ==> pairs@[j].1.room_name.name@ != name.name@,
            decreases pairs@.len() - i,
        {
            if pairs[i].1.room_name.name == name.name {
                assert(self@.contains_key(pairs@[i as int].0));
                return Some((pairs[i].0, pairs[i].1.clone()));
            }
            i = i + 1;
        }
        proof {
            assert forall|k: i32| #[trigger] self@.contains_key(k) implies self@[k].room_name.name@
                != name.name@ by {
                let j = choose|j: int| 0 <= j < pairs@.len() && pairs@[j].0 == k;
                assert(pairs@[j].1 == self@[k]);
            }
        }
        None
    }

}

/// What a map of bookings holds, by number.
pub uninterp spec fn book_entries(m: DashMap<i32, Book>) -> Map<i32, Book>;

/// The concurrent map behind the booking cache.
pub type BookMap = DashMap<i32, Book>;

/// Relies on `DashMap::new`: an empty map.
#[verifier::external_body]
fn new_book_map() -> (r: BookMap)
    ensures
        book_entries(r).dom() == Set::<i32>::empty(),
{
    DashMap::new()
}

/// Relies on `DashMap::insert`: the key now maps to the value, other keys unchanged.
#[verifier::external_body]
fn book_map_insert(m: &mut DashMap<i32, Book>, k: i32, v: Book)
    ensures
        book_entries(*final(m)) == book_entries(*old(m)).insert(k, v),
{
    m.insert(k, v);
}

/// Relies on `DashMap::remove`: the key is gone, other keys unchanged.
#[verifier::external_body]
fn book_map_remove(m: &mut DashMap<i32, Book>, k: i32)
    ensures
        book_entries(*final(m)) == book_entries(*old(m)).remove(k),
{
    m.remove(&k);
}

/// Relies on `DashMap::iter`, which visits every entry once: each key with a clone of its value.
#[verifier::external_body]
fn book_map_pairs(m: &DashMap<i32, Book>) -> (r: Vec<(i32, Book)>)
    ensures
        lists_entries(r@, book_entries(*m)),
{
    m.iter().map(|e| (*e.key(), e.value().clone())).collect()
}

/// The bookings held in memory, by number.
pub struct BookingCache {
    entries: DashMap<i32, Book>,
}

impl View for BookingCache {
    type V = Map<i32, Book>;

    closed spec fn view(&self) -> Map<i32, Book> {
        book_entries(self.entries)
    }
}

impl BookingCache {
    /// An empty cache.
    pub fn new() -> (r: Self)
        ensures
            r@ == Map::<i32, Book>::empty(),
    {
        let r = BookingCache { entries: new_book_map() };
        assert(r@ =~= Map::<i32, Book>::empty());
        r
    }

    /// Adds `book` under its number; a no-op if that very entry is already there.
    pub fn insert(&mut self, book: Book)
        ensures
            final(self)@ == old(self)@.insert(book.id, book),
    {
        let k = book.id;
        book_map_insert(&mut self.entries, k, book);
    }

    /// Removes the booking numbered `id`, if any.
    pub fn remove(&mut self, id: i32)
        ensures
            final(self)@ == old(self)@.remove(id),
    {
        book_map_remove(&mut self.entries, id);
    }

    /// A point-in-time copy of every entry, as (number, booking) pairs.
    pub fn snapshot(&self) -> (r: Vec<(i32, Book)>)
        ensures
            lists_entries(r@, self@),
    {
        book_map_pairs(&self.entries)
    }

    /// The booking numbered `id`, if cached.
    pub fn get(&self, id: i32) -> (r: Option<Book>)
        ensures
            r == (if self@.contains_key(id) { Some(self@[id]) } else { None::<Book> }),
    {
        let pairs = self.snapshot();
        let mut i: usize = 0;
        while i < pairs.len()
            invariant
                lists_entries(pairs@, self@),
                i <= pairs@.len(),
                forall|j: int| 0 <= j < i ==> pairs@[j].0 != id,
            decreases pairs@.len() - i,
        {
            if pairs[i].0 == id {
                return Some(pairs[i].1.clone());
            }
            i = i + 1;
        }
        None
    }

    /// Every cached booking, in some order.
    pub fn values(&self) -> (r: Vec<Book>)
        ensures
            lists_values(r@, self@),
    {
        let pairs = self.snapshot();
        let mut out: Vec<Book> = Vec::new();
        let mut i: usize = 0;
        while i < pairs.len()
            invariant
                lists_entries(pairs@, self@),
                i <= pairs@.len(),
                out@ == pairs@.take(i as int).map_values(|p: (i32, Book)| p.1),
            decreases pairs@.len() - i,
        {
            out.push(pairs[i].1.clone());
            i = i + 1;
            assert(pairs@.take(i as int) == pairs@.take(i - 1).push(pairs@[i - 1]));
        }
        assert(pairs@.take(pairs@.len() as int) == pairs@);
        out
    }

    /// Whether a cached booking other than number `except` holds `room` on `date`.
    pub fn slot_taken(&self, room: &RoomName, date: &BookDate, except: Option<i32>) -> (r: bool)
        ensures
            r == slot_taken(self@, room.name@, *date, except),
    {
        let pairs = self.snapshot();
        let mut i: usize = 0;
        while i < pairs.len()
            invariant
                lists_entries(pairs@, self@),
                i <= pairs@.len(),
                forall|j: int|
                    0 <= j < i ==> !(Some(pairs@[j].0) != except && pairs@[j].1.room_name.name@
                        == room.name@ && pairs@[j].1.date == *date),
            decreases pairs@.len() - i,
        {
            let other = match except {
                Some(x) => pairs[i].0 != x,
                None => true,
            };
            if other && pairs[i].1.date == *date && pairs[i].1.room_name.name == room.name {
                assert(self@.contains_key(pairs@[i as int].0));
                return true;
            }
            i = i + 1;
        }
        proof {
            assert forall|k: i32| #[trigger] self@.contains_key(k) implies !(Some(k) != except
                && self@[k].room_name.name@ == room.name@ && self@[k].date == *date) by {
                let j = choose|j: int| 0 <= j < pairs@.len() && pairs@[j].0 == k;
                assert(pairs@[j].1 == self@[k]);
            }
        }
        false
    }

}

} // verus!
