//! Rooms: validation, cache-assisted conflict checks, then the store, then the cache.
use vstd::prelude::*;

use crate::cache::{lists_values, some_room_named, RoomCache};
use crate::domain::{room_name_outcome, Room, RoomName};
use crate::error::{ErrRepo, ErrRoom, ErrService};
use crate::repo::{lists_rooms, RoomRepo};

verus! {

/// No two entries of `m` share a room name.
pub open spec fn room_names_unique(m: Map<i32, Room>) -> bool {
    forall|a: i32, b: i32|
        #[trigger] m.contains_key(a) && #[trigger] m.contains_key(b) && a != b ==> m[a].room_name.name@
            != m[b].room_name.name@
}

/// How adding a room named after `raw` moved cache and store from (`c0`, `s0`)
/// to (`c1`, `s1`) and what it returned: an invalid name or one already cached
/// is refused and changes nothing; otherwise the stored room is cached too.
pub open spec fn room_added(
    c0: Map<i32, Room>,
    s0: Map<i32, Room>,
    c1: Map<i32, Room>,
    s1: Map<i32, Room>,
    raw: Seq<char>,
    r: Result<Room, ErrService>,
) -> bool {
    match room_name_outcome(raw) {
        Err(e) => r == Err::<Room, ErrService>(ErrService::Domain(e)) && c1 == c0 && s1 == s0,
        Ok(n) => if some_room_named(c0, n) {
            r == Err::<Room, ErrService>(ErrService::Room(ErrRoom::AlreadyExist)) && c1 == c0 && s1
                == s0
        } else {
            match r {
                Ok(x) => x.room_name.name@ == n && !s0.contains_key(x.id) && s1 == s0.insert(x.id, x)
                    && c1 == c0.insert(x.id, x),
                Err(_) => c1 == c0 && s1 == s0,
            }
        },
    }
}

/// How renaming the room called `from` to `to` moved cache and store from
/// (`c0`, `s0`) to (`c1`, `s1`) and what it returned. Invalid names, an unknown
/// room and a name already taken are refused and change nothing; so does a
/// failed store write.
pub open spec fn room_renamed(
    c0: Map<i32, Room>,
    s0: Map<i32, Room>,
    c1: Map<i32, Room>,
    s1: Map<i32, Room>,
    from: Seq<char>,
    to: Seq<char>,
    r: Result<Room, ErrService>,
) -> bool {
    let unchanged = c1 == c0 && s1 == s0;
    match (room_name_outcome(from), room_name_outcome(to)) {
        (Err(e), _) => r == Err::<Room, ErrService>(ErrService::Domain(e)) && unchanged,
        (Ok(_), Err(e)) => r == Err::<Room, ErrService>(ErrService::Domain(e)) && unchanged,
        (Ok(o), Ok(n)) => if !some_room_named(c0, o) {
            r == Err::<Room, ErrService>(ErrService::Room(ErrRoom::RoomNotFound)) && unchanged
        } else if some_room_named(c0, n) {
            r == Err::<Room, ErrService>(ErrService::Room(ErrRoom::AlreadyExist)) && unchanged
        } else {
            match r {
                Ok(x) => c0.contains_key(x.id) && c0[x.id].room_name.name@ == o
                    && x.room_name.name@ == n && s0.contains_key(x.id) && s1 == s0.insert(x.id, x)
                    && c1 == c0.insert(x.id, x),
                Err(_) => unchanged,
            }
        },
    }
}

/// The room service: a store of rooms and the cache that mirrors it.
pub struct RoomService<T> {
    repo: T,
    cache: RoomCache,
}

impl<T> RoomService<T> {
    /// The store behind the service.
    pub closed spec fn repo(&self) -> T {
        self.repo
    }

    /// The cached rooms, by number.
    pub closed spec fn cached(&self) -> Map<i32, Room> {
        self.cache@
    }

    /// A service over `repo` with an empty cache; `populate_cache` fills it.
    pub fn new(repo: T) -> (r: Self)
        ensures
            r.repo() == repo,
            r.cached() == Map::<i32, Room>::empty(),
    {
        RoomService { repo, cache: RoomCache::new() }
    }
}

impl<T: RoomRepo> RoomService<T> {
    /// The stored rooms, by number.
    pub open spec fn stored(&self) -> Map<i32, Room> {
        self.repo().room_rows()
    }

    /// The cache holds exactly the stored rooms.
    pub open spec fn mirrored(&self) -> bool {
        self.cached() == self.stored()
    }

    /// Neither the cache nor the store differs between `self` and `other`.
    pub open spec fn same_as(&self, other: &Self) -> bool {
        self.cached() == other.cached() && self.stored() == other.stored()
    }

    /// Creates a room named after `room`, refusing a name that is invalid or
    /// already cached; the store picks its number.
    pub fn add_room(&mut self, room: &str) -> (r: Result<Room, ErrService>)
        ensures
            room_added(
                old(self).cached(),
                old(self).stored(),
                final(self).cached(),
                final(self).stored(),
                room@,
                r,
            ),
            old(self).mirrored() ==> final(self).mirrored(),
            room_names_unique(old(self).cached()) ==> room_names_unique(final(self).cached()),
    {
        let candidate = match Room::new(room) {
            Ok(x) => x,
            Err(e) => return Err(ErrService::Domain(e)),
        };
        if self.cache.find_by_name(&candidate.room_name).is_some() {
            return Err(ErrService::Room(ErrRoom::AlreadyExist));
        }
        let answer = self.repo.insert_room(&candidate);
        self.record_write(answer)
    }

    /// Renames the cached room called `old_room` to `new_room`.
    pub fn update_room(&mut self, old_room: &str, new_room: &str) -> (r: Result<Room, ErrService>)
        ensures
            room_renamed(
                old(self).cached(),
                old(self).stored(),
                final(self).cached(),
                final(self).stored(),
                old_room@,
                new_room@,
                r,
            ),
            old(self).mirrored() ==> final(self).mirrored(),
            room_names_unique(old(self).cached()) ==> room_names_unique(final(self).cached()),
    {
        let old_r = match Room::new(old_room) {
            Ok(x) => x,
            Err(e) => return Err(ErrService::Domain(e)),
        };
        let new_r = match Room::new(new_room) {
            Ok(x) => x,
            Err(e) => return Err(ErrService::Domain(e)),
        };
        let (k, _current) = match self.cache.find_by_name(&old_r.room_name) {
            Some(p) => p,
            None => return Err(ErrService::Room(ErrRoom::RoomNotFound)),
        };
        if self.cache.find_by_name(&new_r.room_name).is_some() {
            return Err(ErrService::Room(ErrRoom::AlreadyExist));
        }
        let answer = self.repo.update_room(k, &new_r.room_name);
        self.record_write(answer)
    }

    /// Deletes the room numbered `room` from the store, then from the cache;
    /// what the store answers is settled by `record_delete`.
    pub fn delete_room_by_id(&mut self, room: i32) -> (r: Result<(), ErrService>)
        ensures
            match r {
                Ok(_) => old(self).stored().contains_key(room)
                    && final(self).stored() == old(self).stored().remove(room)
                    && final(self).cached() == old(self).cached().remove(room),
                Err(_) => final(self).same_as(old(self)),
            },
            !old(self).stored().contains_key(room) ==> r is Err,
            old(self).mirrored() ==> final(self).mirrored(),
            room_names_unique(old(self).cached()) ==> room_names_unique(final(self).cached()),
    {
        let answer = self.repo.delete_room_by_id(room);
        if answer matches Ok(false) {
            assert(self.stored() =~= old(self).stored());
        }
        self.record_delete(room, answer)
    }

    /// Records in the cache what the store answered to a write of a room: the
    /// stored room when the write succeeded; nothing when it failed, and its
    /// error is returned as it is.
    pub fn record_write(&mut self, answer: Result<Room, ErrService>) -> (r: Result<Room, ErrService>)
        ensures
            final(self).repo() == old(self).repo(),
            r == answer,
            match answer {
                Ok(x) => final(self).cached() == old(self).cached().insert(x.id, x),
                Err(_) => final(self).cached() == old(self).cached(),
            },
    {
        match answer {
            Ok(x) => {
                self.cache.insert(x.clone());
                Ok(x)
            },
            Err(e) => Err(e),
        }
    }

    /// Records in the cache what the store answered to deleting room `room`:
    /// `Ok(true)` drops it from the cache; `Ok(false)`, nothing deleted, gives
    /// `UnableToDelete`; a store error is returned as it is. Only a deletion
    /// touches the cache.
    pub fn record_delete(&mut self, room: i32, answer: Result<bool, ErrService>) -> (r: Result<(), ErrService>)
        ensures
            final(self).repo() == old(self).repo(),
            match answer {
                Ok(true) => r is Ok && final(self).cached() == old(self).cached().remove(room),
                Ok(false) => r == Err::<(), ErrService>(ErrService::Repo(ErrRepo::UnableToDelete))
                    && final(self).cached() == old(self).cached(),
                Err(e) => r == Err::<(), ErrService>(e) && final(self).cached() == old(self).cached(),
            },
    {
        match answer {
            Ok(found) => {
                if found {
                    self.cache.remove(room);
                    Ok(())
                } else {
                    Err(ErrService::Repo(ErrRepo::UnableToDelete))
                }
            },
            Err(e) => Err(e),
        }
    }

    /// Every stored room, as the store lists them.
    pub fn list_rooms(&self) -> (r: Result<Vec<Room>, ErrService>)
        ensures
            r matches Ok(v) ==> lists_rooms(v@, self.stored()),
    {
        self.repo.get_all_rooms()
    }

    /// Every cached room, in some order.
    pub fn list_cache_rooms(&self) -> (r: Result<Vec<Room>, ErrService>)
        ensures
            r matches Ok(v) && lists_values(v@, self.cached()),
    {
        Ok(self.cache.values())
    }

    /// Whether a cached room is named `room_name`; never consults the store.
    pub fn is_exist_room(&self, room_name: &RoomName) -> (r: Result<bool, ErrService>)
        ensures
            r == Ok::<bool, ErrService>(some_room_named(self.cached(), room_name.name@)),
    {
        Ok(self.cache.find_by_name(room_name).is_some())
    }

    /// The cached entry equal to `room`, number and name alike.
    pub fn get_cache_room_by_room_struct(&self, room: &Room) -> (r: Result<Room, ErrService>)
        ensures
            if self.cached().contains_key(room.id) && self.cached()[room.id].room_name.name@
                == room.room_name.name@ {
                r == Ok::<Room, ErrService>(self.cached()[room.id])
            } else {
                r == Err::<Room, ErrService>(ErrService::Room(ErrRoom::RoomNotFound))
            },
    {
        match self.cache.get(room.id) {
            Some(x) => {
                if x.room_name.name == room.room_name.name {
                    Ok(x)
                } else {
                    Err(ErrService::Room(ErrRoom::RoomNotFound))
                }
            },
            None => Err(ErrService::Room(ErrRoom::RoomNotFound)),
        }
    }

    /// The cached room numbered `room_id`, if any.
    pub fn get_room_by_id_on_cache(&self, room_id: i32) -> (r: Result<Option<Room>, ErrService>)
        ensures
            r == Ok::<Option<Room>, ErrService>(
                if self.cached().contains_key(room_id) {
                    Some(self.cached()[room_id])
                } else {
                    None
                },
            ),
    {
        Ok(self.cache.get(room_id))
    }

    /// Loads every stored room into the cache.
    pub fn populate_cache(&mut self) -> (r: Result<(), ErrService>)
        ensures
            final(self).stored() == old(self).stored(),
            match r {
                Ok(_) => final(self).cached() == old(self).cached().union_prefer_right(
                    old(self).stored(),
                ),
                Err(_) => final(self).cached() == old(self).cached(),
            },
    {
        let listed = self.repo.get_all_rooms();
        self.load_listed(listed)
    }

    /// Loads the store's listing `listed` into the cache: every listed room
    /// when the listing succeeded; nothing when it failed, and its error is
    /// returned as it is.
    pub fn load_listed(&mut self, listed: Result<Vec<Room>, ErrService>) -> (r: Result<(), ErrService>)
        requires
            listed matches Ok(v) ==> lists_rooms(v@, old(self).stored()),
        ensures
            final(self).repo() == old(self).repo(),
            match listed {
                Ok(_) => r is Ok && final(self).cached() == old(self).cached().union_prefer_right(
                    old(self).stored(),
                ),
                Err(e) => r == Err::<(), ErrService>(e) && final(self).cached() == old(self).cached(),
            },
    {
        let rooms = match listed {
            Ok(v) => v,
            Err(e) => return Err(e),
        };
        let ghost rows = self.stored();
        let ghost start = self.cache@;
        let mut i: usize = 0;
        while i < rooms.len()
            invariant
                self.stored() == rows,
                self.repo == old(self).repo,
                start == old(self).cache@,
                lists_rooms(rooms@, rows),
                i <= rooms@.len(),
                forall|k: i32|
                    #[trigger] self.cache@.contains_key(k) == (start.contains_key(k) || exists|j: int|
                        0 <= j < i && rooms@[j].id == k),
                forall|k: i32|
                    #[trigger] self.cache@.contains_key(k) ==> self.cache@[k] == if exists|j: int|
                        0 <= j < i && rooms@[j].id == k {
                        rows[k]
                    } else {
                        start[k]
                    },
            decreases rooms@.len() - i,
        {
            let x = rooms[i].clone();
            proof {
                assert(rows.contains_key(rooms@[i as int].id));
            }
            self.cache.insert(x);
            i = i + 1;
            proof {
                assert forall|k: i32| #[trigger] self.cache@.contains_key(k) implies self.cache@[k]
                    == if exists|j: int| 0 <= j < i && rooms@[j].id == k {
                    rows[k]
                } else {
                    start[k]
                } by {
                    if k == rooms@[i - 1].id {
                        assert(exists|j: int| 0 <= j < i && rooms@[j].id == k);
                    }
                }
            }
        }
        proof {
            assert forall|k: i32| #[trigger] rows.contains_key(k) implies exists|j: int|
                0 <= j < i && rooms@[j].id == k by {}
            assert(self.cache@ =~= start.union_prefer_right(rows));
        }
        Ok(())
    }
}

} // verus!
