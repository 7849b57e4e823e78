//! Properties that span several operations, proved from the operations' contracts.
use vstd::prelude::*;

use crate::book_service::{booking_check, booking_effect, no_double_booking};
use crate::cache::{slot_taken, some_room_named, some_user_named};
use crate::domain::{
    date_outcome, normalized_room_name, room_name_outcome, user_name_outcome, Book, BookDate, Room,
    User,
};
use crate::error::{ErrBook, ErrRoom, ErrService};
use crate::room_service::room_added;

verus! {

/// Inserting the same entry into a cache twice leaves what one insertion
/// leaves: a single entry under its key, holding that entity.
pub proof fn lemma_insert_idempotent<K, V>(entries: Map<K, V>, key: K, entity: V)
    ensures
        entries.insert(key, entity).insert(key, entity) == entries.insert(key, entity),
        entries.insert(key, entity).contains_key(key),
        entries.insert(key, entity)[key] == entity,
{
    assert(entries.insert(key, entity).insert(key, entity) =~= entries.insert(key, entity));
}

/// Once a room has been added, adding a second room whose name normalizes to
/// the same text, whatever its casing or surrounding whitespace, fails with
/// `AlreadyExist` and leaves cache and store as they were.
pub proof fn lemma_second_add_room_refused(
    c0: Map<i32, Room>,
    s0: Map<i32, Room>,
    c1: Map<i32, Room>,
    s1: Map<i32, Room>,
    c2: Map<i32, Room>,
    s2: Map<i32, Room>,
    first: Seq<char>,
    second: Seq<char>,
    r1: Result<Room, ErrService>,
    r2: Result<Room, ErrService>,
)
    requires
        room_added(c0, s0, c1, s1, first, r1),
        r1 is Ok,
        room_added(c1, s1, c2, s2, second, r2),
        normalized_room_name(first) == normalized_room_name(second),
    ensures
        r2 == Err::<Room, ErrService>(ErrService::Room(ErrRoom::AlreadyExist)),
        c2 == c1,
        s2 == s1,
{
    let x = r1->Ok_0;
    assert(c1.contains_key(x.id) && c1[x.id] == x);
    assert(some_room_named(c1, normalized_room_name(second)));
}

/// Once room `room` is booked on a day, a second request for the same room
/// (same normalized name) on the same day fails with `AlreadyBooked` and
/// changes nothing, for any user, as long as its earlier checks pass.
pub proof fn lemma_second_booking_refused(
    c0: Map<i32, Book>,
    s0: Map<i32, Book>,
    c1: Map<i32, Book>,
    s1: Map<i32, Book>,
    c2: Map<i32, Book>,
    s2: Map<i32, Book>,
    rooms: Map<i32, Room>,
    users: Map<u128, User>,
    rooms2: Map<i32, Room>,
    users2: Map<u128, User>,
    room: Seq<char>,
    user: Seq<char>,
    date: Seq<char>,
    today: BookDate,
    room2: Seq<char>,
    user2: Seq<char>,
    date2: Seq<char>,
    today2: BookDate,
    r1: Result<Book, ErrService>,
    r2: Result<Book, ErrService>,
)
    requires
        booking_effect(booking_check(c0, rooms, users, room, user, date, today), c0, s0, c1, s1, r1),
        r1 is Ok,
        booking_effect(
            booking_check(c1, rooms2, users2, room2, user2, date2, today2),
            c1,
            s1,
            c2,
            s2,
            r2,
        ),
        room_name_outcome(room2) == room_name_outcome(room),
        date_outcome(date2) == date_outcome(date),
        user_name_outcome(user2) matches Ok(un) && some_user_named(users2, un),
        date_outcome(date2) matches Ok(d) && !d.precedes(today2),
        room_name_outcome(room2) matches Ok(rn) && some_room_named(rooms2, rn),
    ensures
        r2 == Err::<Book, ErrService>(ErrService::Book(ErrBook::AlreadyBooked)),
        c2 == c1,
        s2 == s1,
{
    let b = r1->Ok_0;
    assert(c1.contains_key(b.id) && c1[b.id] == b);
    let rn = room_name_outcome(room)->Ok_0;
    let d = date_outcome(date)->Ok_0;
    assert(slot_taken(c1, rn, d, None));
}

/// A booking request whose date parses and is not before `today`, and whose
/// room and user names are valid.
pub open spec fn request_well_formed(
    room: Seq<char>,
    user: Seq<char>,
    date: Seq<char>,
    today: BookDate,
) -> bool {
    &&& date_outcome(date) is Ok
    &&& !date_outcome(date)->Ok_0.precedes(today)
    &&& room_name_outcome(room) is Ok
    &&& user_name_outcome(user) is Ok
}

/// Booking a room or for a user that is not cached never writes: the cache and
/// the store stay as they were. When the date and both names are valid and the
/// date is not past, the failure names what is missing, the room first.
pub proof fn lemma_booking_needs_known_room_and_user(
    c0: Map<i32, Book>,
    s0: Map<i32, Book>,
    c1: Map<i32, Book>,
    s1: Map<i32, Book>,
    rooms: Map<i32, Room>,
    users: Map<u128, User>,
    room: Seq<char>,
    user: Seq<char>,
    date: Seq<char>,
    today: BookDate,
    r: Result<Book, ErrService>,
)
    requires
        booking_effect(booking_check(c0, rooms, users, room, user, date, today), c0, s0, c1, s1, r),
        (room_name_outcome(room) matches Ok(rn) && !some_room_named(rooms, rn)) || (user_name_outcome(
            user,
        ) matches Ok(un) && !some_user_named(users, un)),
    ensures
        r is Err,
        c1 == c0,
        s1 == s0,
        request_well_formed(room, user, date, today) && !some_room_named(
            rooms,
            room_name_outcome(room)->Ok_0,
        ) ==> r == Err::<Book, ErrService>(ErrService::Book(ErrBook::RoomNotFound)),
        request_well_formed(room, user, date, today) && some_room_named(
            rooms,
            room_name_outcome(room)->Ok_0,
        ) && !some_user_named(users, user_name_outcome(user)->Ok_0) ==> r == Err::<Book, ErrService>(
            ErrService::Book(ErrBook::UserNotFound),
        ),
{
}

/// Booking a date that parses but lies strictly before the current day fails
/// with a validation error (a refused name, checked first, or `InvalidDate`)
/// and writes nothing.
pub proof fn lemma_past_date_refused(
    c0: Map<i32, Book>,
    s0: Map<i32, Book>,
    c1: Map<i32, Book>,
    s1: Map<i32, Book>,
    rooms: Map<i32, Room>,
    users: Map<u128, User>,
    room: Seq<char>,
    user: Seq<char>,
    date: Seq<char>,
    today: BookDate,
    r: Result<Book, ErrService>,
)
    requires
        booking_effect(booking_check(c0, rooms, users, room, user, date, today), c0, s0, c1, s1, r),
        date_outcome(date) matches Ok(d) && d.precedes(today),
    ensures
        c1 == c0,
        s1 == s0,
        r matches Err(e) && (e == ErrService::Book(ErrBook::InvalidDate) || e is Domain),
        (room_name_outcome(room) is Ok && user_name_outcome(user) is Ok) ==> r == Err::<
            Book,
            ErrService,
        >(ErrService::Book(ErrBook::InvalidDate)),
{
}

/// A cache without double bookings keeps none after a booking request,
/// whatever its outcome.
pub proof fn lemma_booking_keeps_slots_single(
    c0: Map<i32, Book>,
    s0: Map<i32, Book>,
    c1: Map<i32, Book>,
    s1: Map<i32, Book>,
    rooms: Map<i32, Room>,
    users: Map<u128, User>,
    room: Seq<char>,
    user: Seq<char>,
    date: Seq<char>,
    today: BookDate,
    r: Result<Book, ErrService>,
)
    requires
        booking_effect(booking_check(c0, rooms, users, room, user, date, today), c0, s0, c1, s1, r),
        no_double_booking(c0),
    ensures
        no_double_booking(c1),
{
    if r is Ok {
        let b = r->Ok_0;
        assert forall|a: i32, k: i32|
            #[trigger] c1.contains_key(a) && #[trigger] c1.contains_key(k) && a != k implies !(
            c1[a].room_name.name@ == c1[k].room_name.name@ && c1[a].date == c1[k].date) by {
            if a == b.id || k == b.id {
                let o = if a == b.id { k } else { a };
                assert(c0.contains_key(o));
            }
        }
    }
}

} // verus!
