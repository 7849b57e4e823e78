//! Startup: fill every cache from its store before the service takes requests.
use vstd::prelude::*;

use crate::book_service::BookService;
use crate::domain::{Book, Room, User};
use crate::error::ErrService;
use crate::repo::{lists_books, lists_rooms, lists_users, BookRepo, RoomRepo, UserRepo};
use crate::room_service::RoomService;
use crate::user_service::UserService;

verus! {

/// What a listing gave, its rows set aside.
pub open spec fn outcome<V>(listed: Result<V, ErrService>) -> Result<(), ErrService> {
    match listed {
        Ok(_) => Ok(()),
        Err(e) => Err(e),
    }
}

/// How loading the user, room and booking caches, in that order, moved them
/// from (`u0`, `r0`, `b0`) to (`u1`, `r1`, `b1`) given what each listing gave
/// (`lu`, `lr`, `lb`) and the stored rows (`su`, `sr`, `sb`): each listing that
/// succeeded fills its cache, the first that failed stops the loading and its
/// error is the result, and the caches after it are left as they were.
pub open spec fn loading_effect(
    u0: Map<u128, User>,
    su: Map<u128, User>,
    u1: Map<u128, User>,
    r0: Map<i32, Room>,
    sr: Map<i32, Room>,
    r1: Map<i32, Room>,
    b0: Map<i32, Book>,
    sb: Map<i32, Book>,
    b1: Map<i32, Book>,
    lu: Result<(), ErrService>,
    lr: Result<(), ErrService>,
    lb: Result<(), ErrService>,
    r: Result<(), ErrService>,
) -> bool {
    match lu {
        Err(e) => r == Err::<(), ErrService>(e) && u1 == u0 && r1 == r0 && b1 == b0,
        Ok(_) => u1 == filled(u0, su) && match lr {
            Err(e) => r == Err::<(), ErrService>(e) && r1 == r0 && b1 == b0,
            Ok(_) => r1 == filled(r0, sr) && match lb {
                Err(e) => r == Err::<(), ErrService>(e) && b1 == b0,
                Ok(_) => r is Ok && b1 == filled(b0, sb),
            },
        },
    }
}

/// Loads the listings `users`, `rooms` and `books` into their caches, as
/// `loading_effect` describes.
pub fn load_caches<U: UserRepo, R: RoomRepo, B: BookRepo>(
    user_service: &mut UserService<U>,
    room_service: &mut RoomService<R>,
    book_service: &mut BookService<B>,
    users: Result<Vec<User>, ErrService>,
    rooms: Result<Vec<Room>, ErrService>,
    books: Result<Vec<Book>, ErrService>,
) -> (r: Result<(), ErrService>)
    requires
        users matches Ok(v) ==> lists_users(v@, old(user_service).stored()),
        rooms matches Ok(v) ==> lists_rooms(v@, old(room_service).stored()),
        books matches Ok(v) ==> lists_books(v@, old(book_service).stored()),
    ensures
        final(user_service).repo() == old(user_service).repo(),
        final(room_service).repo() == old(room_service).repo(),
        final(book_service).repo() == old(book_service).repo(),
        loading_effect(
            old(user_service).cached(),
            old(user_service).stored(),
            final(user_service).cached(),
            old(room_service).cached(),
            old(room_service).stored(),
            final(room_service).cached(),
            old(book_service).cached(),
            old(book_service).stored(),
            final(book_service).cached(),
            outcome(users),
            outcome(rooms),
            outcome(books),
            r,
        ),
{
    match user_service.load_listed(users) {
        Ok(_) => {},
        Err(e) => return Err(e),
    }
    match room_service.load_listed(rooms) {
        Ok(_) => {},
        Err(e) => return Err(e),
    }
    book_service.load_listed(books)
}

/// Fills the user, room and booking caches from their stores at startup.
/// The stores are listed in that order and listing stops at the first store
/// failure; the listings are then loaded by `load_caches`, so that failure is
/// the result and only the caches before it are filled.
pub fn try_init_caches<U: UserRepo, R: RoomRepo, B: BookRepo>(
    user_service: &mut UserService<U>,
    room_service: &mut RoomService<R>,
    book_service: &mut BookService<B>,
) -> (r: Result<(), ErrService>)
    ensures
        final(user_service).stored() == old(user_service).stored(),
        final(room_service).stored() == old(room_service).stored(),
        final(book_service).stored() == old(book_service).stored(),
        exists|lu: Result<(), ErrService>, lr: Result<(), ErrService>, lb: Result<(), ErrService>|
            #[trigger] loading_effect(
                old(user_service).cached(),
                old(user_service).stored(),
                final(user_service).cached(),
                old(room_service).cached(),
                old(room_service).stored(),
                final(room_service).cached(),
                old(book_service).cached(),
                old(book_service).stored(),
                final(book_service).cached(),
                lu,
                lr,
                lb,
                r,
            ),
        (r is Ok && old(user_service).cached().dom().is_empty() && old(
            room_service,
        ).cached().dom().is_empty() && old(book_service).cached().dom().is_empty())
            ==> final(user_service).mirrored() && final(room_service).mirrored()
            && final(book_service).mirrored(),
{
    let users = user_service.list_users();
    let rooms = match &users {
        Ok(_) => room_service.list_rooms(),
        Err(e) => Err(*e),
    };
    let books = match &rooms {
        Ok(_) => book_service.list_book(),
        Err(e) => Err(*e),
    };
    let r = load_caches(user_service, room_service, book_service, users, rooms, books);
    proof {
        if r is Ok {
            if old(user_service).cached().dom().is_empty() {
                assert(user_service.cached() =~= user_service.stored());
            }
            if old(room_service).cached().dom().is_empty() {
                assert(room_service.cached() =~= room_service.stored());
            }
            if old(book_service).cached().dom().is_empty() {
                assert(book_service.cached() =~= book_service.stored());
            }
        }
    }
    r
}

/// A cache `cached` after every row of `stored` has been loaded into it.
pub open spec fn filled<K, V>(cached: Map<K, V>, stored: Map<K, V>) -> Map<K, V> {
    cached.union_prefer_right(stored)
}

} // verus!
