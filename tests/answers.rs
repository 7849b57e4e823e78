use room_reservations::bootstrap::load_caches;
use room_reservations::domain::{Book, BookDate, Room, User, UserName};
use room_reservations::error::{ErrBook, ErrRepo, ErrService};
use room_reservations::memory::InMemoryRepo;
use room_reservations::repo::{BookRepo, RoomRepo, UserRepo};

#[test]
fn room_write_answers() {
    let mut rooms = InMemoryRepo::init_room_service();
    let mut library = Room::new("Library").unwrap();
    library.id = 3;
    assert_eq!(
        rooms.record_write(Err(ErrService::Repo(ErrRepo::Unreachable))),
        Err(ErrService::Repo(ErrRepo::Unreachable))
    );
    assert!(rooms.list_cache_rooms().unwrap().is_empty());
    assert_eq!(rooms.record_write(Ok(library.clone())), Ok(library.clone()));
    assert_eq!(rooms.get_room_by_id_on_cache(3).unwrap(), Some(library));
}

#[test]
fn room_delete_answers() {
    let mut rooms = InMemoryRepo::init_room_service();
    let library = rooms.add_room("Library").unwrap();
    assert_eq!(
        rooms.record_delete(library.id, Ok(false)),
        Err(ErrService::Repo(ErrRepo::UnableToDelete))
    );
    assert_eq!(
        rooms.record_delete(library.id, Err(ErrService::Repo(ErrRepo::BadRequest))),
        Err(ErrService::Repo(ErrRepo::BadRequest))
    );
    assert_eq!(rooms.list_cache_rooms().unwrap().len(), 1);
    assert_eq!(rooms.record_delete(library.id, Ok(true)), Ok(()));
    assert!(rooms.list_cache_rooms().unwrap().is_empty());
}

#[test]
fn user_answers() {
    let mut users = InMemoryRepo::init_user_service();
    let alice = users.add_user("alice").unwrap();
    let name = UserName::new("alice").unwrap();
    assert_eq!(users.record_delete(&name, Ok(false)), Err(ErrService::Repo(ErrRepo::UnableToDelete)));
    assert_eq!(
        users.record_write(Err(ErrService::Repo(ErrRepo::DoesntExist))),
        Err(ErrService::Repo(ErrRepo::DoesntExist))
    );
    assert_eq!(users.get_user_by_id_on_cache(alice.user_id).unwrap(), Some(alice.clone()));
    assert_eq!(users.record_delete(&name, Ok(true)), Ok(()));
    assert_eq!(users.get_user_by_id_on_cache(alice.user_id).unwrap(), None);
}

#[test]
fn booking_answers() {
    let mut books = InMemoryRepo::init_book_service();
    let mut b = Book::new("Library", "alice", BookDate { year: 2030, month: 1, day: 1 }).unwrap();
    b.id = 5;
    assert_eq!(books.record_write(Ok(b.clone())), Ok(b.clone()));
    assert_eq!(books.record_delete(5, Ok(false)), Err(ErrService::Repo(ErrRepo::UnableToDelete)));
    assert_eq!(
        books.record_delete(5, Err(ErrService::Book(ErrBook::InvalidID))),
        Err(ErrService::Book(ErrBook::InvalidID))
    );
    assert_eq!(books.record_clear(Ok(false)), Err(ErrService::Repo(ErrRepo::UnableToDelete)));
    assert_eq!(
        books.record_clear(Err(ErrService::Repo(ErrRepo::IsEmpty))),
        Err(ErrService::Repo(ErrRepo::IsEmpty))
    );
    assert_eq!(books.list_book_by_cache().unwrap(), vec![b]);
    assert_eq!(books.record_clear(Ok(true)), Ok(()));
    assert!(books.list_book_by_cache().unwrap().is_empty());
}

#[test]
fn loading_a_listing() {
    let mut store = InMemoryRepo::new();
    let library = store.insert_room(&Room::new("Library").unwrap()).unwrap();
    let mut rooms = room_reservations::room_service::RoomService::new(store);
    assert_eq!(
        rooms.load_listed(Err(ErrService::Repo(ErrRepo::Unreachable))),
        Err(ErrService::Repo(ErrRepo::Unreachable))
    );
    assert!(rooms.list_cache_rooms().unwrap().is_empty());
    let listed = rooms.list_rooms();
    assert_eq!(rooms.load_listed(listed), Ok(()));
    assert_eq!(rooms.list_cache_rooms().unwrap(), vec![library.clone()]);
    let again = rooms.list_rooms();
    assert_eq!(rooms.load_listed(again), Ok(()));
    assert_eq!(rooms.list_cache_rooms().unwrap(), vec![library]);
}

#[test]
fn loading_stops_at_the_first_failed_listing() {
    let mut user_store = InMemoryRepo::new();
    let alice = User::new("alice").unwrap();
    user_store.insert_user(&alice).unwrap();
    let mut room_store = InMemoryRepo::new();
    room_store.insert_room(&Room::new("Library").unwrap()).unwrap();
    let mut users = room_reservations::user_service::UserService::new(user_store);
    let mut rooms = room_reservations::room_service::RoomService::new(room_store);
    let mut books = InMemoryRepo::init_book_service();

    let lu = users.list_users();
    let r = load_caches(
        &mut users,
        &mut rooms,
        &mut books,
        lu,
        Err(ErrService::Repo(ErrRepo::Unreachable)),
        Err(ErrService::Repo(ErrRepo::BadRequest)),
    );
    assert_eq!(r, Err(ErrService::Repo(ErrRepo::Unreachable)));
    assert_eq!(users.get_user_by_id_on_cache(alice.user_id).unwrap(), Some(alice));
    assert!(rooms.list_cache_rooms().unwrap().is_empty());

    let lu = users.list_users();
    let lr = rooms.list_rooms();
    let lb = books.list_book();
    assert_eq!(load_caches(&mut users, &mut rooms, &mut books, lu, lr, lb), Ok(()));
    assert_eq!(rooms.list_cache_rooms().unwrap().len(), 1);
}
