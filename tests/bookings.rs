use room_reservations::book_service::BookService;
use room_reservations::booking::BookingService;
use room_reservations::bootstrap::try_init_caches;
use room_reservations::domain::{BookDate, Room, RoomName, User};
use room_reservations::error::{ErrBook, ErrDomain, ErrRepo, ErrRoom, ErrService};
use room_reservations::memory::InMemoryRepo;
use room_reservations::repo::{BookRepo, RoomRepo, UserRepo};
use room_reservations::room_service::RoomService;
use room_reservations::user_service::UserService;

fn default_users() -> (User, User) {
    (User::new("Carmen Test").unwrap(), User::new("Ibrahim Test").unwrap())
}

fn default_rooms() -> (Room, Room) {
    (Room::new("Test room1").unwrap(), Room::new("Test room2").unwrap())
}

fn init_reg_service() -> BookingService<InMemoryRepo> {
    BookingService::new(InMemoryRepo::new())
}

fn day(year: i32, month: u32, day: u32) -> BookDate {
    BookDate { year, month, day }
}

struct Desk {
    rooms: RoomService<InMemoryRepo>,
    users: UserService<InMemoryRepo>,
    books: BookService<InMemoryRepo>,
}

fn desk() -> Desk {
    let mut rooms = InMemoryRepo::init_room_service();
    let mut users = InMemoryRepo::init_user_service();
    rooms.add_room("Library").unwrap();
    rooms.add_room("Studio").unwrap();
    users.add_user("alice").unwrap();
    users.add_user("bob").unwrap();
    Desk { rooms, users, books: InMemoryRepo::init_book_service() }
}

#[test]
fn reg_service_test_add_and_list_book() {
    let mut reg_service = init_reg_service();
    let (room1, _room2) = default_rooms();
    let (user1, _user2) = default_users();

    let add_book_ok = reg_service.book_room(&room1, &user1, "01.02.52");
    assert!(add_book_ok.is_ok(), "Add book should be ok");
}

#[test]
fn reg_service_test_valid_and_unvalid_date_format() {
    assert!(BookDate::new("10.08.25").is_ok());
    assert!(BookDate::new("10/08/25").is_ok());

    assert!(BookDate::new("100825").is_err());
    assert!(BookDate::new("10/08/2025").is_err());
    assert!(BookDate::new("20.07.1987").is_err());
    assert!(BookDate::new("24.7.93").is_err());
    assert!(BookDate::new("21031962").is_err());
}

#[test]
fn reg_service_test_print_book() {
    let mut reg_service = init_reg_service();
    let (room1, _room2) = default_rooms();
    let (user1, _user2) = default_users();

    reg_service.book_room(&room1, &user1, "20.12.26").unwrap();

    assert!(reg_service.print_book().is_ok());
}

#[test]
fn reg_service_test_book_an_already_booked_room() {
    let mut reg_service = init_reg_service();
    let (user1, user2) = default_users();
    let (room1, room2) = default_rooms();

    assert!(reg_service.book_room(&room1, &user1, "10.02.26").is_ok());
    assert!(reg_service.book_room(&room1, &user2, "10.02.26").is_err());
    assert!(reg_service.book_room(&room2, &user2, "10.02.26").is_ok());
}

#[test]
fn store_only_booking_reports_collision_and_lists() {
    let mut reg_service = init_reg_service();
    let (user1, user2) = default_users();
    let (room1, _room2) = default_rooms();
    reg_service.book_room(&room1, &user1, "10.02.26").unwrap();
    assert_eq!(
        reg_service.book_room(&room1, &user2, "10/02/26"),
        Err(ErrService::Book(ErrBook::AlreadyBooked))
    );
    assert_eq!(
        reg_service.book_room(&room1, &user2, "10-02-26"),
        Err(ErrService::Domain(ErrDomain::Book(ErrBook::InvalidDateFormat)))
    );
    let listed = reg_service.print_book().unwrap();
    assert_eq!(listed.len(), 1);
    assert_eq!(listed[0].date, day(2026, 2, 10));
    assert_eq!(listed[0].room_name, room1.room_name);
    assert_eq!(listed[0].user_name, user1.user_name);
}

#[test]
fn library_scenario() {
    let mut d = desk();
    let first = d.books.book_room(&d.rooms, &d.users, "Library", "alice", "31.12.30").unwrap();
    assert_eq!(first.room_name.name, "LIBRARY");
    assert_eq!(first.user_name.name, "alice");
    assert_eq!(first.date, day(2030, 12, 31));

    assert_eq!(
        d.books.book_room(&d.rooms, &d.users, "Library", "bob", "31.12.30"),
        Err(ErrService::Book(ErrBook::AlreadyBooked))
    );
    let second = d.books.book_room(&d.rooms, &d.users, "Studio", "alice", "31.12.30").unwrap();
    assert_eq!(second.room_name.name, "STUDIO");
    assert_ne!(second.id, first.id);
    assert_eq!(d.books.list_book().unwrap().len(), 2);
    assert_eq!(d.books.list_book_by_cache().unwrap().len(), 2);
}

#[test]
fn booking_needs_known_room_and_user() {
    let mut d = desk();
    let today = day(2026, 10, 17);
    assert_eq!(
        d.books.book_room_on(&d.rooms, &d.users, "Cellar", "alice", "01.01.27", today),
        Err(ErrService::Book(ErrBook::RoomNotFound))
    );
    assert_eq!(
        d.books.book_room_on(&d.rooms, &d.users, "Library", "carol", "01.01.27", today),
        Err(ErrService::Book(ErrBook::UserNotFound))
    );
    assert!(d.books.list_book().unwrap().is_empty());
    assert!(d.books.list_book_by_cache().unwrap().is_empty());
}

#[test]
fn past_dates_are_refused() {
    let mut d = desk();
    let today = day(2026, 10, 17);
    assert_eq!(
        d.books.book_room_on(&d.rooms, &d.users, "Library", "alice", "16.10.26", today),
        Err(ErrService::Book(ErrBook::InvalidDate))
    );
    assert!(d.books.book_room_on(&d.rooms, &d.users, "Library", "alice", "17.10.26", today).is_ok());
    assert_eq!(
        d.books.book_room(&d.rooms, &d.users, "Studio", "alice", "01.01.20"),
        Err(ErrService::Book(ErrBook::InvalidDate))
    );
    assert_eq!(d.books.list_book().unwrap().len(), 1);
}

#[test]
fn booking_validation_order() {
    let mut d = desk();
    let today = day(2026, 10, 17);
    assert_eq!(
        d.books.book_room_on(&d.rooms, &d.users, "x", "y", "bad", today),
        Err(ErrService::Domain(ErrDomain::Book(ErrBook::InvalidDateFormat)))
    );
    assert_eq!(
        d.books.book_room_on(&d.rooms, &d.users, "x", "y", "01.01.20", today),
        Err(ErrService::Domain(ErrDomain::Room(ErrRoom::InvalidNameTooShort)))
    );
}

#[test]
fn deleting_an_unknown_booking() {
    let mut d = desk();
    let b = d.books.book_room(&d.rooms, &d.users, "Library", "alice", "31.12.30").unwrap();
    assert_eq!(d.books.delete_book_by_id(b.id + 40), Err(ErrService::Book(ErrBook::InvalidID)));
    let listed = d.books.list_book().unwrap();
    assert_eq!(listed, vec![b.clone()]);
    assert!(d.books.delete_book_by_id(b.id).is_ok());
    assert!(d.books.list_book().unwrap().is_empty());
    assert_eq!(d.books.is_exist_book_id(&b.id), Ok(false));
}

#[test]
fn moving_a_booking() {
    let mut d = desk();
    let today = day(2026, 10, 17);
    let a = d.books.book_room_on(&d.rooms, &d.users, "Library", "alice", "01.01.27", today).unwrap();
    let b = d.books.book_room_on(&d.rooms, &d.users, "Studio", "bob", "01.01.27", today).unwrap();
    assert_eq!(
        d.books.update_book_by_id_on(&d.rooms, &d.users, a.id + 99, "Library", "alice", "02.01.27", today),
        Err(ErrService::Book(ErrBook::InvalidID))
    );
    assert_eq!(
        d.books.update_book_by_id_on(&d.rooms, &d.users, a.id, "Studio", "alice", "01.01.27", today),
        Err(ErrService::Book(ErrBook::AlreadyBooked))
    );
    let same_slot =
        d.books.update_book_by_id_on(&d.rooms, &d.users, b.id, "Studio", "alice", "01.01.27", today).unwrap();
    assert_eq!(same_slot.user_name.name, "alice");
    let moved =
        d.books.update_book_by_id_on(&d.rooms, &d.users, a.id, "Library", "bob", "02/01/27", today).unwrap();
    assert_eq!(moved.id, a.id);
    assert_eq!(moved.date, day(2027, 1, 2));
    assert_eq!(
        d.books.is_exist_book(&RoomName::new("library").unwrap(), &day(2027, 1, 2)),
        Ok(true)
    );
    assert_eq!(
        d.books.is_exist_book(&RoomName::new("library").unwrap(), &day(2027, 1, 1)),
        Ok(false)
    );
    assert_eq!(d.books.list_book().unwrap().len(), 2);
}

#[test]
fn clearing_all_bookings() {
    let mut d = desk();
    assert_eq!(d.books.delete_all_book(), Err(ErrService::Repo(ErrRepo::IsEmpty)));
    d.books.book_room(&d.rooms, &d.users, "Library", "alice", "31.12.30").unwrap();
    assert!(d.books.delete_all_book().is_ok());
    assert!(d.books.list_book().unwrap().is_empty());
    assert!(d.books.list_book_by_cache().unwrap().is_empty());
}

#[test]
fn bootstrap_loads_every_store() {
    let mut store = InMemoryRepo::new();
    let alice = User::new("alice").unwrap();
    store.insert_user(&alice).unwrap();
    let library = store.insert_room(&Room::new("Library").unwrap()).unwrap();
    let mut rooms = RoomService::new(store);
    let mut users = UserService::new(InMemoryRepo::new());
    let mut book_store = InMemoryRepo::new();
    let date = BookDate::new("31.12.30").unwrap();
    let booked = book_store
        .insert_book(&room_reservations::domain::Book {
            id: 0,
            room_name: library.room_name.clone(),
            user_name: alice.user_name.clone(),
            date,
        })
        .unwrap();
    let mut books = BookService::new(book_store);
    assert!(rooms.list_cache_rooms().unwrap().is_empty());
    try_init_caches(&mut users, &mut rooms, &mut books).unwrap();
    assert_eq!(rooms.list_cache_rooms().unwrap(), vec![library.clone()]);
    assert_eq!(books.list_book_by_cache().unwrap(), vec![booked]);
    assert!(users.list_users().unwrap().is_empty());
    assert!(rooms.is_exist_room(&library.room_name).unwrap());
}
