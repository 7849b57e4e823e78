use room_reservations::domain::{Book, BookDate, Room, RoomName, User, UserID, UserName};
use room_reservations::dto::{
    BookDto, BookRowDto, CreateBookDto, CreateRoomDto, CreateUserDto, RoomDto, RoomRowDto, UserDto,
    UserRowDto,
};
use room_reservations::error::{AppError, ErrBook, ErrDomain, ErrRepo, ErrRoom, ErrService, ErrUser};
use room_reservations::text::char_count_up_to;

#[test]
fn dates_are_read_day_month_year() {
    assert_eq!(BookDate::new("10.08.25"), Ok(BookDate { year: 2025, month: 8, day: 10 }));
    assert_eq!(BookDate::new(" 10/08/25 "), Ok(BookDate { year: 2025, month: 8, day: 10 }));
    assert_eq!(BookDate::new("31.12.69"), Ok(BookDate { year: 2069, month: 12, day: 31 }));
    assert_eq!(BookDate::new("01.01.70"), Ok(BookDate { year: 1970, month: 1, day: 1 }));
    assert_eq!(
        BookDate::new("31.02.26"),
        Err(ErrDomain::Book(ErrBook::InvalidDateFormat))
    );
    assert_eq!(BookDate::new(""), Err(ErrDomain::Book(ErrBook::InvalidDateFormat)));
}

#[test]
fn dates_compare_chronologically() {
    let a = BookDate { year: 2026, month: 10, day: 17 };
    assert!(BookDate { year: 2026, month: 10, day: 16 }.is_before(&a));
    assert!(BookDate { year: 2026, month: 9, day: 30 }.is_before(&a));
    assert!(BookDate { year: 2025, month: 12, day: 31 }.is_before(&a));
    assert!(!a.is_before(&a));
    assert!(!BookDate { year: 2027, month: 1, day: 1 }.is_before(&a));
}

#[test]
fn names_normalize() {
    assert_eq!(UserName::new("  JoRdAn\t").unwrap().name, "jordan");
    assert_eq!(RoomName::new("\tLa Manche  ").unwrap().name, "LA MANCHE");
    assert_eq!(UserName::new("ab"), Err(ErrDomain::User(ErrUser::InvalidNameTooShort)));
    assert_eq!(RoomName::new("  ab   "), Err(ErrDomain::Room(ErrRoom::InvalidNameTooShort)));
    assert_eq!(
        RoomName::new("La chambre a coucher"),
        Err(ErrDomain::Room(ErrRoom::InvalidNameTooLong))
    );
}

#[test]
fn counting_characters() {
    assert_eq!(char_count_up_to("héllo", 10), 5);
    assert_eq!(char_count_up_to("héllo", 3), 3);
    assert_eq!(char_count_up_to("", 3), 0);
}

#[test]
fn fresh_identities_are_version_four() {
    let a = UserID::new();
    let b = UserID::default();
    assert_eq!((a.id >> 76) & 0xf, 4);
    assert_eq!((b.id >> 76) & 0xf, 4);
    assert_ne!(a, b);
}

#[test]
fn entities_start_unstored() {
    let room = Room::new("Library").unwrap();
    assert_eq!(room.id, 0);
    let book = Book::new("Library", "Alice", BookDate { year: 2030, month: 1, day: 2 }).unwrap();
    assert_eq!(book.id, 0);
    assert_eq!(book.room_name.name, "LIBRARY");
    assert_eq!(book.user_name.name, "alice");
    assert_eq!(
        Book::new("ab", "x", book.date),
        Err(ErrDomain::Room(ErrRoom::InvalidNameTooShort))
    );
    assert_eq!(
        Book::new("Library", "x", book.date),
        Err(ErrDomain::User(ErrUser::InvalidNameTooShort))
    );
    assert!(User::new("A").is_err());
}

#[test]
fn dto_conversions() {
    let user = User::from_create_dto(CreateUserDto { user_name: " Alice ".to_string() }).unwrap();
    assert_eq!(user.user_name.name, "alice");
    let row = User::from_row(UserRowDto { user_id: 42, user_name: "Bob".to_string() }).unwrap();
    assert_eq!(row.user_id, UserID { id: 42 });
    let dto = UserDto::from_user(row);
    assert_eq!(dto.user_id, 42);
    assert_eq!(dto.user_name, "bob");

    let room = Room::from_create_dto(CreateRoomDto { room_name: "studio".to_string() }).unwrap();
    assert_eq!(room.room_name.name, "STUDIO");
    let stored = Room::from_row(RoomRowDto { id: 3, room_name: "studio".to_string() }).unwrap();
    let out = RoomDto::from_room(stored);
    assert_eq!(out.id, 3);
    assert_eq!(out.room_name, "STUDIO");
    assert!(Room::from_row(RoomRowDto { id: 3, room_name: "x".to_string() }).is_err());

    let book = Book::from_create_dto(CreateBookDto {
        room_name: "studio".to_string(),
        user_name: "Alice".to_string(),
        date: "02/01/30".to_string(),
    })
    .unwrap();
    assert_eq!(book.date, BookDate { year: 2030, month: 1, day: 2 });
    assert_eq!(
        Book::from_create_dto(CreateBookDto {
            room_name: "studio".to_string(),
            user_name: "Alice".to_string(),
            date: "2030-01-02".to_string(),
        }),
        Err(ErrService::Domain(ErrDomain::Book(ErrBook::InvalidDateFormat)))
    );
    let back = Book::from_row(BookRowDto {
        id: 9,
        room_name: "STUDIO".to_string(),
        user_name: "alice".to_string(),
        date: book.date,
    })
    .unwrap();
    let shown = BookDto::from_book(back);
    assert_eq!(shown.id, 9);
    assert_eq!(shown.room_name, "STUDIO");
    assert_eq!(shown.user_name, "alice");
}

#[test]
fn errors_map_to_statuses() {
    assert_eq!(ErrService::Book(ErrBook::AlreadyBooked).status(), 409);
    assert_eq!(ErrService::Book(ErrBook::RoomNotFound).status(), 404);
    assert_eq!(ErrService::Book(ErrBook::InvalidDate).status(), 422);
    assert_eq!(ErrService::Book(ErrBook::InvalidID).status(), 400);
    assert_eq!(ErrService::Repo(ErrRepo::Unreachable).status(), 503);
    assert_eq!(ErrService::Repo(ErrRepo::RequestError).status(), 500);
    assert_eq!(ErrService::Domain(ErrDomain::Room(ErrRoom::InvalidNameTooLong)).status(), 422);
    assert_eq!(ErrService::Book(ErrBook::AlreadyBooked).message(), "Room already booked at this date");
    assert_eq!(
        ErrService::Domain(ErrDomain::User(ErrUser::InvalidNameTooShort)).message(),
        "User's name is too short"
    );
    assert_eq!(ErrService::Book(ErrBook::BookNotFound).message(), "Service error");
    assert_eq!(ErrService::from(ErrRoom::AlreadyExist), ErrService::Room(ErrRoom::AlreadyExist));
    assert_eq!(ErrService::from(ErrRepo::IsEmpty), ErrService::Repo(ErrRepo::IsEmpty));
    assert_eq!(AppError::NotFound("x".to_string()).status(), 404);
    assert_eq!(AppError::BadRequest("x".to_string()).status(), 400);
    assert_eq!(AppError::Internal("x".to_string()).status(), 500);
}
