use room_reservations::domain::RoomName;
use room_reservations::error::{ErrDomain, ErrRoom, ErrService};
use room_reservations::memory::InMemoryRepo;
use room_reservations::room_service::RoomService;

fn init_room_service() -> RoomService<InMemoryRepo> {
    InMemoryRepo::init_room_service()
}

#[test]
fn add_and_list_rooms() {
    let mut service = init_room_service();

    let room1 = service.add_room("room1").unwrap();

    assert!(service.add_room("room1").is_err()); // already exists
    assert!(service.add_room("room2").is_ok());
    assert!(service.add_room("r").is_err()); // too short
    assert!(service.add_room("thisnameistoolongforasingleroom").is_err());
    assert!(service.list_cache_rooms().is_ok());
    assert!(service.is_exist_room(&room1.room_name).is_ok());

    assert!(service.get_cache_room_by_room_struct(&room1).is_ok());
}

#[test]
fn test_add_and_list_room() {
    let mut room_service = init_room_service();

    let add_a_room_ok = room_service.add_room("Suite Royale");
    assert!(add_a_room_ok.is_ok(), "Add a room should be ok");
    room_service.add_room("Etape nocturne").unwrap();
    room_service.add_room("Dolce Note").unwrap();
    room_service.add_room("Black room").unwrap();

    let list_room_ok = room_service.list_rooms();
    assert!(list_room_ok.is_ok(), "List room should be ok");
}

#[test]
fn remove_existing_unexisting_room() {
    let mut room_service = init_room_service();

    let room = room_service.add_room("Suite Royale").unwrap();

    let remove_existing_room_ok = room_service.delete_room_by_id(room.id);
    assert!(remove_existing_room_ok.is_ok(), "Remove an existing room should be ok");

    let forest_cabin = RoomName::new("Forest Cabin").unwrap();
    assert!(!room_service.is_exist_room(&forest_cabin).unwrap());
    let remove_unexisting_room_err = room_service.delete_room_by_id(room.id + 1);
    assert!(remove_unexisting_room_err.is_err(), "Remove an unexisting room should be an error");
}

#[test]
fn test_find_existing_and_unexisting_room() {
    let mut room_service = init_room_service();

    room_service.add_room("Palaccio").unwrap();

    let find_existing_room = room_service.is_exist_room(&RoomName::new("Palaccio").unwrap()).unwrap();
    assert_eq!(find_existing_room, true);

    let find_unexisting_room = room_service.is_exist_room(&RoomName::new("Ice Room").unwrap()).unwrap();
    assert_eq!(find_unexisting_room, false);
}

#[test]
fn room_service_test_add_and_list_room() {
    let mut room_service = init_room_service();

    assert!(room_service.add_room("El Palaccio").is_ok());

    room_service.add_room("Dolce Note").unwrap();
    room_service.add_room("Black room").unwrap();

    assert!(room_service.list_rooms().is_ok());
}

#[test]
fn room_service_test_create_an_invalid_room() {
    let mut room_service = init_room_service();

    assert!(room_service
        .add_room("\t \t \t \t \t \t \t La Manche \t \t \t \t \t \t \t ")
        .is_ok());
    assert!(room_service.add_room("A").is_err());
    assert!(room_service
        .add_room("La chambre a coucher de madame de Bovary")
        .is_err());
}

#[test]
fn room_service_test_remove_an_existing_and_unexisting_room() {
    let mut room_service = init_room_service();
    let jaune = room_service.add_room("La Chambre Jaune").unwrap();

    assert_eq!(room_service.is_exist_room(&RoomName::new("La Chambre Jaune").unwrap()).unwrap(), true);
    assert_eq!(room_service.is_exist_room(&RoomName::new("La Chambre Noire").unwrap()).unwrap(), false);

    assert!(room_service.delete_room_by_id(jaune.id).is_ok());

    assert!(room_service.delete_room_by_id(jaune.id + 1).is_err());
}

#[test]
fn room_service_test_find_existing_and_unexisting_room() {
    let mut room_service = init_room_service();
    room_service.add_room("Palaccio").unwrap();

    assert_eq!(room_service.is_exist_room(&RoomName::new("Palaccio").unwrap()).unwrap(), true);
    assert_eq!(room_service.is_exist_room(&RoomName::new("Ice Room").unwrap()).unwrap(), false);
}

#[test]
fn room_names_are_trimmed_and_upper_cased() {
    let mut service = init_room_service();
    let room = service.add_room("  Library \t").unwrap();
    assert_eq!(room.room_name.name, "LIBRARY");
    assert_eq!(room.id, 1);
    let listed = service.list_cache_rooms().unwrap();
    assert_eq!(listed.len(), 1);
    assert_eq!(listed[0], room);
}

#[test]
fn duplicate_room_refused_whatever_the_casing() {
    let mut service = init_room_service();
    service.add_room("Library").unwrap();
    assert_eq!(service.add_room("  lIbRaRy  "), Err(ErrService::Room(ErrRoom::AlreadyExist)));
    assert_eq!(service.list_rooms().unwrap().len(), 1);
}

#[test]
fn room_name_bounds() {
    let mut service = init_room_service();
    assert_eq!(
        service.add_room("ab"),
        Err(ErrService::Domain(ErrDomain::Room(ErrRoom::InvalidNameTooShort)))
    );
    assert_eq!(
        service.add_room("This Room Name Is Too Long"),
        Err(ErrService::Domain(ErrDomain::Room(ErrRoom::InvalidNameTooLong)))
    );
    assert!(service.add_room("abc").is_ok());
    assert!(service.add_room("sixteen chars ok").is_ok());
    assert!(service.add_room("seventeen chars!!").is_err());
    assert!(service.list_cache_rooms().unwrap().len() == 2);
}

#[test]
fn rename_room() {
    let mut service = init_room_service();
    let room = service.add_room("Library").unwrap();
    service.add_room("Studio").unwrap();
    assert_eq!(service.update_room("library", "studio"), Err(ErrService::Room(ErrRoom::AlreadyExist)));
    assert_eq!(service.update_room("Cellar", "Attic"), Err(ErrService::Room(ErrRoom::RoomNotFound)));
    let renamed = service.update_room("library", "Reading Room").unwrap();
    assert_eq!(renamed.id, room.id);
    assert_eq!(renamed.room_name.name, "READING ROOM");
    assert_eq!(service.get_room_by_id_on_cache(room.id).unwrap(), Some(renamed.clone()));
    assert!(!service.is_exist_room(&RoomName::new("Library").unwrap()).unwrap());
    let stored = service.list_rooms().unwrap();
    assert_eq!(stored.len(), 2);
    assert!(stored.contains(&renamed));
}

#[test]
fn cache_lookup_by_entry() {
    let mut service = init_room_service();
    let room = service.add_room("Library").unwrap();
    assert_eq!(service.get_cache_room_by_room_struct(&room), Ok(room.clone()));
    let mut other = room.clone();
    other.id = room.id + 7;
    assert_eq!(
        service.get_cache_room_by_room_struct(&other),
        Err(ErrService::Room(ErrRoom::RoomNotFound))
    );
    assert_eq!(service.get_room_by_id_on_cache(room.id + 7).unwrap(), None);
}

#[test]
fn deleted_room_leaves_cache_and_store() {
    let mut service = init_room_service();
    let room = service.add_room("Library").unwrap();
    service.delete_room_by_id(room.id).unwrap();
    assert!(service.list_cache_rooms().unwrap().is_empty());
    assert!(service.list_rooms().unwrap().is_empty());
    assert_eq!(service.delete_room_by_id(room.id), Err(ErrService::Room(ErrRoom::RoomNotFound)));
}
