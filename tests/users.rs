use room_reservations::domain::{User, UserName};
use room_reservations::error::{ErrDomain, ErrService, ErrUser};
use room_reservations::memory::InMemoryRepo;
use room_reservations::repo::UserRepo;
use room_reservations::user_service::UserService;

fn init_user_service() -> UserService<InMemoryRepo> {
    InMemoryRepo::init_user_service()
}

fn default_users() -> (User, User) {
    (User::new("Carmen Test").unwrap(), User::new("Ibrahim Test").unwrap())
}

#[test]
fn print_all_users() {
    let mut service = init_user_service();

    assert!(service.add_user("Sophie").is_ok());
    assert!(service.add_user("Jordan").is_ok());
}

#[test]
fn user_repo_add_and_list_user() {
    let mut service = init_user_service();

    let user_ok1 = service.add_user("Sophie");
    let user_ok2 = service.add_user("Jordan");

    let user_err1 = service.add_user(" SOPHIE "); //already exist
    let user_err2 = service.add_user("SoPhiE"); //already exist
    let user_err3 = service.add_user("A"); //too short
    let user_err4 = service //too long
        .add_user("ABCDEFG       HIJKLMNO    PQRSTUVWXYZ");

    assert!(user_ok1.is_ok());
    assert!(user_ok2.is_ok());

    assert!(user_err1.is_err());
    assert!(user_err2.is_err());
    assert!(user_err3.is_err());
    assert!(user_err4.is_err());

    assert!(service
        .is_exist_user(&UserName {
            name: "Jordan".to_string()
        })
        .is_ok());
    assert!(service
        .is_exist_user(&UserName {
            name: "   JoRdAn    ".to_string()
        })
        .is_ok());
    assert!(!service
        .is_exist_user(&UserName {
            name: "Daniel".to_string()
        })
        .unwrap());
}

#[test]
fn delete_user_by_name() {
    let mut service = init_user_service();

    assert!(service.add_user("Sophie").is_ok());
    assert!(service.add_user("Jordan").is_ok());

    assert!(service.delete_user_by_name("Sophie").is_ok());
}

#[test]
fn update_user_name() {
    let repo = InMemoryRepo::new();
    let mut service = UserService::new(repo);

    assert!(service.add_user("Sophie").is_ok());
    assert!(service
        .is_exist_user(&UserName {
            name: "Sophie".to_string()
        })
        .is_ok());
    assert!(service.update_user("Sophie", "Alice").is_ok());
    assert!(service
        .is_exist_user(&UserName {
            name: "Alice".to_string()
        })
        .is_ok());
    assert!(service.update_user("ALICE", "CALISSE").is_ok());
    assert!(service
        .is_exist_user(&UserName {
            name: "CALISSE".to_string()
        })
        .is_ok());

    assert!(service.update_user("Unexisting", "Bob").is_err());
}

#[test]
fn test_add_and_list_user() {
    let mut user_service = init_user_service();

    let francois = user_service.add_user("Francois Fouesn").unwrap();
    let jeanne = user_service.add_user("Jeanne Delcros").unwrap();
    let david = user_service.add_user("David Durand").unwrap();

    let users = user_service.list_users().unwrap();

    assert_eq!(users.len(), 3);
    assert_eq!(users[0], francois);
    assert_eq!(users[1], jeanne);
    assert_eq!(users[2], david);
}

#[test]
fn test_remove_an_existing_and_unexisting_user() {
    let mut user_service = init_user_service();

    user_service.add_user("Boris").unwrap();

    let exist_true = user_service.is_exist_user(&UserName::new("Boris").unwrap()).unwrap();
    assert_eq!(exist_true, true);

    let exist_false = user_service.is_exist_user(&UserName::new("Joris").unwrap()).unwrap();
    assert_eq!(exist_false, false);

    let delete_user_ok = user_service.delete_user_by_name("Boris");
    assert!(delete_user_ok.is_ok(), "Suppression has to succed");

    let delete_user_err = user_service.delete_user_by_name("Joris");
    assert!(delete_user_err.is_err(), "Suppression has to fail");
}

#[test]
fn user_service_test_add_and_list_user() {
    let mut user_service = init_user_service();

    let (user1, user2) = default_users();
    let user1_name = &user1.user_name.name;
    let user2_name = &user2.user_name.name;

    assert!(user_service.add_user(user1_name).is_ok());
    assert!(user_service.add_user(user2_name).is_ok());

    let users = user_service.list_users().unwrap();

    assert_eq!(users.len(), 2);
}

#[test]
fn create_an_invalid_user_too_short_or_too_long() {
    assert!(UserName::new("\t \t \t \t Daniel \t \t \t ").is_ok());
    assert!(UserName::new("A").is_err());
    assert!(UserName::new("Jean-Edouard De la Portaillere de la Manchada de la Cabesa").is_err());
}

#[test]
fn user_service_test_remove_an_existing_and_unexisting_user() {
    let mut user_service = init_user_service();

    user_service.add_user("Boris").unwrap();

    assert!(user_service.is_exist_user(&UserName::new("Boris").unwrap()).is_ok());
    assert_eq!(user_service.is_exist_user(&UserName::new("Joris").unwrap()).unwrap(), false);

    assert!(user_service.delete_user_by_name("Boris").is_ok());
    assert!(user_service.delete_user_by_name("Joris").is_err());
}

#[test]
fn in_memo_repo_test_insert_data_in_memory_and_find_it() {
    let mut repo = InMemoryRepo::new();
    let (user1, user2) = default_users();

    assert!(repo.insert_user(&user1).is_ok());
    let stored = repo.get_all_users().unwrap();
    assert_eq!(stored.contains(&user1), true);
    assert_eq!(stored.contains(&user2), false);
}

#[test]
fn in_memo_repo_test_list_data_and_remove_data() {
    let mut repo = InMemoryRepo::new();
    let (user1, user2) = default_users();

    assert!(repo.insert_user(&user1).is_ok());
    assert!(repo.get_all_users().is_ok());
    assert!(repo.delete_user_by_name(&user1.user_name).is_ok());
    assert!(repo.delete_user_by_name(&user2.user_name).is_err());
}

#[test]
fn user_names_are_trimmed_and_lower_cased() {
    let mut service = init_user_service();
    let user = service.add_user("  SoPhiE\t").unwrap();
    assert_eq!(user.user_name.name, "sophie");
    assert_eq!(service.add_user("SOPHIE"), Err(ErrService::User(ErrUser::AlreadyExist)));
}

#[test]
fn user_name_bounds() {
    let mut service = init_user_service();
    assert_eq!(
        service.add_user("ab"),
        Err(ErrService::Domain(ErrDomain::User(ErrUser::InvalidNameTooShort)))
    );
    let longest = "a".repeat(34);
    let too_long = "a".repeat(35);
    assert!(service.add_user(&longest).is_ok());
    assert_eq!(
        service.add_user(&too_long),
        Err(ErrService::Domain(ErrDomain::User(ErrUser::InvalidNameTooLong)))
    );
}

#[test]
fn rename_keeps_identity() {
    let mut service = init_user_service();
    let sophie = service.add_user("Sophie").unwrap();
    service.add_user("Jordan").unwrap();
    assert_eq!(service.update_user("Sophie", "jordan"), Err(ErrService::User(ErrUser::AlreadyExist)));
    assert_eq!(service.update_user("Nobody", "Alice"), Err(ErrService::User(ErrUser::UserNotFound)));
    let alice = service.update_user("sophie", "Alice").unwrap();
    assert_eq!(alice.user_id, sophie.user_id);
    assert_eq!(alice.user_name.name, "alice");
    assert_eq!(service.get_user_by_id_on_cache(sophie.user_id).unwrap(), Some(alice.clone()));
    let stored = service.list_users().unwrap();
    assert_eq!(stored.len(), 2);
    assert!(stored.contains(&alice));
}

#[test]
fn deleting_a_user_empties_cache_and_store_of_it() {
    let mut service = init_user_service();
    let sophie = service.add_user("Sophie").unwrap();
    service.delete_user_by_name("  SOPHIE ").unwrap();
    assert_eq!(service.get_user_by_id_on_cache(sophie.user_id).unwrap(), None);
    assert!(service.list_users().unwrap().is_empty());
    assert_eq!(service.delete_user_by_name("Sophie"), Err(ErrService::User(ErrUser::UserNotFound)));
}

#[test]
fn lookup_by_entry_reports_presence_as_conflict() {
    let mut service = init_user_service();
    let sophie = service.add_user("Sophie").unwrap();
    assert_eq!(
        service.get_user_by_user_struct_on_cache(&sophie),
        Err(ErrService::User(ErrUser::AlreadyExist))
    );
    let stranger = User::new("Stranger").unwrap();
    assert_eq!(
        service.get_user_by_user_struct_on_cache(&stranger),
        Err(ErrService::User(ErrUser::UserNotFound))
    );
}
