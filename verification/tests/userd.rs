use userd::client::{fetch_user_reply, get_users_reply, unit_reply, verify_reply};
use userd::commands::Commands;
use userd::config::PartialConfig;
use userd::manager::{hash_response, Manager};
use userd::password::{names_oversized_parallelism, HashError, Hasher};
use userd::text::{str_equal, trim_end_newlines};
use userd::user::{append_user_entry, Config, UserManager};
use userd::users::{find_by_name, find_by_uid, without_passwords};
use userd::{Command, Error, Response, User};

fn user(uid: u32, name: &str, password: Option<&str>) -> User {
    User {
        uid,
        username: name.to_string(),
        display_name: Some(format!("{name} display")),
        password: password.map(|p| p.to_string()),
        shell: "/bin/sh".to_string(),
        home: format!("/home/{name}"),
    }
}

fn manager_with(users: Vec<User>) -> Manager<'static> {
    Manager::new(users.into_iter().map(|u| (u.username.clone(), u)).collect())
}

#[test]
fn manager_new_names_each_user_after_its_entry() {
    let mut u = user(1, "ignored", None);
    u.username = String::new();
    let m = Manager::new(vec![("alice".to_string(), u.clone()), ("bob".to_string(), user(2, "x", None))]);
    assert_eq!(m.users.len(), 2);
    assert_eq!(m.users[0].username, "alice");
    assert_eq!(m.users[0].uid, 1);
    assert_eq!(m.users[0].home, u.home);
    assert_eq!(m.users[1].username, "bob");
    assert_eq!(m.users[1].uid, 2);
}

#[test]
fn manager_new_empty() {
    let m = Manager::new(vec![]);
    assert!(m.users.is_empty());
}

#[test]
fn fetch_user_hides_password() {
    let m = manager_with(vec![user(1, "alice", Some("secret")), user(2, "bob", None)]);
    let expected = User { password: None, ..user(1, "alice", Some("secret")) };
    assert_eq!(m.fetch_user("alice"), Ok(Response::FetchUser(expected)));
}

#[test]
fn fetch_user_unknown_name() {
    let m = manager_with(vec![user(1, "alice", Some("secret"))]);
    assert_eq!(m.fetch_user("carol"), Err(Error::NoSuchUser));
    assert_eq!(m.fetch_user(""), Err(Error::NoSuchUser));
}

#[test]
fn fetch_user_takes_the_first_of_a_name() {
    let m = Manager {
        hasher: Hasher::new(),
        users: vec![user(1, "alice", None), user(2, "alice", None)],
    };
    match m.fetch_user("alice") {
        Ok(Response::FetchUser(u)) => assert_eq!(u.uid, 1),
        other => panic!("unexpected {other:?}"),
    }
}

#[test]
fn get_users_hides_all_passwords_in_order() {
    let m = manager_with(vec![user(1, "alice", Some("a")), user(2, "bob", Some("b")), user(3, "carol", None)]);
    match m.get_users() {
        Response::GetUsers(v) => {
            assert_eq!(v.len(), 3);
            assert_eq!(v[0], User { password: None, ..user(1, "alice", None) });
            assert_eq!(v[1].uid, 2);
            assert_eq!(v[2].username, "carol");
            assert!(v.iter().all(|u| u.password.is_none()));
        }
        other => panic!("unexpected {other:?}"),
    }
}

#[test]
fn verify_password_without_stored_password_passes() {
    let m = manager_with(vec![user(7, "alice", None)]);
    assert_eq!(m.verify_password(7, "anything"), Ok(Response::VerifyPassword(true)));
}

#[test]
fn verify_password_plain_stored_password() {
    let m = manager_with(vec![user(7, "alice", Some("plain"))]);
    assert_eq!(m.verify_password(7, "plain"), Ok(Response::VerifyPassword(true)));
    assert_eq!(m.verify_password(7, "other"), Err(Error::WrongPassword));
    assert_eq!(m.verify_password(7, "plain\n"), Err(Error::WrongPassword));
}

#[test]
fn verify_password_unknown_uid() {
    let m = manager_with(vec![user(7, "alice", Some("plain"))]);
    assert_eq!(m.verify_password(8, "plain"), Err(Error::NoSuchUser));
}

#[test]
fn verify_password_hashed_stored_password() {
    let hasher = Hasher::new();
    let phc = hasher.hash("hunter42").unwrap();
    let m = manager_with(vec![user(5, "alice", Some(&phc))]);
    assert_eq!(m.verify_password(5, "hunter42"), Ok(Response::VerifyPassword(true)));
    assert_eq!(m.verify_password(5, "hunter42\n\n"), Ok(Response::VerifyPassword(true)));
    assert_eq!(m.verify_password(5, "hunter43"), Err(Error::WrongPassword));
    assert_eq!(m.verify_password(5, &phc), Err(Error::WrongPassword));
}

#[test]
fn hash_password_gives_a_phc_string_that_verifies() {
    let m = manager_with(vec![]);
    match m.hash_password("correct horse") {
        Ok(Response::HashPassword(phc)) => {
            assert!(phc.starts_with("$argon2id$v=19$"));
            assert!(m.hasher.is_hash(&phc));
            assert_eq!(m.hasher.verify("correct horse", &phc), Ok(()));
            assert!(m.hasher.verify("correct horsf", &phc).is_err());
        }
        other => panic!("unexpected {other:?}"),
    }
}

#[test]
fn hashes_of_one_password_differ() {
    let hasher = Hasher::new();
    let a = hasher.hash("pw").unwrap();
    let b = hasher.hash("pw").unwrap();
    assert_ne!(a, b);
}

#[test]
fn is_hash_trims_line_breaks() {
    let hasher = Hasher::new();
    let phc = hasher.hash("pw").unwrap();
    assert!(hasher.is_hash(&format!("{phc}\n\n")));
    assert!(!hasher.is_hash("pw"));
    assert!(!hasher.is_hash(""));
}

#[test]
fn verify_rejects_a_string_that_is_no_hash() {
    let hasher = Hasher::new();
    assert!(hasher.verify("pw", "pw").is_err());
}

#[test]
fn password_hash_error_converts() {
    let e: Error = argon2::password_hash::Error::Password.into();
    assert_eq!(e, Error::PasswordHashError);
}

#[test]
fn add_remove_set_password_are_accepted() {
    let m = manager_with(vec![user(1, "alice", None)]);
    assert_eq!(m.add_user(&user(2, "bob", None)), Ok(Response::AddUser(())));
    assert_eq!(m.remove_user(1), Ok(Response::RemoveUser(())));
    assert_eq!(m.set_password(1, "a", "b"), Ok(Response::SetPassword(())));
    assert_eq!(m.users.len(), 1);
}

#[test]
fn dispatch_answers_each_command() {
    let m = manager_with(vec![user(1, "alice", Some("plain")), user(2, "bob", None)]);
    assert_eq!(
        m.dispatch(&Command::FetchUser("bob".to_string())),
        Ok(Response::FetchUser(user(2, "bob", None)))
    );
    assert!(matches!(m.dispatch(&Command::GetUsers()), Ok(Response::GetUsers(v)) if v.len() == 2));
    assert_eq!(m.dispatch(&Command::AddUser(user(3, "carol", None))), Ok(Response::AddUser(())));
    assert_eq!(m.dispatch(&Command::RemoveUser(1)), Ok(Response::RemoveUser(())));
    assert_eq!(
        m.dispatch(&Command::VerifyPassword(1, "plain".to_string())),
        Ok(Response::VerifyPassword(true))
    );
    assert_eq!(
        m.dispatch(&Command::VerifyPassword(1, "wrong".to_string())),
        Err(Error::WrongPassword)
    );
    assert_eq!(
        m.dispatch(&Command::VerifyPassword(9, "plain".to_string())),
        Err(Error::NoSuchUser)
    );
    assert!(matches!(
        m.dispatch(&Command::HashPassword("x".to_string())),
        Ok(Response::HashPassword(h)) if h.starts_with("$argon2id$")
    ));
    assert_eq!(
        m.dispatch(&Command::SetPassword(1, "a".to_string(), "b".to_string())),
        Ok(Response::SetPassword(()))
    );
}

#[test]
fn configured_user_is_fetched_by_its_name() {
    let config = PartialConfig {
        users: vec![
            ("zed".to_string(), user(10, "", Some("p"))),
            ("amy".to_string(), user(11, "", None)),
        ],
    };
    let m = Manager::new(config.users.clone());
    let expected = User { username: "amy".to_string(), ..user(11, "", None) };
    assert_eq!(m.fetch_user("amy"), Ok(Response::FetchUser(expected)));
}

fn user_manager() -> UserManager {
    UserManager::new(Config { users_path: "/config/users.toml".to_string() })
}

#[test]
fn user_manager_keeps_its_config() {
    let um = user_manager();
    assert_eq!(um.config().users_path, "/config/users.toml");
}

#[test]
fn commands_add_user_refuses_a_taken_name() {
    let um = user_manager();
    let c = Commands::new(Hasher::new(), &um);
    let users = vec![user(1, "alice", None)];
    assert_eq!(c.add_user(&users, &user(2, "alice", None)), Err(Error::UserAlreadyExists));
    assert_eq!(c.add_user(&users, &user(2, "bob", None)), Ok(Response::AddUser(())));
    assert_eq!(c.add_user(&vec![], &user(2, "bob", None)), Ok(Response::AddUser(())));
}

#[test]
fn commands_added_name_is_then_taken() {
    let um = user_manager();
    let c = Commands::new(Hasher::new(), &um);
    let mut users = vec![user(1, "alice", None)];
    let bob = user(2, "bob", None);
    assert_eq!(c.add_user(&users, &bob), Ok(Response::AddUser(())));
    users.push(bob);
    assert_eq!(c.add_user(&users, &user(3, "bob", None)), Err(Error::UserAlreadyExists));
}

#[test]
fn commands_fetch_user_keeps_password() {
    let um = user_manager();
    let c = Commands::new(Hasher::new(), &um);
    let users = vec![user(1, "alice", Some("secret"))];
    assert_eq!(c.fetch_user(&users, "alice"), Ok(Response::FetchUser(user(1, "alice", Some("secret")))));
    assert_eq!(c.fetch_user(&users, "bob"), Err(Error::NoSuchUser));
}

#[test]
fn commands_verify_get_and_trivial_requests() {
    let um = user_manager();
    let c = Commands::new(Hasher::new(), &um);
    let users = vec![user(1, "alice", Some("plain")), user(2, "bob", None)];
    assert_eq!(c.verify_password(&users, 1, "plain"), Ok(Response::VerifyPassword(true)));
    assert_eq!(c.verify_password(&users, 1, "nope"), Err(Error::WrongPassword));
    assert_eq!(c.verify_password(&users, 2, "any"), Ok(Response::VerifyPassword(true)));
    assert_eq!(c.verify_password(&users, 3, "any"), Err(Error::NoSuchUser));
    assert_eq!(c.get_users(users.clone()), Response::GetUsers(users.clone()));
    assert_eq!(c.remove_user(1), Ok(Response::RemoveUser(())));
    assert_eq!(c.set_password(1, "a", "b"), Ok(Response::SetPassword(())));
    assert!(matches!(c.hash_password("pw"), Ok(Response::HashPassword(_))));
    assert_eq!(c.user_manager().config().users_path, "/config/users.toml");
}

#[test]
fn append_user_entry_exact_text() {
    assert_eq!(
        append_user_entry("[[user]]\nuid = 1\n\n\n", "uid = 3\n"),
        "[[user]]\nuid = 1\n\n[[user]]\nuid = 3\n"
    );
    assert_eq!(append_user_entry("", "uid = 3\n"), "\n\n[[user]]\nuid = 3\n");
    assert_eq!(append_user_entry("a\nb", ""), "a\nb\n\n[[user]]\n");
}

#[test]
fn trim_end_newlines_values() {
    assert_eq!(trim_end_newlines("abc\n\n"), "abc");
    assert_eq!(trim_end_newlines("a\nbc"), "a\nbc");
    assert_eq!(trim_end_newlines("\n\n"), "");
    assert_eq!(trim_end_newlines(""), "");
    assert_eq!(trim_end_newlines("é\n"), "é");
    assert_eq!(trim_end_newlines("ab\r\n"), "ab\r");
}

#[test]
fn str_equal_values() {
    assert!(str_equal("abc", "abc"));
    assert!(!str_equal("abc", "abd"));
    assert!(!str_equal("abc", "ab"));
    assert!(str_equal("", ""));
}

#[test]
fn find_functions() {
    let users = vec![user(1, "a", None), user(2, "b", None), user(2, "c", None)];
    assert_eq!(find_by_uid(&users, 2), Some(1));
    assert_eq!(find_by_uid(&users, 5), None);
    assert_eq!(find_by_name(&users, "c"), Some(2));
    assert_eq!(find_by_name(&users, "d"), None);
    let r = without_passwords(&vec![user(1, "a", Some("p"))]);
    assert_eq!(r[0].password, None);
}

#[test]
fn client_replies() {
    assert_eq!(unit_reply(Ok(Response::AddUser(()))), Ok(()));
    assert_eq!(unit_reply(Err(Error::NoSuchUser)), Err(Error::NoSuchUser));
    assert_eq!(verify_reply(Ok(Response::VerifyPassword(true))), Ok(()));
    assert_eq!(verify_reply(Ok(Response::VerifyPassword(false))), Err(Error::WrongPassword));
    assert_eq!(verify_reply(Err(Error::WrongPassword)), Err(Error::WrongPassword));
    assert_eq!(fetch_user_reply(Ok(Response::FetchUser(user(1, "a", None)))), Ok(user(1, "a", None)));
    assert_eq!(
        fetch_user_reply(Err(Error::IpcError("closed".to_string()))),
        Err(Error::IpcError("closed".to_string()))
    );
    assert_eq!(get_users_reply(Ok(Response::GetUsers(vec![user(1, "a", None)]))), Ok(vec![user(1, "a", None)]));
    assert_eq!(get_users_reply(Err(Error::UserAlreadyExists)), Err(Error::UserAlreadyExists));
}

#[test]
fn user_copies() {
    let u = user(1, "a", Some("p"));
    assert_eq!(u.duplicate(), u);
    assert_eq!(u.without_password(), User { password: None, ..u.clone() });
}

#[test]
fn hash_with_salt_is_deterministic() {
    let hasher = Hasher::new();
    let salt = [0u8; 16];
    let a = hasher.hash_with_salt("hunter42", &salt).unwrap();
    let b = hasher.hash_with_salt("hunter42", &salt).unwrap();
    assert_eq!(a, b);
    assert!(a.starts_with("$argon2id$v=19$m=19456,t=2,p=1$AAAAAAAAAAAAAAAAAAAAAA$"));
    assert!(!a.ends_with('\n'));
    assert!(hasher.is_hash(&a));
    assert_eq!(hasher.verify("hunter42", &a), Ok(()));
    let c = hasher.hash_with_salt("hunter43", &salt).unwrap();
    assert_ne!(a, c);
}

#[test]
fn hash_response_maps_outcomes() {
    assert_eq!(hash_response(Ok("$x".to_string())), Ok(Response::HashPassword("$x".to_string())));
    assert_eq!(
        hash_response(Err(HashError::Hashing(argon2::password_hash::Error::Password))),
        Err(Error::PasswordHashError)
    );
}

#[test]
fn plain_stored_password_refuses_others() {
    let hasher = Hasher::new();
    assert!(hasher.verify("plain", "plain").is_err());
    let m = manager_with(vec![user(4, "dave", Some("letmein"))]);
    assert_eq!(m.verify_password(4, "letmein"), Ok(Response::VerifyPassword(true)));
    assert_eq!(m.verify_password(4, "letmeout"), Err(Error::WrongPassword));
}

const OVERSIZED: &str = "$argon2id$v=19$m=19456,t=2,p=536870912$c2FsdHNhbHQ$aGFzaGhhc2hoYXNoaGFzaA";

#[test]
fn oversized_parallelism_is_refused_without_panic() {
    let hasher = Hasher::new();
    assert!(hasher.is_hash(OVERSIZED));
    assert!(hasher.verify("anything", OVERSIZED).is_err());
    let m = manager_with(vec![user(6, "erin", Some(OVERSIZED))]);
    assert_eq!(m.verify_password(6, "anything"), Err(Error::WrongPassword));
}

#[test]
fn names_oversized_parallelism_values() {
    assert!(names_oversized_parallelism(OVERSIZED));
    assert!(names_oversized_parallelism("p=123456789"));
    assert!(!names_oversized_parallelism("p=12345678"));
    assert!(!names_oversized_parallelism("$argon2id$v=19$m=19456,t=2,p=1$AAAA$BBBB"));
    assert!(!names_oversized_parallelism(""));
    assert!(!names_oversized_parallelism("q=123456789"));
}

#[test]
fn hash_with_salt_depends_on_the_salt() {
    let hasher = Hasher::new();
    let a = hasher.hash_with_salt("pw", &[0u8; 16]).unwrap();
    let b = hasher.hash_with_salt("pw", &[1u8; 16]).unwrap();
    assert_ne!(a, b);
    assert!(b.contains("$AQEBAQEBAQEBAQEBAQEBAQ$"));
    assert_eq!(hasher.verify("pw", &b), Ok(()));
}

#[test]
fn hash_with_salt_refuses_salts_out_of_bounds() {
    let hasher = Hasher::new();
    assert!(hasher.hash_with_salt("pw", &[7u8; 3]).is_err());
    assert!(hasher.hash_with_salt("pw", &[7u8; 7]).is_err());
    assert!(hasher.hash_with_salt("pw", &[7u8; 49]).is_err());
    assert!(hasher.hash_with_salt("pw", &[7u8; 8]).is_ok());
    assert!(hasher.hash_with_salt("pw", &[7u8; 48]).is_ok());
}
