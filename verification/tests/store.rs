use auth_service::db::{
    check_user_answer, create_table_statement, registered_answer, reply_for, statement_failure,
    statement_for, CheckIfRegisteredUser,
    CheckUser, CreateUser, DbService, DeleteUser, Message, Reply, Statement, UpdateActivateEmail,
    UpdateEmail, UpdatePassword, UpdateUsername,
};
use auth_service::errors::Error;
use auth_service::pool::ConnectionPool;
use auth_service::users::{creation_time, new_row, update_time, FieldChange, UserTable, Users};

fn service() -> DbService {
    DbService::new(ConnectionPool::new(4))
}

fn create(id: &str, username: &str, email: &str, password: &str) -> Message {
    Message::CreateUser(CreateUser {
        id: id.to_string(),
        username: username.to_string(),
        password: password.to_string(),
        email: email.to_string(),
    })
}

fn check(id: &str) -> Message {
    Message::CheckUser(CheckUser { id: id.to_string() })
}

fn registered(username: &str, email: &str) -> Message {
    Message::CheckIfRegisteredUser(CheckIfRegisteredUser {
        username: username.to_string(),
        email: email.to_string(),
    })
}

fn delete(id: &str) -> Message {
    Message::DeleteUser(DeleteUser { user_id: id.to_string() })
}

fn activate(id: &str) -> Message {
    Message::UpdateActivateEmail(UpdateActivateEmail { user_id: id.to_string() })
}

fn set_email(id: &str, email: &str) -> Message {
    Message::UpdateEmail(UpdateEmail { user_id: id.to_string(), email: email.to_string() })
}

fn set_username(id: &str, username: &str) -> Message {
    Message::UpdateUsername(UpdateUsername {
        user_id: id.to_string(),
        username: username.to_string(),
    })
}

fn set_password(id: &str, password: &str) -> Message {
    Message::UpdatePassword(UpdatePassword {
        user_id: id.to_string(),
        password: password.to_string(),
    })
}

#[test]
fn created_user_is_found() {
    let mut db = service();
    assert_eq!(db.handle(check("u1"), 5), Ok(Reply::Found(false)));
    assert_eq!(db.handle(create("u1", "alice", "a@x.com", "p"), 10), Ok(Reply::Done));
    assert_eq!(db.handle(check("u1"), 11), Ok(Reply::Found(true)));
    assert_eq!(db.handle(check("u2"), 11), Ok(Reply::Found(false)));
    assert_eq!(db.handle(check("U1"), 11), Ok(Reply::Found(false)));
    assert_eq!(db.handle(check(""), 11), Ok(Reply::Found(false)));
}

#[test]
fn deleted_user_is_not_found() {
    let mut db = service();
    assert_eq!(db.handle(create("u1", "alice", "a@x.com", "p"), 10), Ok(Reply::Done));
    assert_eq!(db.handle(create("u2", "bob", "b@x.com", "q"), 10), Ok(Reply::Done));
    assert_eq!(db.handle(delete("u1"), 20), Ok(Reply::Done));
    assert_eq!(db.handle(check("u1"), 21), Ok(Reply::Found(false)));
    assert_eq!(db.handle(check("u2"), 21), Ok(Reply::Found(true)));
    assert!(db.find("u1").is_none());
}

#[test]
fn deleting_an_absent_user_succeeds() {
    let mut db = service();
    assert_eq!(db.handle(delete("nobody"), 1), Ok(Reply::Done));
    assert_eq!(db.handle(create("u1", "alice", "a@x.com", "p"), 10), Ok(Reply::Done));
    assert_eq!(db.handle(delete("nobody"), 11), Ok(Reply::Done));
    assert_eq!(db.handle(check("u1"), 12), Ok(Reply::Found(true)));
}

#[test]
fn new_row_is_not_activated_and_never_updated() {
    let mut db = service();
    assert_eq!(db.handle(create("u1", "alice", "a@x.com", "p"), 1700000000), Ok(Reply::Done));
    let row = db.find("u1").expect("the row exists");
    assert_eq!(row.id, "u1");
    assert_eq!(row.username, "alice");
    assert_eq!(row.email, "a@x.com");
    assert_eq!(row.password, "p");
    assert!(!row.is_email_activate);
    assert_eq!(row.created_at, 1700000000);
    assert_eq!(row.updated_at, None);
}

#[test]
fn registered_needs_username_and_email() {
    let mut db = service();
    assert_eq!(db.handle(registered("alice", "a@x.com"), 1), Ok(Reply::Found(false)));
    assert_eq!(db.handle(create("u1", "alice", "a@x.com", "p"), 10), Ok(Reply::Done));
    assert_eq!(db.handle(registered("alice", "a@x.com"), 11), Ok(Reply::Found(true)));
    assert_eq!(db.handle(registered("alice", "other@x.com"), 11), Ok(Reply::Found(false)));
    assert_eq!(db.handle(registered("bob", "a@x.com"), 11), Ok(Reply::Found(false)));
    assert_eq!(db.handle(registered("bob", "b@x.com"), 11), Ok(Reply::Found(false)));
    assert_eq!(db.handle(registered("Alice", "a@x.com"), 11), Ok(Reply::Found(false)));
    assert_eq!(db.handle(registered("alice", "a@x.com "), 11), Ok(Reply::Found(false)));
    assert_eq!(db.handle(registered("a@x.com", "alice"), 11), Ok(Reply::Found(false)));
}

#[test]
fn registered_does_not_mix_rows() {
    let mut db = service();
    assert_eq!(db.handle(create("u1", "alice", "a@x.com", "p"), 10), Ok(Reply::Done));
    assert_eq!(db.handle(create("u2", "bob", "b@x.com", "q"), 10), Ok(Reply::Done));
    assert_eq!(db.handle(registered("alice", "b@x.com"), 11), Ok(Reply::Found(false)));
    assert_eq!(db.handle(registered("bob", "a@x.com"), 11), Ok(Reply::Found(false)));
    assert_eq!(db.handle(registered("bob", "b@x.com"), 11), Ok(Reply::Found(true)));
}

#[test]
fn activation_twice_leaves_the_flag_set() {
    let mut db = service();
    assert_eq!(db.handle(create("u1", "alice", "a@x.com", "p"), 10), Ok(Reply::Done));
    assert_eq!(db.handle(activate("u1"), 20), Ok(Reply::Done));
    assert!(db.find("u1").expect("the row exists").is_email_activate);
    assert_eq!(db.find("u1").expect("the row exists").updated_at, Some(20));
    assert_eq!(db.handle(activate("u1"), 30), Ok(Reply::Done));
    let row = db.find("u1").expect("the row exists");
    assert!(row.is_email_activate);
    assert_eq!(row.updated_at, Some(30));
    assert_eq!(row.created_at, 10);
    assert_eq!(row.username, "alice");
    assert_eq!(row.email, "a@x.com");
}

#[test]
fn activating_an_absent_user_succeeds_and_changes_nothing() {
    let mut db = service();
    assert_eq!(db.handle(activate("nobody"), 20), Ok(Reply::Done));
    assert_eq!(db.handle(check("nobody"), 21), Ok(Reply::Found(false)));
    assert_eq!(db.handle(set_email("nobody", "x@x.com"), 21), Ok(Reply::Done));
    assert_eq!(db.handle(set_username("nobody", "x"), 21), Ok(Reply::Done));
    assert_eq!(db.handle(set_password("nobody", "x"), 21), Ok(Reply::Done));
    assert_eq!(db.handle(registered("x", "x@x.com"), 22), Ok(Reply::Found(false)));
}

#[test]
fn scenario_create_update_email_delete() {
    let mut db = service();
    assert_eq!(db.handle(create("u1", "alice", "a@x.com", "p"), 100), Ok(Reply::Done));
    assert_eq!(db.handle(check("u1"), 101), Ok(Reply::Found(true)));
    assert_eq!(db.handle(set_email("u1", "a2@x.com"), 102), Ok(Reply::Done));
    let row = db.find("u1").expect("the row exists");
    assert_eq!(row.email, "a2@x.com");
    assert_eq!(row.username, "alice");
    assert_eq!(row.password, "p");
    assert_eq!(row.created_at, 100);
    assert_eq!(row.updated_at, Some(102));
    assert_eq!(db.handle(registered("alice", "a2@x.com"), 103), Ok(Reply::Found(true)));
    assert_eq!(db.handle(registered("alice", "a@x.com"), 103), Ok(Reply::Found(false)));
    assert_eq!(db.handle(delete("u1"), 104), Ok(Reply::Done));
    assert_eq!(db.handle(check("u1"), 105), Ok(Reply::Found(false)));
}

#[test]
fn scenario_second_of_two_equal_registrations_is_a_duplicate() {
    let mut db = service();
    assert_eq!(db.handle(registered("alice", "a@x.com"), 1), Ok(Reply::Found(false)));
    assert_eq!(db.handle(registered("alice", "a@x.com"), 1), Ok(Reply::Found(false)));
    assert_eq!(db.handle(create("u1", "alice", "a@x.com", "p"), 2), Ok(Reply::Done));
    let second = db.handle(create("u2", "alice", "a@x.com", "p"), 2);
    assert_eq!(second, Err(Error::DuplicateUser));
    assert!(second.as_ref().unwrap_err().was_attempted());
    assert_eq!(db.handle(check("u1"), 3), Ok(Reply::Found(true)));
    assert_eq!(db.handle(check("u2"), 3), Ok(Reply::Found(false)));
}

#[test]
fn second_row_under_one_identifier_is_a_failed_statement() {
    let mut db = service();
    assert_eq!(db.handle(create("u1", "alice", "a@x.com", "p"), 2), Ok(Reply::Done));
    let second = db.handle(create("u1", "bob", "b@x.com", "q"), 3);
    assert!(matches!(second, Err(Error::DieselError(_))));
    assert!(second.as_ref().unwrap_err().was_attempted());
    let row = db.find("u1").expect("the row exists");
    assert_eq!(row.username, "alice");
    assert_eq!(row.created_at, 2);
    let same = db.handle(create("u1", "alice", "a@x.com", "p"), 3);
    assert!(matches!(same, Err(Error::DieselError(_))));
}

#[test]
fn one_field_may_be_shared() {
    let mut db = service();
    assert_eq!(db.handle(create("u1", "alice", "a@x.com", "p"), 2), Ok(Reply::Done));
    assert_eq!(db.handle(create("u2", "alice", "b@x.com", "p"), 2), Ok(Reply::Done));
    assert_eq!(db.handle(create("u3", "bob", "a@x.com", "p"), 2), Ok(Reply::Done));
    assert_eq!(db.handle(check("u3"), 3), Ok(Reply::Found(true)));
}

#[test]
fn update_into_a_duplicate_is_refused() {
    let mut db = service();
    assert_eq!(db.handle(create("u1", "alice", "a@x.com", "p"), 2), Ok(Reply::Done));
    assert_eq!(db.handle(create("u2", "alice", "b@x.com", "p"), 2), Ok(Reply::Done));
    assert_eq!(db.handle(create("u3", "bob", "a@x.com", "p"), 2), Ok(Reply::Done));
    assert_eq!(db.handle(set_email("u2", "a@x.com"), 5), Err(Error::DuplicateUser));
    assert_eq!(db.handle(set_username("u3", "alice"), 5), Err(Error::DuplicateUser));
    assert_eq!(db.find("u2").expect("the row exists").email, "b@x.com");
    assert_eq!(db.find("u2").expect("the row exists").updated_at, None);
    assert_eq!(db.find("u3").expect("the row exists").username, "bob");
    assert_eq!(db.handle(set_email("u2", "c@x.com"), 6), Ok(Reply::Done));
    assert_eq!(db.handle(set_username("u3", "carol"), 6), Ok(Reply::Done));
    assert_eq!(db.find("u3").expect("the row exists").username, "carol");
}

#[test]
fn update_to_the_same_value_succeeds() {
    let mut db = service();
    assert_eq!(db.handle(create("u1", "alice", "a@x.com", "p"), 2), Ok(Reply::Done));
    assert_eq!(db.handle(set_email("u1", "a@x.com"), 5), Ok(Reply::Done));
    assert_eq!(db.handle(set_username("u1", "alice"), 6), Ok(Reply::Done));
    assert_eq!(db.find("u1").expect("the row exists").updated_at, Some(6));
}

#[test]
fn updates_change_one_field_only() {
    let mut db = service();
    assert_eq!(db.handle(create("u1", "alice", "a@x.com", "p"), 2), Ok(Reply::Done));
    assert_eq!(db.handle(create("u2", "bob", "b@x.com", "q"), 2), Ok(Reply::Done));
    assert_eq!(db.handle(set_username("u1", "alicia"), 3), Ok(Reply::Done));
    assert_eq!(db.handle(set_password("u1", "secret"), 4), Ok(Reply::Done));
    let row = db.find("u1").expect("the row exists");
    assert_eq!(row.id, "u1");
    assert_eq!(row.username, "alicia");
    assert_eq!(row.email, "a@x.com");
    assert_eq!(row.password, "secret");
    assert!(!row.is_email_activate);
    assert_eq!(row.created_at, 2);
    assert_eq!(row.updated_at, Some(4));
    let other = db.find("u2").expect("the row exists");
    assert_eq!(other.username, "bob");
    assert_eq!(other.password, "q");
    assert_eq!(other.updated_at, None);
}

#[test]
fn update_is_always_after_creation() {
    let mut db = service();
    assert_eq!(db.handle(create("u1", "alice", "a@x.com", "p"), 100), Ok(Reply::Done));
    assert_eq!(db.handle(activate("u1"), 100), Ok(Reply::Done));
    assert_eq!(db.find("u1").expect("the row exists").updated_at, Some(101));
    assert_eq!(db.handle(activate("u1"), 50), Ok(Reply::Done));
    assert_eq!(db.find("u1").expect("the row exists").updated_at, Some(101));
    assert_eq!(db.handle(activate("u1"), 200), Ok(Reply::Done));
    assert_eq!(db.find("u1").expect("the row exists").updated_at, Some(200));
}

#[test]
fn times_are_clamped() {
    assert_eq!(creation_time(0), 0);
    assert_eq!(creation_time(-5), -5);
    assert_eq!(creation_time(1700000000), 1700000000);
    assert_eq!(creation_time(i64::MAX), i64::MAX - 1);
    assert_eq!(creation_time(i64::MAX - 1), i64::MAX - 1);
    assert_eq!(update_time(10, 11), 11);
    assert_eq!(update_time(10, 10), 11);
    assert_eq!(update_time(10, 9), 11);
    assert_eq!(update_time(10, i64::MAX), i64::MAX);
    assert_eq!(update_time(i64::MAX - 1, 0), i64::MAX);
    assert_eq!(update_time(i64::MIN, i64::MIN), i64::MIN + 1);
}

#[test]
fn creation_at_the_end_of_time_can_still_be_updated() {
    let mut db = service();
    assert_eq!(db.handle(create("u1", "alice", "a@x.com", "p"), i64::MAX), Ok(Reply::Done));
    assert_eq!(db.find("u1").expect("the row exists").created_at, i64::MAX - 1);
    assert_eq!(db.handle(activate("u1"), 0), Ok(Reply::Done));
    assert_eq!(db.find("u1").expect("the row exists").updated_at, Some(i64::MAX));
}

#[test]
fn exhausted_pool_refuses_without_attempting() {
    let mut db = DbService::new(ConnectionPool::new(1));
    assert_eq!(db.handle(create("u1", "alice", "a@x.com", "p"), 1), Ok(Reply::Done));
    assert_eq!(db.checkout(), Ok(()));
    assert_eq!(db.pool().in_use(), 1);
    let refused = db.handle(create("u2", "bob", "b@x.com", "q"), 2);
    assert!(matches!(refused, Err(Error::PoolError(_))));
    assert!(!refused.as_ref().unwrap_err().was_attempted());
    assert!(matches!(db.handle(check("u1"), 2), Err(Error::PoolError(_))));
    assert!(matches!(db.handle(delete("u1"), 2), Err(Error::PoolError(_))));
    assert!(matches!(db.checkout(), Err(Error::PoolError(_))));
    assert_eq!(db.pool().in_use(), 1);
    db.checkin();
    assert_eq!(db.pool().in_use(), 0);
    assert_eq!(db.handle(check("u1"), 3), Ok(Reply::Found(true)));
    assert_eq!(db.handle(check("u2"), 3), Ok(Reply::Found(false)));
}

#[test]
fn pool_of_no_connections_serves_nothing() {
    let mut db = DbService::new(ConnectionPool::new(0));
    assert!(matches!(db.handle(check("u1"), 1), Err(Error::PoolError(_))));
    assert!(matches!(db.handle_now(check("u1")), Err(Error::PoolError(_))));
}

#[test]
fn connection_is_given_back_after_every_message() {
    let mut db = DbService::new(ConnectionPool::new(2));
    assert_eq!(db.checkout(), Ok(()));
    for round in 0..5 {
        assert_eq!(db.handle(create("u1", "alice", "a@x.com", "p"), round).is_ok(), round == 0);
        assert_eq!(db.pool().in_use(), 1);
        assert_eq!(db.handle(check("u1"), round), Ok(Reply::Found(true)));
        assert_eq!(db.pool().in_use(), 1);
    }
    assert_eq!(db.pool().max_size(), 2);
}

#[test]
fn pool_counts_connections() {
    let mut pool = ConnectionPool::new(2);
    assert_eq!(pool.max_size(), 2);
    assert_eq!(pool.in_use(), 0);
    assert_eq!(pool.available(), 2);
    assert_eq!(pool.acquire(), Ok(()));
    assert_eq!(pool.acquire(), Ok(()));
    assert_eq!(pool.available(), 0);
    assert!(matches!(pool.acquire(), Err(Error::PoolError(_))));
    assert_eq!(pool.in_use(), 2);
    pool.release();
    assert_eq!(pool.in_use(), 1);
    assert_eq!(pool.acquire(), Ok(()));
    pool.release();
    pool.release();
    pool.release();
    assert_eq!(pool.in_use(), 0);
    assert_eq!(pool.available(), 2);
}

#[test]
fn clock_stamps_the_row() {
    let mut db = service();
    assert_eq!(db.handle_now(create("u1", "alice", "a@x.com", "p")), Ok(Reply::Done));
    let created_at = db.find("u1").expect("the row exists").created_at;
    assert!(created_at > 1600000000);
    assert!(created_at < i64::MAX - 1);
    assert_eq!(db.handle_now(activate("u1")), Ok(Reply::Done));
    let row = db.find("u1").expect("the row exists");
    assert!(row.is_email_activate);
    assert!(row.updated_at.expect("the row was updated") > created_at);
    assert_eq!(db.handle_now(check("u1")), Ok(Reply::Found(true)));
}

#[test]
fn replies_and_counts() {
    assert_eq!(Reply::Done.found(), None);
    assert_eq!(Reply::Found(true).found(), Some(true));
    assert_eq!(Reply::Found(false).found(), Some(false));
    assert!(check_user_answer(1));
    assert!(!check_user_answer(0));
    assert!(!check_user_answer(2));
    assert!(!check_user_answer(-1));
    assert!(registered_answer(1));
    assert!(registered_answer(2));
    assert!(!registered_answer(0));
    assert!(!registered_answer(-1));
}

#[test]
fn table_operations() {
    let mut table = UserTable::new();
    assert_eq!(table.len(), 0);
    assert!(!table.check_user("u1"));
    assert!(table.get("u1").is_none());
    assert_eq!(
        table.insert("u1".to_string(), "alice".to_string(), "p".to_string(), "a@x.com".to_string(), 7),
        Ok(())
    );
    assert_eq!(table.len(), 1);
    assert!(table.check_user("u1"));
    assert!(table.is_registered("alice", "a@x.com"));
    assert!(!table.is_registered("alice", "b@x.com"));
    assert_eq!(
        table.insert("u2".to_string(), "alice".to_string(), "q".to_string(), "a@x.com".to_string(), 8),
        Err(Error::DuplicateUser)
    );
    assert!(matches!(
        table.insert("u1".to_string(), "zed".to_string(), "q".to_string(), "z@x.com".to_string(), 8),
        Err(Error::DieselError(_))
    ));
    assert_eq!(table.len(), 1);
    assert_eq!(table.update("u1", FieldChange::Email("b@x.com".to_string()), 9), Ok(()));
    assert_eq!(table.update("u1", FieldChange::Username("al".to_string()), 10), Ok(()));
    assert_eq!(table.update("u1", FieldChange::Password("pw".to_string()), 11), Ok(()));
    assert_eq!(table.update("u1", FieldChange::ActivateEmail, 12), Ok(()));
    assert_eq!(table.update("nobody", FieldChange::ActivateEmail, 12), Ok(()));
    let row = table.get("u1").expect("the row exists");
    assert_eq!(row.email, "b@x.com");
    assert_eq!(row.username, "al");
    assert_eq!(row.password, "pw");
    assert!(row.is_email_activate);
    assert_eq!(row.created_at, 7);
    assert_eq!(row.updated_at, Some(12));
    table.delete("nobody");
    assert_eq!(table.len(), 1);
    table.delete("u1");
    assert_eq!(table.len(), 0);
    assert!(!table.check_user("u1"));
    assert!(!table.is_registered("al", "b@x.com"));
}

#[test]
fn deleting_from_the_middle_keeps_the_others() {
    let mut db = service();
    for (id, name) in [("a", "n1"), ("b", "n2"), ("c", "n3"), ("d", "n4")] {
        assert_eq!(db.handle(create(id, name, "e@x.com", "p"), 1), Ok(Reply::Done));
    }
    assert_eq!(db.handle(delete("b"), 2), Ok(Reply::Done));
    assert_eq!(db.handle(delete("d"), 2), Ok(Reply::Done));
    assert_eq!(db.handle(check("a"), 3), Ok(Reply::Found(true)));
    assert_eq!(db.handle(check("b"), 3), Ok(Reply::Found(false)));
    assert_eq!(db.handle(check("c"), 3), Ok(Reply::Found(true)));
    assert_eq!(db.handle(check("d"), 3), Ok(Reply::Found(false)));
    assert_eq!(db.find("c").expect("the row exists").username, "n3");
    assert_eq!(db.handle(create("b", "n2", "e@x.com", "p"), 4), Ok(Reply::Done));
    assert_eq!(db.find("b").expect("the row exists").created_at, 4);
}

#[test]
fn each_message_is_served_by_one_statement() {
    assert_eq!(
        statement_for(create("u1", "alice", "a@x.com", "p"), 1700000000),
        Statement::Insert(Users {
            id: "u1".to_string(),
            username: "alice".to_string(),
            email: "a@x.com".to_string(),
            password: "p".to_string(),
            is_email_activate: false,
            created_at: 1700000000,
            updated_at: None,
        })
    );
    assert_eq!(
        statement_for(set_username("u1", "al"), 5),
        Statement::Update("u1".to_string(), FieldChange::Username("al".to_string()), 5)
    );
    assert_eq!(
        statement_for(set_email("u1", "b@x.com"), 6),
        Statement::Update("u1".to_string(), FieldChange::Email("b@x.com".to_string()), 6)
    );
    assert_eq!(
        statement_for(set_password("u1", "pw"), 7),
        Statement::Update("u1".to_string(), FieldChange::Password("pw".to_string()), 7)
    );
    assert_eq!(
        statement_for(activate("u1"), 8),
        Statement::Update("u1".to_string(), FieldChange::ActivateEmail, 8)
    );
    assert_eq!(statement_for(delete("u1"), 9), Statement::Delete("u1".to_string()));
    assert_eq!(statement_for(check("u1"), 9), Statement::CountById("u1".to_string()));
    assert_eq!(
        statement_for(registered("alice", "a@x.com"), 9),
        Statement::CountByUsernameAndEmail("alice".to_string(), "a@x.com".to_string())
    );
}

#[test]
fn creation_at_the_end_of_time_inserts_a_row_that_can_be_updated() {
    match statement_for(create("u1", "alice", "a@x.com", "p"), i64::MAX) {
        Statement::Insert(row) => assert_eq!(row.created_at, i64::MAX - 1),
        other => panic!("not an insertion: {:?}", other),
    }
}

#[test]
fn replies_are_made_of_row_counts() {
    let insert = statement_for(create("u1", "alice", "a@x.com", "p"), 1);
    assert_eq!(reply_for(&insert, 1), Reply::Done);
    let update = statement_for(activate("u1"), 1);
    assert_eq!(reply_for(&update, 0), Reply::Done);
    assert_eq!(reply_for(&update, 1), Reply::Done);
    let remove = statement_for(delete("u1"), 1);
    assert_eq!(reply_for(&remove, 0), Reply::Done);
    assert_eq!(reply_for(&remove, 1), Reply::Done);
    let by_id = statement_for(check("u1"), 1);
    assert_eq!(reply_for(&by_id, 0), Reply::Found(false));
    assert_eq!(reply_for(&by_id, 1), Reply::Found(true));
    assert_eq!(reply_for(&by_id, 2), Reply::Found(false));
    let by_pair = statement_for(registered("alice", "a@x.com"), 1);
    assert_eq!(reply_for(&by_pair, 0), Reply::Found(false));
    assert_eq!(reply_for(&by_pair, 1), Reply::Found(true));
    assert_eq!(reply_for(&by_pair, 2), Reply::Found(true));
}

#[test]
fn rows_are_built_and_copied() {
    let row = new_row("u1".to_string(), "alice".to_string(), "p".to_string(), "a@x.com".to_string(), 3);
    assert_eq!(row.id, "u1");
    assert_eq!(row.username, "alice");
    assert_eq!(row.password, "p");
    assert_eq!(row.email, "a@x.com");
    assert!(!row.is_email_activate);
    assert_eq!(row.created_at, 3);
    assert_eq!(row.updated_at, None);
    assert_eq!(row.duplicate(), row);
    let mut table = UserTable::new();
    assert_eq!(table.insert_row(row.duplicate()), Ok(()));
    assert!(matches!(table.insert_row(row.duplicate()), Err(Error::DieselError(_))));
    assert_eq!(table.get("u1"), Some(&row));
    for change in [
        FieldChange::Username("a".to_string()),
        FieldChange::Email("b".to_string()),
        FieldChange::Password("c".to_string()),
        FieldChange::ActivateEmail,
    ] {
        assert_eq!(change.duplicate(), change);
    }
}

#[test]
fn refused_statements_are_duplicates_or_failures() {
    let reason = || "duplicate key value violates unique constraint".to_string();
    assert_eq!(
        statement_failure(true, Some("users_username_email_key"), reason()),
        Error::DuplicateUser
    );
    assert_eq!(
        statement_failure(true, Some("users_pkey"), reason()),
        Error::DieselError(reason())
    );
    assert_eq!(statement_failure(true, None, reason()), Error::DieselError(reason()));
    assert_eq!(
        statement_failure(false, Some("users_username_email_key"), reason()),
        Error::DieselError(reason())
    );
    assert_eq!(
        statement_failure(false, None, "syntax error".to_string()),
        Error::DieselError("syntax error".to_string())
    );
    assert!(statement_failure(true, Some("users_username_email_key"), reason()).was_attempted());
    assert!(statement_failure(false, None, reason()).was_attempted());
}

#[test]
fn table_is_created_with_its_constraints() {
    let statement = create_table_statement();
    assert_eq!(
        statement,
        "CREATE TABLE IF NOT EXISTS users (id VARCHAR PRIMARY KEY, username VARCHAR NOT NULL, \
         email VARCHAR NOT NULL, password VARCHAR NOT NULL, is_email_activate BOOLEAN NOT NULL, \
         created_at TIMESTAMPTZ NOT NULL, updated_at TIMESTAMPTZ, \
         CHECK (updated_at IS NULL OR created_at < updated_at), \
         CONSTRAINT users_username_email_key UNIQUE (username, email))"
    );
    assert_eq!(
        statement_failure(true, Some("users_username_email_key"), "refused".to_string()),
        Error::DuplicateUser
    );
}
