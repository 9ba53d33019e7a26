//! The data access service: the one component through which the user
//! mirror is read and written. It answers typed messages; each message takes
//! one connection from the pool, runs one statement and gives the connection
//! back, whether the statement succeeded or not.

use crate::errors::Error;
use crate::pool::ConnectionPool;
use crate::text::same_text;
use crate::users::{
    lemma_activation_idempotent, new_row, spec_change_refused, spec_check_user, spec_consistent,
    spec_delete, spec_insert, spec_insert_outcome, spec_is_registered, spec_new_row, spec_update,
    Change, FieldChange, InsertOutcome, Mirror, UserTable, UserView, Users,
};
use vstd::prelude::*;
use vstd::string::*;

verus! {

/// Creates the row of a newly registered user.
#[derive(Debug, Clone, PartialEq, Eq)]
pub struct CreateUser {
    pub id: String,
    pub username: String,
    pub password: String,
    pub email: String,
}

/// Marks a user's email as activated.
#[derive(Debug, Clone, PartialEq, Eq)]
pub struct UpdateActivateEmail {
    pub user_id: String,
}

/// Deletes a user's row.
#[derive(Debug, Clone, PartialEq, Eq)]
pub struct DeleteUser {
    pub user_id: String,
}

/// Changes a user's email.
#[derive(Debug, Clone, PartialEq, Eq)]
pub struct UpdateEmail {
    pub user_id: String,
    pub email: String,
}

/// Changes a user's username.
#[derive(Debug, Clone, PartialEq, Eq)]
pub struct UpdateUsername {
    pub user_id: String,
    pub username: String,
}

/// Changes the local copy of a user's password.
#[derive(Debug, Clone, PartialEq, Eq)]
pub struct UpdatePassword {
    pub user_id: String,
    pub password: String,
}

/// Asks whether a user with this identifier exists.
#[derive(Debug, Clone, PartialEq, Eq)]
pub struct CheckUser {
    pub id: String,
}

/// Asks whether a user with this username and email exists.
#[derive(Debug, Clone, PartialEq, Eq)]
pub struct CheckIfRegisteredUser {
    pub username: String,
    pub email: String,
}

/// Any message that the service answers.
#[derive(Debug, Clone, PartialEq, Eq)]
pub enum Message {
    CreateUser(CreateUser),
    UpdateUsername(UpdateUsername),
    UpdateEmail(UpdateEmail),
    UpdatePassword(UpdatePassword),
    UpdateActivateEmail(UpdateActivateEmail),
    DeleteUser(DeleteUser),
    CheckUser(CheckUser),
    CheckIfRegisteredUser(CheckIfRegisteredUser),
}

/// A message as a mathematical value.
pub enum MessageView {
    CreateUser { id: Seq<char>, username: Seq<char>, password: Seq<char>, email: Seq<char> },
    Update { id: Seq<char>, change: Change },
    DeleteUser { id: Seq<char> },
    CheckUser { id: Seq<char> },
    CheckIfRegisteredUser { username: Seq<char>, email: Seq<char> },
}

impl View for Message {
    type V = MessageView;

    open spec fn view(&self) -> MessageView {
        match self {
            Message::CreateUser(m) => MessageView::CreateUser {
                id: m.id@,
                username: m.username@,
                password: m.password@,
                email: m.email@,
            },
            Message::UpdateUsername(m) => MessageView::Update {
                id: m.user_id@,
                change: Change::Username(m.username@),
            },
            Message::UpdateEmail(m) => MessageView::Update {
                id: m.user_id@,
                change: Change::Email(m.email@),
            },
            Message::UpdatePassword(m) => MessageView::Update {
                id: m.user_id@,
                change: Change::Password(m.password@),
            },
            Message::UpdateActivateEmail(m) => MessageView::Update {
                id: m.user_id@,
                change: Change::ActivateEmail,
            },
            Message::DeleteUser(m) => MessageView::DeleteUser { id: m.user_id@ },
            Message::CheckUser(m) => MessageView::CheckUser { id: m.id@ },
            Message::CheckIfRegisteredUser(m) => MessageView::CheckIfRegisteredUser {
                username: m.username@,
                email: m.email@,
            },
        }
    }
}

/// The answer to a message that was served.
#[derive(Debug, Clone, Copy, PartialEq, Eq, Structural)]
pub enum Reply {
    /// A write was carried out, or found nothing to do.
    Done,
    /// The answer to a question.
    Found(bool),
}

impl Reply {
    /// The answer to a question, where this is one.
    pub fn found(&self) -> (answer: Option<bool>)
        ensures
            answer == match *self {
                Reply::Found(yes) => Some(yes),
                Reply::Done => None,
            },
    {
        match self {
            Reply::Found(yes) => Some(*yes),
            Reply::Done => None,
        }
    }
}

/// The answer to the question whether a user exists, given the number of
/// rows that carry the identifier: yes for exactly one.
pub fn check_user_answer(rows: i64) -> (exists: bool)
    ensures
        exists == (rows == 1),
{
    rows == 1
}

/// The answer to the question whether a username and email are
/// registered, given the number of rows that hold both: yes for any.
pub fn registered_answer(rows: i64) -> (registered: bool)
    ensures
        registered == (rows > 0),
{
    rows > 0
}

/// How the one statement of a message ends.
#[derive(Debug, Clone, Copy, PartialEq, Eq, Structural)]
pub enum Outcome {
    /// The statement ran: this is the answer.
    Served(Reply),
    /// The statement was refused by the primary key.
    StatementFailed,
    /// The statement was refused by the uniqueness constraint on username
    /// and email.
    Duplicate,
}

/// The one statement that serves a message.
#[derive(Debug, Clone, PartialEq, Eq)]
pub enum Statement {
    /// Insert this row.
    Insert(Users),
    /// Make this change, at this time, to the row under this identifier.
    Update(String, FieldChange, i64),
    /// Delete the row under this identifier.
    Delete(String),
    /// Count the rows under this identifier.
    CountById(String),
    /// Count the rows that hold this username together with this email.
    CountByUsernameAndEmail(String, String),
}

/// A statement as a mathematical value.
pub enum StatementView {
    Insert { row: UserView },
    Update { id: Seq<char>, change: Change, now: int },
    Delete { id: Seq<char> },
    CountById { id: Seq<char> },
    CountByUsernameAndEmail { username: Seq<char>, email: Seq<char> },
}

impl View for Statement {
    type V = StatementView;

    open spec fn view(&self) -> StatementView {
        match self {
            Statement::Insert(row) => StatementView::Insert { row: row@ },
            Statement::Update(id, change, now) => StatementView::Update {
                id: id@,
                change: change@,
                now: *now as int,
            },
            Statement::Delete(id) => StatementView::Delete { id: id@ },
            Statement::CountById(id) => StatementView::CountById { id: id@ },
            Statement::CountByUsernameAndEmail(username, email) =>
                StatementView::CountByUsernameAndEmail { username: username@, email: email@ },
        }
    }
}

/// What the database reports of a statement.
pub enum Tally {
    /// The statement ran: the number of rows it changed, or counted.
    Rows(int),
    /// The statement was refused by the primary key.
    StatementFailed,
    /// The statement was refused by the uniqueness constraint on username
    /// and email.
    Duplicate,
}

/// The statement that serves `message` at `now`. A creation inserts a row
/// that is not activated and was never updated.
pub open spec fn spec_statement(message: MessageView, now: int) -> StatementView {
    match message {
        MessageView::CreateUser { id, username, password, email } => StatementView::Insert {
            row: spec_new_row(id, username, password, email, now),
        },
        MessageView::Update { id, change } => StatementView::Update { id, change, now },
        MessageView::DeleteUser { id } => StatementView::Delete { id },
        MessageView::CheckUser { id } => StatementView::CountById { id },
        MessageView::CheckIfRegisteredUser { username, email } =>
            StatementView::CountByUsernameAndEmail { username, email },
    }
}

/// The mirror after `statement` ran.
pub open spec fn spec_effect(mirror: Mirror, statement: StatementView) -> Mirror {
    match statement {
        StatementView::Insert { row } => spec_insert(mirror, row),
        StatementView::Update { id, change, now } => spec_update(mirror, id, change, now),
        StatementView::Delete { id } => spec_delete(mirror, id),
        StatementView::CountById { id } => mirror,
        StatementView::CountByUsernameAndEmail { username, email } => mirror,
    }
}

/// One where `present`, none otherwise.
pub open spec fn spec_one_if(present: bool) -> int {
    if present {
        1
    } else {
        0
    }
}

/// What the database reports when `statement` runs against `mirror`.
pub open spec fn spec_tally(mirror: Mirror, statement: StatementView) -> Tally {
    match statement {
        StatementView::Insert { row } => match spec_insert_outcome(mirror, row) {
            InsertOutcome::Inserted => Tally::Rows(1),
            InsertOutcome::IdTaken => Tally::StatementFailed,
            InsertOutcome::PairTaken => Tally::Duplicate,
        },
        StatementView::Update { id, change, now } => if spec_change_refused(mirror, id, change) {
            Tally::Duplicate
        } else {
            Tally::Rows(spec_one_if(spec_check_user(mirror, id)))
        },
        StatementView::Delete { id } => Tally::Rows(spec_one_if(spec_check_user(mirror, id))),
        StatementView::CountById { id } => Tally::Rows(spec_one_if(spec_check_user(mirror, id))),
        StatementView::CountByUsernameAndEmail { username, email } => Tally::Rows(
            spec_one_if(spec_is_registered(mirror, username, email)),
        ),
    }
}

/// The answer made of the number of rows that `statement` changed or
/// counted. A write is done however many rows it changed, none among them.
/// A user exists when exactly one row carries the identifier; a username and
/// email are registered when any row holds both.
pub open spec fn spec_reply(statement: StatementView, rows: int) -> Reply {
    match statement {
        StatementView::CountById { id } => Reply::Found(rows == 1),
        StatementView::CountByUsernameAndEmail { username, email } => Reply::Found(rows > 0),
        _ => Reply::Done,
    }
}

/// The mirror after the statement of `message` ran at `now`.
pub open spec fn spec_apply(mirror: Mirror, message: MessageView, now: int) -> Mirror {
    spec_effect(mirror, spec_statement(message, now))
}

/// How the statement of `message` ends when it runs against `mirror` at
/// `now`.
pub open spec fn spec_outcome(mirror: Mirror, message: MessageView, now: int) -> Outcome {
    match spec_tally(mirror, spec_statement(message, now)) {
        Tally::Rows(rows) => Outcome::Served(spec_reply(spec_statement(message, now), rows)),
        Tally::StatementFailed => Outcome::StatementFailed,
        Tally::Duplicate => Outcome::Duplicate,
    }
}

/// The statement that serves `message` at `now`.
pub fn statement_for(message: Message, now: i64) -> (statement: Statement)
    ensures
        statement@ == spec_statement(message@, now as int),
        statement matches Statement::Insert(row) ==> row@.well_formed(),
{
    match message {
        Message::CreateUser(m) => Statement::Insert(
            new_row(m.id, m.username, m.password, m.email, now),
        ),
        Message::UpdateUsername(m) => Statement::Update(
            m.user_id,
            FieldChange::Username(m.username),
            now,
        ),
        Message::UpdateEmail(m) => Statement::Update(m.user_id, FieldChange::Email(m.email), now),
        Message::UpdatePassword(m) => Statement::Update(
            m.user_id,
            FieldChange::Password(m.password),
            now,
        ),
        Message::UpdateActivateEmail(m) => Statement::Update(
            m.user_id,
            FieldChange::ActivateEmail,
            now,
        ),
        Message::DeleteUser(m) => Statement::Delete(m.user_id),
        Message::CheckUser(m) => Statement::CountById(m.id),
        Message::CheckIfRegisteredUser(m) => Statement::CountByUsernameAndEmail(
            m.username,
            m.email,
        ),
    }
}

/// The answer made of the number of rows that `statement` changed or
/// counted.
pub fn reply_for(statement: &Statement, rows: i64) -> (reply: Reply)
    ensures
        reply == spec_reply(statement@, rows as int),
{
    match statement {
        Statement::CountById(_) => Reply::Found(check_user_answer(rows)),
        Statement::CountByUsernameAndEmail(_, _) => Reply::Found(registered_answer(rows)),
        _ => Reply::Done,
    }
}

/// Whether `answer` is what a caller is told when the statement ended as
/// `outcome`: the reply itself, a failed statement as a `DieselError`, a
/// duplicate as `DuplicateUser`.
pub open spec fn spec_tells(answer: Result<Reply, Error>, outcome: Outcome) -> bool {
    match outcome {
        Outcome::Served(reply) => answer == Ok::<Reply, Error>(reply),
        Outcome::StatementFailed => answer matches Err(Error::DieselError(_)),
        Outcome::Duplicate => answer matches Err(Error::DuplicateUser),
    }
}

/// The name of the constraint that keeps username and email unique
/// together.
pub const PAIR_CONSTRAINT: &'static str = "users_username_email_key";

/// The statement that creates the table, up to the name of the constraint on
/// username and email.
pub const CREATE_TABLE_HEAD: &'static str =
    "CREATE TABLE IF NOT EXISTS users (id VARCHAR PRIMARY KEY, username VARCHAR NOT NULL, \
email VARCHAR NOT NULL, password VARCHAR NOT NULL, is_email_activate BOOLEAN NOT NULL, \
created_at TIMESTAMPTZ NOT NULL, updated_at TIMESTAMPTZ, \
CHECK (updated_at IS NULL OR created_at < updated_at), CONSTRAINT ";

/// The statement that creates the table, after the name of the constraint
/// on username and email.
pub const CREATE_TABLE_TAIL: &'static str = " UNIQUE (username, email))";

/// The statement that creates the table of users. Its primary key keeps
/// identifiers unique; the constraint named `PAIR_CONSTRAINT` keeps username
/// and email unique together, so that its violation is told as a duplicate.
pub open spec fn spec_create_table_statement() -> Seq<char> {
    CREATE_TABLE_HEAD@ + PAIR_CONSTRAINT@ + CREATE_TABLE_TAIL@
}

/// The statement that creates the table of users.
pub fn create_table_statement() -> (text: String)
    ensures
        text@ == spec_create_table_statement(),
{
    String::from_str(CREATE_TABLE_HEAD).concat(PAIR_CONSTRAINT).concat(CREATE_TABLE_TAIL)
}

/// Whether a refused statement was refused as a duplicate: it violated a
/// uniqueness constraint, and the constraint is the one on username and
/// email.
pub open spec fn spec_is_duplicate(unique_violation: bool, constraint: Option<Seq<char>>) -> bool {
    unique_violation && constraint == Some(PAIR_CONSTRAINT@)
}

/// The error for a statement that the database refused: a duplicate where
/// the uniqueness of username and email was violated, and otherwise a failed
/// statement that carries the database's reason.
pub fn statement_failure(unique_violation: bool, constraint: Option<&str>, reason: String) -> (error:
    Error)
    ensures
        error == if spec_is_duplicate(
            unique_violation,
            match constraint {
                Some(name) => Some(name@),
                None => None,
            },
        ) {
            Error::DuplicateUser
        } else {
            Error::DieselError(reason)
        },
        error.spec_was_attempted(),
{
    let duplicate = unique_violation && match constraint {
        Some(name) => same_text(name, PAIR_CONSTRAINT),
        None => false,
    };
    if duplicate {
        Error::DuplicateUser
    } else {
        Error::DieselError(reason)
    }
}

/// `chrono::Utc::now`, as seconds since the epoch. The clock decides the
/// result, so nothing is claimed of it. The crate takes the system clock to
/// show a time after 1970.
#[verifier::external_body]
pub(crate) fn current_time() -> (now: i64) {
    chrono::Utc::now().timestamp()
}

/// The data access service: the user mirror behind a bounded pool of
/// connections.
pub struct DbService {
    pool: ConnectionPool,
    table: UserTable,
}

impl View for DbService {
    type V = Mirror;

    closed spec fn view(&self) -> Mirror {
        self.table@
    }
}

impl DbService {
    /// The pool and the table are well formed.
    pub closed spec fn wf(&self) -> bool {
        self.pool.wf() && self.table.wf()
    }

    /// The pool behind the service.
    pub closed spec fn spec_pool(&self) -> ConnectionPool {
        self.pool
    }

    /// A well-formed service stands for a consistent mirror.
    pub proof fn lemma_wf_is_consistent(&self)
        requires
            self.wf(),
        ensures
            spec_consistent(self@),
            self.spec_pool().wf(),
    {
        self.table.lemma_wf_is_consistent();
    }

    /// A service with an empty mirror behind `pool`.
    pub fn new(pool: ConnectionPool) -> (service: Self)
        requires
            pool.wf(),
        ensures
            service.wf(),
            service@ == Mirror::empty(),
            service.spec_pool() == pool,
    {
        DbService { pool, table: UserTable::new() }
    }

    /// The pool behind the service.
    pub fn pool(&self) -> (pool: &ConnectionPool)
        ensures
            *pool == self.spec_pool(),
    {
        &self.pool
    }

    /// Takes a connection out of the pool and keeps it out, as an
    /// operation in flight does.
    pub fn checkout(&mut self) -> (taken: Result<(), Error>)
        requires
            old(self).wf(),
        ensures
            final(self).wf(),
            final(self)@ == old(self)@,
            final(self).spec_pool().spec_max_size() == old(self).spec_pool().spec_max_size(),
            if old(self).spec_pool().spec_exhausted() {
                &&& taken matches Err(Error::PoolError(_))
                &&& final(self).spec_pool() == old(self).spec_pool()
            } else {
                &&& taken is Ok
                &&& final(self).spec_pool().spec_in_use() == old(self).spec_pool().spec_in_use() + 1
            },
    {
        let ghost before = self.pool;
        let taken = self.pool.acquire();
        proof {
            if taken.is_err() {
                self.pool.lemma_same_counts_same_pool(&before);
            }
        }
        taken
    }

    /// Gives back a connection that was kept out.
    pub fn checkin(&mut self)
        requires
            old(self).wf(),
        ensures
            final(self).wf(),
            final(self)@ == old(self)@,
            final(self).spec_pool().spec_max_size() == old(self).spec_pool().spec_max_size(),
            final(self).spec_pool().spec_in_use() == if old(self).spec_pool().spec_in_use() > 0 {
                old(self).spec_pool().spec_in_use() - 1
            } else {
                0
            },
    {
        self.pool.release();
    }

    /// The row under `id`, if there is one.
    pub fn find(&self, id: &str) -> (row: Option<&Users>)
        requires
            self.wf(),
        ensures
            row.is_some() == self@.dom().contains(id@),
            row matches Some(found) ==> found@ == self@[id@],
    {
        self.table.get(id)
    }

    /// Runs `statement` against the table and reports the number of rows
    /// that it changed or counted.
    fn run(&mut self, statement: &Statement) -> (rows: Result<i64, Error>)
        requires
            old(self).wf(),
            statement matches Statement::Insert(row) ==> row@.well_formed(),
        ensures
            final(self).wf(),
            final(self).spec_pool() == old(self).spec_pool(),
            final(self)@ == spec_effect(old(self)@, statement@),
            match spec_tally(old(self)@, statement@) {
                Tally::Rows(n) => rows == Ok::<i64, Error>(n as i64) && (n == 0 || n == 1),
                Tally::StatementFailed => rows matches Err(Error::DieselError(_)),
                Tally::Duplicate => rows matches Err(Error::DuplicateUser),
            },
    {
        match statement {
            Statement::Insert(row) => match self.table.insert_row(row.duplicate()) {
                Ok(()) => Ok(1),
                Err(error) => Err(error),
            },
            Statement::Update(id, change, now) => {
                let present = self.table.check_user(id.as_str());
                match self.table.update(id.as_str(), change.duplicate(), *now) {
                    Ok(()) => Ok(if present { 1 } else { 0 }),
                    Err(error) => Err(error),
                }
            },
            Statement::Delete(id) => {
                let present = self.table.check_user(id.as_str());
                self.table.delete(id.as_str());
                Ok(if present { 1 } else { 0 })
            },
            Statement::CountById(id) => Ok(
                if self.table.check_user(id.as_str()) {
                    1
                } else {
                    0
                },
            ),
            Statement::CountByUsernameAndEmail(username, email) => Ok(
                if self.table.is_registered(username.as_str(), email.as_str()) {
                    1
                } else {
                    0
                },
            ),
        }
    }

    /// Serves `message` with its one statement.
    fn execute(&mut self, message: Message, now: i64) -> (answer: Result<Reply, Error>)
        requires
            old(self).wf(),
        ensures
            final(self).wf(),
            final(self).spec_pool() == old(self).spec_pool(),
            final(self)@ == spec_apply(old(self)@, message@, now as int),
            spec_tells(answer, spec_outcome(old(self)@, message@, now as int)),
    {
        let statement = statement_for(message, now);
        match self.run(&statement) {
            Ok(rows) => Ok(reply_for(&statement, rows)),
            Err(error) => Err(error),
        }
    }

    /// Serves `message` at time `now`. With every connection out the
    /// message is refused with a `PoolError` and no statement is attempted.
    /// Otherwise exactly one statement runs, and the connection is given
    /// back however it ends: the pool is afterwards as it was before.
    pub fn handle(&mut self, message: Message, now: i64) -> (answer: Result<Reply, Error>)
        requires
            old(self).wf(),
        ensures
            final(self).wf(),
            final(self).spec_pool() == old(self).spec_pool(),
            if old(self).spec_pool().spec_exhausted() {
                &&& answer matches Err(Error::PoolError(_))
                &&& final(self)@ == old(self)@
            } else {
                &&& final(self)@ == spec_apply(old(self)@, message@, now as int)
                &&& spec_tells(answer, spec_outcome(old(self)@, message@, now as int))
            },
    {
        let ghost before = self.pool;
        match self.pool.acquire() {
            Err(error) => {
                proof {
                    self.pool.lemma_same_counts_same_pool(&before);
                }
                Err(error)
            },
            Ok(()) => {
                let answer = self.execute(message, now);
                self.pool.release();
                proof {
                    self.pool.lemma_same_counts_same_pool(&before);
                }
                answer
            },
        }
    }

    /// Serves `message` at the time that the clock shows. What is done is
    /// what `handle` does at some time.
    pub fn handle_now(&mut self, message: Message) -> (answer: Result<Reply, Error>)
        requires
            old(self).wf(),
        ensures
            final(self).wf(),
            final(self).spec_pool() == old(self).spec_pool(),
            if old(self).spec_pool().spec_exhausted() {
                &&& answer matches Err(Error::PoolError(_))
                &&& final(self)@ == old(self)@
            } else {
                exists|now: i64|
                    {
                        &&& final(self)@ == #[trigger] spec_apply(old(self)@, message@, now as int)
                        &&& spec_tells(answer, spec_outcome(old(self)@, message@, now as int))
                    }
            },
    {
        let now: i64 = current_time();
        self.handle(message, now)
    }
}

/// A user who was created is found: after a creation, the question
/// whether the identifier exists is answered with yes. Left out is the
/// creation that was refused as a duplicate, of which no row remains.
pub proof fn law_create_then_check(
    mirror: Mirror,
    id: Seq<char>,
    username: Seq<char>,
    password: Seq<char>,
    email: Seq<char>,
    created: int,
    asked: int,
)
    requires
        spec_outcome(mirror, MessageView::CreateUser { id, username, password, email }, created)
            != Outcome::Duplicate,
    ensures
        spec_outcome(
            spec_apply(mirror, MessageView::CreateUser { id, username, password, email }, created),
            MessageView::CheckUser { id },
            asked,
        ) == Outcome::Served(Reply::Found(true)),
{
}

/// A user who was deleted is not found: after a deletion, the question
/// whether the identifier exists is answered with no.
pub proof fn law_delete_then_check(mirror: Mirror, id: Seq<char>, deleted: int, asked: int)
    ensures
        spec_outcome(mirror, MessageView::DeleteUser { id }, deleted) == Outcome::Served(
            Reply::Done,
        ),
        spec_outcome(
            spec_apply(mirror, MessageView::DeleteUser { id }, deleted),
            MessageView::CheckUser { id },
            asked,
        ) == Outcome::Served(Reply::Found(false)),
{
}

/// A username and email count as registered exactly when one row holds
/// both: a row that holds both makes the answer yes, and where every row
/// differs in the username or in the email, be it in one of them only, the
/// answer is no.
pub proof fn law_registered_iff_both_match(
    mirror: Mirror,
    username: Seq<char>,
    email: Seq<char>,
    now: int,
)
    ensures
        (exists|id: Seq<char>| #[trigger]
            mirror.dom().contains(id) && mirror[id].username == username && mirror[id].email
                == email) ==> spec_outcome(
            mirror,
            MessageView::CheckIfRegisteredUser { username, email },
            now,
        ) == Outcome::Served(Reply::Found(true)),
        (forall|id: Seq<char>| #[trigger]
            mirror.dom().contains(id) ==> mirror[id].username != username || mirror[id].email
                != email) ==> spec_outcome(
            mirror,
            MessageView::CheckIfRegisteredUser { username, email },
            now,
        ) == Outcome::Served(Reply::Found(false)),
{
}

/// Activating an email is idempotent: a second activation is served like
/// the first, the flag stays set, and the mirror is what one activation at
/// the later time would have made it.
pub proof fn law_activation_idempotent(mirror: Mirror, id: Seq<char>, first: int, second: int)
    requires
        spec_consistent(mirror),
    ensures
        spec_outcome(mirror, MessageView::Update { id, change: Change::ActivateEmail }, first)
            == Outcome::Served(Reply::Done),
        spec_outcome(
            spec_apply(mirror, MessageView::Update { id, change: Change::ActivateEmail }, first),
            MessageView::Update { id, change: Change::ActivateEmail },
            second,
        ) == Outcome::Served(Reply::Done),
        spec_apply(
            spec_apply(mirror, MessageView::Update { id, change: Change::ActivateEmail }, first),
            MessageView::Update { id, change: Change::ActivateEmail },
            second,
        ) == spec_apply(
            mirror,
            MessageView::Update { id, change: Change::ActivateEmail },
            second,
        ),
        mirror.dom().contains(id) ==> spec_apply(
            spec_apply(mirror, MessageView::Update { id, change: Change::ActivateEmail }, first),
            MessageView::Update { id, change: Change::ActivateEmail },
            second,
        )[id].is_email_activate,
{
    lemma_activation_idempotent(mirror, id, first, second);
}

} // verus!
