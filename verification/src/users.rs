//! The user mirror: the local table of user records, with the meaning of
//! each single statement that the gateway runs against it.

use crate::errors::Error;
use crate::text::same_text;
use vstd::prelude::*;
use vstd::string::*;

verus! {

/// One row of the mirror. Times are seconds since the epoch.
#[derive(Debug, Clone, PartialEq, Eq)]
pub struct Users {
    pub id: String,
    pub username: String,
    pub email: String,
    pub password: String,
    pub is_email_activate: bool,
    pub created_at: i64,
    pub updated_at: Option<i64>,
}

impl Users {
    /// A second copy of the row.
    pub fn duplicate(&self) -> (copy: Self)
        ensures
            copy == *self,
    {
        Users {
            id: self.id.clone(),
            username: self.username.clone(),
            email: self.email.clone(),
            password: self.password.clone(),
            is_email_activate: self.is_email_activate,
            created_at: self.created_at,
            updated_at: self.updated_at,
        }
    }
}

/// A row as a mathematical value.
pub struct UserView {
    pub id: Seq<char>,
    pub username: Seq<char>,
    pub email: Seq<char>,
    pub password: Seq<char>,
    pub is_email_activate: bool,
    pub created_at: int,
    pub updated_at: Option<int>,
}

impl View for Users {
    type V = UserView;

    open spec fn view(&self) -> UserView {
        UserView {
            id: self.id@,
            username: self.username@,
            email: self.email@,
            password: self.password@,
            is_email_activate: self.is_email_activate,
            created_at: self.created_at as int,
            updated_at: match self.updated_at {
                Some(at) => Some(at as int),
                None => None,
            },
        }
    }
}

/// The mirror as a mathematical value: the rows by their identifier.
pub type Mirror = Map<Seq<char>, UserView>;

impl UserView {
    /// A row was never updated before it was created.
    pub open spec fn well_formed(self) -> bool {
        &&& self.created_at < i64::MAX
        &&& match self.updated_at {
            Some(at) => self.created_at < at,
            None => true,
        }
    }
}

/// The time recorded for a row created at `now`.
pub open spec fn spec_creation_time(now: int) -> int {
    if now < i64::MAX {
        now
    } else {
        i64::MAX - 1
    }
}

/// The time recorded for a change made at `now` to a row created at
/// `created_at`: `now`, but never a time at or before the creation.
pub open spec fn spec_update_time(created_at: int, now: int) -> int {
    if now > created_at {
        now
    } else {
        created_at + 1
    }
}

/// The row that a creation at `now` inserts: not activated, never updated.
pub open spec fn spec_new_row(
    id: Seq<char>,
    username: Seq<char>,
    password: Seq<char>,
    email: Seq<char>,
    now: int,
) -> UserView {
    UserView {
        id,
        username,
        email,
        password,
        is_email_activate: false,
        created_at: spec_creation_time(now),
        updated_at: None,
    }
}

/// A mirror is consistent when each row is stored under its own
/// identifier, no two rows share both username and email, and every row is
/// well formed.
pub open spec fn spec_consistent(mirror: Mirror) -> bool {
    &&& forall|id: Seq<char>| #[trigger] mirror.dom().contains(id) ==> mirror[id].id == id
    &&& forall|id: Seq<char>| #[trigger] mirror.dom().contains(id) ==> mirror[id].well_formed()
    &&& forall|a: Seq<char>, b: Seq<char>|
        #![trigger mirror.dom().contains(a), mirror.dom().contains(b)]
        mirror.dom().contains(a) && mirror.dom().contains(b) && mirror[a].username
            == mirror[b].username && mirror[a].email == mirror[b].email ==> a == b
}

/// Some row other than `except` holds this username together with this
/// email.
pub open spec fn spec_pair_taken(
    mirror: Mirror,
    except: Seq<char>,
    username: Seq<char>,
    email: Seq<char>,
) -> bool {
    exists|other: Seq<char>| #[trigger]
        mirror.dom().contains(other) && other != except && mirror[other].username == username
            && mirror[other].email == email
}

/// A row with this identifier exists.
pub open spec fn spec_check_user(mirror: Mirror, id: Seq<char>) -> bool {
    mirror.dom().contains(id)
}

/// A row holds this username together with this email.
pub open spec fn spec_is_registered(mirror: Mirror, username: Seq<char>, email: Seq<char>) -> bool {
    exists|id: Seq<char>| #[trigger]
        mirror.dom().contains(id) && mirror[id].username == username && mirror[id].email == email
}

/// How an insertion ends.
pub enum InsertOutcome {
    /// The row was inserted.
    Inserted,
    /// A row with this identifier exists: the primary key refuses the row.
    IdTaken,
    /// A row with this username and email exists: the uniqueness
    /// constraint refuses the row.
    PairTaken,
}

/// How the insertion of `row` into `mirror` ends.
pub open spec fn spec_insert_outcome(mirror: Mirror, row: UserView) -> InsertOutcome {
    if mirror.dom().contains(row.id) {
        InsertOutcome::IdTaken
    } else if spec_is_registered(mirror, row.username, row.email) {
        InsertOutcome::PairTaken
    } else {
        InsertOutcome::Inserted
    }
}

/// The mirror after the insertion of `row` was attempted.
pub open spec fn spec_insert(mirror: Mirror, row: UserView) -> Mirror {
    match spec_insert_outcome(mirror, row) {
        InsertOutcome::Inserted => mirror.insert(row.id, row),
        _ => mirror,
    }
}

/// A single-field change of a row.
pub enum Change {
    Username(Seq<char>),
    Email(Seq<char>),
    Password(Seq<char>),
    ActivateEmail,
}

/// `row` after `change` was made at `now`.
pub open spec fn spec_changed_row(row: UserView, change: Change, now: int) -> UserView {
    let stamped = UserView { updated_at: Some(spec_update_time(row.created_at, now)), ..row };
    match change {
        Change::Username(username) => UserView { username, ..stamped },
        Change::Email(email) => UserView { email, ..stamped },
        Change::Password(password) => UserView { password, ..stamped },
        Change::ActivateEmail => UserView { is_email_activate: true, ..stamped },
    }
}

/// Whether the uniqueness constraint refuses `change` to the row under
/// `id`: the row exists and another row already holds the username and email
/// that it would come to hold.
pub open spec fn spec_change_refused(mirror: Mirror, id: Seq<char>, change: Change) -> bool {
    mirror.dom().contains(id) && match change {
        Change::Username(username) => spec_pair_taken(mirror, id, username, mirror[id].email),
        Change::Email(email) => spec_pair_taken(mirror, id, mirror[id].username, email),
        _ => false,
    }
}

/// The mirror after `change` to the row under `id` was attempted at `now`.
/// Without such a row nothing changes, and neither does anything when the
/// change is refused.
pub open spec fn spec_update(mirror: Mirror, id: Seq<char>, change: Change, now: int) -> Mirror {
    if mirror.dom().contains(id) && !spec_change_refused(mirror, id, change) {
        mirror.insert(id, spec_changed_row(mirror[id], change, now))
    } else {
        mirror
    }
}

/// The mirror after the row under `id` was deleted.
pub open spec fn spec_delete(mirror: Mirror, id: Seq<char>) -> Mirror {
    mirror.remove(id)
}

/// Insertion keeps a consistent mirror consistent.
pub proof fn lemma_insert_keeps_consistency(mirror: Mirror, row: UserView)
    requires
        spec_consistent(mirror),
        row.well_formed(),
    ensures
        spec_consistent(spec_insert(mirror, row)),
{
    let after = spec_insert(mirror, row);
    if spec_insert_outcome(mirror, row) is Inserted {
        assert forall|a: Seq<char>, b: Seq<char>|
            after.dom().contains(a) && after.dom().contains(b) && after[a].username
                == after[b].username && after[a].email == after[b].email implies a == b by {
            if a != b {
                if a == row.id {
                    assert(mirror.dom().contains(b));
                } else if b == row.id {
                    assert(mirror.dom().contains(a));
                } else {
                    assert(mirror.dom().contains(a) && mirror.dom().contains(b));
                }
            }
        }
    }
}

/// A change keeps a consistent mirror consistent.
pub proof fn lemma_update_keeps_consistency(mirror: Mirror, id: Seq<char>, change: Change, now: int)
    requires
        spec_consistent(mirror),
    ensures
        spec_consistent(spec_update(mirror, id, change, now)),
{
    let after = spec_update(mirror, id, change, now);
    if mirror.dom().contains(id) && !spec_change_refused(mirror, id, change) {
        assert(mirror[id].well_formed());
        assert forall|a: Seq<char>, b: Seq<char>|
            after.dom().contains(a) && after.dom().contains(b) && after[a].username
                == after[b].username && after[a].email == after[b].email implies a == b by {
            if a != b {
                assert(mirror.dom().contains(a) && mirror.dom().contains(b));
            }
        }
    }
}

/// Deletion keeps a consistent mirror consistent.
pub proof fn lemma_delete_keeps_consistency(mirror: Mirror, id: Seq<char>)
    requires
        spec_consistent(mirror),
    ensures
        spec_consistent(spec_delete(mirror, id)),
{
    let after = spec_delete(mirror, id);
    assert forall|a: Seq<char>, b: Seq<char>|
        after.dom().contains(a) && after.dom().contains(b) && after[a].username
            == after[b].username && after[a].email == after[b].email implies a == b by {
        assert(mirror.dom().contains(a) && mirror.dom().contains(b));
    }
}

/// The identifier of a row never changes: whatever is done to the mirror,
/// a row that is still there under an identifier carries that identifier,
/// and its time of creation stays what it was.
pub proof fn lemma_update_keeps_identity(mirror: Mirror, id: Seq<char>, change: Change, now: int)
    requires
        spec_consistent(mirror),
        mirror.dom().contains(id),
    ensures
        spec_update(mirror, id, change, now).dom() == mirror.dom(),
        spec_update(mirror, id, change, now)[id].id == id,
        spec_update(mirror, id, change, now)[id].created_at == mirror[id].created_at,
{
    assert(spec_update(mirror, id, change, now).dom() =~= mirror.dom());
}

/// A username and email count as registered exactly when one row holds
/// both. Inserting a row adds its own pair and no other: a query that shares
/// only the username, or only the email, with the new row is answered as it
/// was before.
pub proof fn lemma_registered_needs_both(
    mirror: Mirror,
    row: UserView,
    username: Seq<char>,
    email: Seq<char>,
)
    requires
        spec_insert_outcome(mirror, row) is Inserted,
    ensures
        spec_is_registered(spec_insert(mirror, row), username, email) <==> spec_is_registered(
            mirror,
            username,
            email,
        ) || (username == row.username && email == row.email),
{
    let after = spec_insert(mirror, row);
    if spec_is_registered(mirror, username, email) {
        let id = choose|id: Seq<char>| #[trigger]
            mirror.dom().contains(id) && mirror[id].username == username && mirror[id].email
                == email;
        assert(after.dom().contains(id));
    }
    if username == row.username && email == row.email {
        assert(after.dom().contains(row.id));
    }
    if spec_is_registered(after, username, email) {
        let id = choose|id: Seq<char>| #[trigger]
            after.dom().contains(id) && after[id].username == username && after[id].email
                == email;
        if id != row.id {
            assert(mirror.dom().contains(id));
        }
    }
}

/// Activating an email twice is the same as activating it once at the
/// later time: the flag is set, and the second activation is not refused.
pub proof fn lemma_activation_idempotent(mirror: Mirror, id: Seq<char>, first: int, second: int)
    requires
        spec_consistent(mirror),
    ensures
        !spec_change_refused(mirror, id, Change::ActivateEmail),
        !spec_change_refused(
            spec_update(mirror, id, Change::ActivateEmail, first),
            id,
            Change::ActivateEmail,
        ),
        spec_update(
            spec_update(mirror, id, Change::ActivateEmail, first),
            id,
            Change::ActivateEmail,
            second,
        ) == spec_update(mirror, id, Change::ActivateEmail, second),
        mirror.dom().contains(id) ==> spec_update(
            spec_update(mirror, id, Change::ActivateEmail, first),
            id,
            Change::ActivateEmail,
            second,
        )[id].is_email_activate,
{
    let once = spec_update(mirror, id, Change::ActivateEmail, first);
    let twice = spec_update(once, id, Change::ActivateEmail, second);
    assert(twice =~= spec_update(mirror, id, Change::ActivateEmail, second));
}

/// No two rows of the sequence share an identifier.
pub open spec fn spec_ids_unique(rows: Seq<Users>) -> bool {
    forall|i: int, j: int|
        0 <= i < rows.len() && 0 <= j < rows.len() && #[trigger] rows[i].id@ == #[trigger] rows[
            j
        ].id@ ==> i == j
}

/// Row `i` is stored under `id`.
pub open spec fn spec_row_has_id(rows: Seq<Users>, i: int, id: Seq<char>) -> bool {
    0 <= i < rows.len() && rows[i].id@ == id
}

/// The mirror that a sequence of rows stands for.
pub open spec fn spec_mirror_of(rows: Seq<Users>) -> Mirror {
    Map::new(
        |id: Seq<char>| exists|i: int| spec_row_has_id(rows, i, id),
        |id: Seq<char>| rows[choose|i: int| spec_row_has_id(rows, i, id)]@,
    )
}

/// Each row of a sequence with unique identifiers is found in the mirror
/// under its identifier.
pub proof fn lemma_mirror_at(rows: Seq<Users>, i: int)
    requires
        spec_ids_unique(rows),
        0 <= i < rows.len(),
    ensures
        spec_mirror_of(rows).dom().contains(rows[i].id@),
        spec_mirror_of(rows)[rows[i].id@] == rows[i]@,
{
    assert(spec_row_has_id(rows, i, rows[i].id@));
}

proof fn lemma_mirror_push(rows: Seq<Users>, row: Users)
    requires
        spec_ids_unique(rows),
        !spec_mirror_of(rows).dom().contains(row.id@),
    ensures
        spec_ids_unique(rows.push(row)),
        spec_mirror_of(rows.push(row)) == spec_mirror_of(rows).insert(row.id@, row@),
{
    let after = rows.push(row);
    assert forall|i: int, j: int|
        0 <= i < after.len() && 0 <= j < after.len() && #[trigger] after[i].id@
            == #[trigger] after[j].id@ implies i == j by {
        if i < rows.len() {
            assert(spec_row_has_id(rows, i, rows[i].id@));
        }
        if j < rows.len() {
            assert(spec_row_has_id(rows, j, rows[j].id@));
        }
    }
    let expected = spec_mirror_of(rows).insert(row.id@, row@);
    assert forall|id: Seq<char>| spec_mirror_of(after).dom().contains(id) implies #[trigger]
        expected.dom().contains(id) && expected[id] == spec_mirror_of(after)[id] by {
        let k = choose|i: int| spec_row_has_id(after, i, id);
        lemma_mirror_at(after, k);
        if k < rows.len() {
            lemma_mirror_at(rows, k);
        }
    }
    assert forall|id: Seq<char>| expected.dom().contains(id) implies #[trigger] spec_mirror_of(
        after,
    ).dom().contains(id) by {
        if id == row.id@ {
            assert(spec_row_has_id(after, rows.len() as int, id));
        } else {
            let k = choose|i: int| spec_row_has_id(rows, i, id);
            assert(spec_row_has_id(after, k, id));
        }
    }
    assert(spec_mirror_of(after) =~= expected);
}

proof fn lemma_mirror_update(rows: Seq<Users>, at: int, row: Users)
    requires
        spec_ids_unique(rows),
        0 <= at < rows.len(),
        row.id@ == rows[at].id@,
    ensures
        spec_ids_unique(rows.update(at, row)),
        spec_mirror_of(rows.update(at, row)) == spec_mirror_of(rows).insert(row.id@, row@),
{
    let after = rows.update(at, row);
    assert forall|i: int, j: int|
        0 <= i < after.len() && 0 <= j < after.len() && #[trigger] after[i].id@
            == #[trigger] after[j].id@ implies i == j by {
        assert(after[i].id@ == rows[i].id@);
        assert(after[j].id@ == rows[j].id@);
    }
    let expected = spec_mirror_of(rows).insert(row.id@, row@);
    assert forall|id: Seq<char>| spec_mirror_of(after).dom().contains(id) implies #[trigger]
        expected.dom().contains(id) && expected[id] == spec_mirror_of(after)[id] by {
        let k = choose|i: int| spec_row_has_id(after, i, id);
        lemma_mirror_at(after, k);
        lemma_mirror_at(rows, k);
        assert(after[k].id@ == rows[k].id@);
    }
    assert forall|id: Seq<char>| expected.dom().contains(id) implies #[trigger] spec_mirror_of(
        after,
    ).dom().contains(id) by {
        if id == row.id@ {
            assert(spec_row_has_id(after, at, id));
        } else {
            let k = choose|i: int| spec_row_has_id(rows, i, id);
            assert(spec_row_has_id(after, k, id));
        }
    }
    assert(spec_mirror_of(after) =~= expected);
}

proof fn lemma_mirror_remove(rows: Seq<Users>, at: int)
    requires
        spec_ids_unique(rows),
        0 <= at < rows.len(),
    ensures
        spec_ids_unique(rows.remove(at)),
        spec_mirror_of(rows.remove(at)) == spec_mirror_of(rows).remove(rows[at].id@),
{
    let after = rows.remove(at);
    assert forall|i: int| 0 <= i < after.len() implies #[trigger] after[i] == rows[if i < at {
        i
    } else {
        i + 1
    }] by {}
    assert forall|i: int, j: int|
        0 <= i < after.len() && 0 <= j < after.len() && #[trigger] after[i].id@
            == #[trigger] after[j].id@ implies i == j by {
        let oi = if i < at { i } else { i + 1 };
        let oj = if j < at { j } else { j + 1 };
        assert(after[i] == rows[oi]);
        assert(after[j] == rows[oj]);
        assert(rows[oi].id@ == rows[oj].id@);
    }
    let expected = spec_mirror_of(rows).remove(rows[at].id@);
    assert forall|id: Seq<char>| spec_mirror_of(after).dom().contains(id) implies #[trigger]
        expected.dom().contains(id) && expected[id] == spec_mirror_of(after)[id] by {
        let k = choose|i: int| spec_row_has_id(after, i, id);
        let ok = if k < at { k } else { k + 1 };
        assert(after[k] == rows[ok]);
        lemma_mirror_at(after, k);
        lemma_mirror_at(rows, ok);
        assert(rows[ok].id@ == id);
        if id == rows[at].id@ {
            assert(rows[ok].id@ == rows[at].id@);
            assert(ok == at);
        }
    }
    assert forall|id: Seq<char>| expected.dom().contains(id) implies #[trigger] spec_mirror_of(
        after,
    ).dom().contains(id) by {
        let k = choose|i: int| spec_row_has_id(rows, i, id);
        assert(k != at);
        let nk = if k < at { k } else { k - 1 };
        assert(after[nk] == rows[k]);
        assert(spec_row_has_id(after, nk, id));
    }
    assert(spec_mirror_of(after) =~= expected);
}

/// A single-field change of a row, as a value to hand over.
#[derive(Debug, Clone, PartialEq, Eq)]
pub enum FieldChange {
    Username(String),
    Email(String),
    Password(String),
    ActivateEmail,
}

impl View for FieldChange {
    type V = Change;

    open spec fn view(&self) -> Change {
        match self {
            FieldChange::Username(username) => Change::Username(username@),
            FieldChange::Email(email) => Change::Email(email@),
            FieldChange::Password(password) => Change::Password(password@),
            FieldChange::ActivateEmail => Change::ActivateEmail,
        }
    }
}

impl FieldChange {
    /// A second copy of the change.
    pub fn duplicate(&self) -> (copy: Self)
        ensures
            copy == *self,
    {
        match self {
            FieldChange::Username(username) => FieldChange::Username(username.clone()),
            FieldChange::Email(email) => FieldChange::Email(email.clone()),
            FieldChange::Password(password) => FieldChange::Password(password.clone()),
            FieldChange::ActivateEmail => FieldChange::ActivateEmail,
        }
    }
}

/// The text with which the primary key refuses a second row under one
/// identifier.
pub const PRIMARY_KEY_VIOLATION: &'static str =
    "duplicate key value violates unique constraint \"users_pkey\"";

/// The time recorded for a row created at `now`.
pub fn creation_time(now: i64) -> (at: i64)
    ensures
        at == spec_creation_time(now as int),
        at < i64::MAX,
{
    if now < i64::MAX {
        now
    } else {
        i64::MAX - 1
    }
}

/// The time recorded for a change made at `now` to a row created at
/// `created_at`.
pub fn update_time(created_at: i64, now: i64) -> (at: i64)
    requires
        created_at < i64::MAX,
    ensures
        at == spec_update_time(created_at as int, now as int),
        created_at < at,
{
    if now > created_at {
        now
    } else {
        created_at + 1
    }
}

/// The row of a user created at `now`: not activated, never updated.
pub fn new_row(id: String, username: String, password: String, email: String, now: i64) -> (row:
    Users)
    ensures
        row@ == spec_new_row(id@, username@, password@, email@, now as int),
        row@.well_formed(),
        row.id == id,
        row.username == username,
        row.password == password,
        row.email == email,
{
    Users {
        id,
        username,
        email,
        password,
        is_email_activate: false,
        created_at: creation_time(now),
        updated_at: None,
    }
}

/// The user mirror: the rows, each under its own identifier.
pub struct UserTable {
    rows: Vec<Users>,
}

impl View for UserTable {
    type V = Mirror;

    closed spec fn view(&self) -> Mirror {
        spec_mirror_of(self.rows@)
    }
}

impl UserTable {
    /// The table holds each identifier once and stands for a consistent
    /// mirror.
    pub closed spec fn wf(&self) -> bool {
        &&& spec_ids_unique(self.rows@)
        &&& spec_consistent(spec_mirror_of(self.rows@))
    }

    /// The number of rows.
    pub closed spec fn spec_len(&self) -> nat {
        self.rows@.len()
    }

    /// A well-formed table stands for a consistent mirror.
    pub proof fn lemma_wf_is_consistent(&self)
        requires
            self.wf(),
        ensures
            spec_consistent(self@),
    {
    }

    /// An empty table.
    pub fn new() -> (table: Self)
        ensures
            table.wf(),
            table@ == Mirror::empty(),
            table.spec_len() == 0,
    {
        let table = UserTable { rows: Vec::new() };
        assert(table@ =~= Mirror::empty()) by {
            assert forall|id: Seq<char>| !table@.dom().contains(id) by {
                if table@.dom().contains(id) {
                    let k = choose|i: int| spec_row_has_id(table.rows@, i, id);
                    assert(spec_row_has_id(table.rows@, k, id));
                }
            }
        }
        table
    }

    /// The number of rows.
    pub fn len(&self) -> (n: usize)
        ensures
            n == self.spec_len(),
    {
        self.rows.len()
    }

    /// The place of the row under `id`, if there is one.
    fn position(&self, id: &str) -> (found: Option<usize>)
        requires
            self.wf(),
        ensures
            found.is_some() == self@.dom().contains(id@),
            found matches Some(at) ==> spec_row_has_id(self.rows@, at as int, id@),
    {
        let mut i: usize = 0;
        while i < self.rows.len()
            invariant
                i <= self.rows@.len(),
                forall|k: int| 0 <= k < i ==> self.rows@[k].id@ != id@,
            decreases self.rows@.len() - i,
        {
            if same_text(self.rows[i].id.as_str(), id) {
                assert(spec_row_has_id(self.rows@, i as int, id@));
                return Some(i);
            }
            i = i + 1;
        }
        proof {
            if self@.dom().contains(id@) {
                let k = choose|k: int| spec_row_has_id(self.rows@, k, id@);
                assert(spec_row_has_id(self.rows@, k, id@));
            }
        }
        None
    }

    /// Whether a row other than the one under `except` holds `username`
    /// together with `email`.
    fn pair_taken(&self, except: &str, username: &str, email: &str) -> (taken: bool)
        requires
            self.wf(),
        ensures
            taken == spec_pair_taken(self@, except@, username@, email@),
    {
        let mut i: usize = 0;
        while i < self.rows.len()
            invariant
                self.wf(),
                i <= self.rows@.len(),
                forall|k: int|
                    0 <= k < i ==> !(self.rows@[k].id@ != except@ && self.rows@[k].username@
                        == username@ && self.rows@[k].email@ == email@),
            decreases self.rows@.len() - i,
        {
            let row = &self.rows[i];
            if !same_text(row.id.as_str(), except) && same_text(row.username.as_str(), username)
                && same_text(row.email.as_str(), email) {
                proof {
                    lemma_mirror_at(self.rows@, i as int);
                    assert(self@.dom().contains(row.id@));
                }
                return true;
            }
            i = i + 1;
        }
        proof {
            if spec_pair_taken(self@, except@, username@, email@) {
                let other = choose|other: Seq<char>| #[trigger]
                    self@.dom().contains(other) && other != except@ && self@[other].username
                        == username@ && self@[other].email == email@;
                let k = choose|k: int| spec_row_has_id(self.rows@, k, other);
                assert(spec_row_has_id(self.rows@, k, other));
                lemma_mirror_at(self.rows@, k);
            }
        }
        false
    }

    /// Whether a row with this identifier exists.
    pub fn check_user(&self, id: &str) -> (exists: bool)
        requires
            self.wf(),
        ensures
            exists == spec_check_user(self@, id@),
    {
        self.position(id).is_some()
    }

    /// Whether a row holds `username` together with `email`.
    pub fn is_registered(&self, username: &str, email: &str) -> (registered: bool)
        requires
            self.wf(),
        ensures
            registered == spec_is_registered(self@, username@, email@),
    {
        let mut i: usize = 0;
        while i < self.rows.len()
            invariant
                self.wf(),
                i <= self.rows@.len(),
                forall|k: int|
                    0 <= k < i ==> !(self.rows@[k].username@ == username@ && self.rows@[k].email@
                        == email@),
            decreases self.rows@.len() - i,
        {
            let row = &self.rows[i];
            if same_text(row.username.as_str(), username) && same_text(row.email.as_str(), email) {
                proof {
                    lemma_mirror_at(self.rows@, i as int);
                    assert(self@.dom().contains(row.id@));
                }
                return true;
            }
            i = i + 1;
        }
        proof {
            if spec_is_registered(self@, username@, email@) {
                let id = choose|id: Seq<char>| #[trigger]
                    self@.dom().contains(id) && self@[id].username == username@ && self@[id].email
                        == email@;
                let k = choose|k: int| spec_row_has_id(self.rows@, k, id);
                assert(spec_row_has_id(self.rows@, k, id));
                lemma_mirror_at(self.rows@, k);
            }
        }
        false
    }

    /// The row under `id`, if there is one.
    pub fn get(&self, id: &str) -> (row: Option<&Users>)
        requires
            self.wf(),
        ensures
            row.is_some() == self@.dom().contains(id@),
            row matches Some(found) ==> found@ == self@[id@],
    {
        match self.position(id) {
            Some(at) => {
                proof {
                    lemma_mirror_at(self.rows@, at as int);
                }
                Some(&self.rows[at])
            },
            None => None,
        }
    }

    /// Inserts `row`. A second row under one identifier is refused as a
    /// failed statement, a second row with one username and email as a
    /// duplicate; a refusal changes nothing.
    pub fn insert_row(&mut self, row: Users) -> (done: Result<(), Error>)
        requires
            old(self).wf(),
            row@.well_formed(),
        ensures
            final(self).wf(),
            final(self)@ == spec_insert(old(self)@, row@),
            match spec_insert_outcome(old(self)@, row@) {
                InsertOutcome::Inserted => done is Ok,
                InsertOutcome::IdTaken => done matches Err(Error::DieselError(_)),
                InsertOutcome::PairTaken => done matches Err(Error::DuplicateUser),
            },
    {
        if self.position(row.id.as_str()).is_some() {
            return Err(Error::DieselError(String::from_str(PRIMARY_KEY_VIOLATION)));
        }
        if self.is_registered(row.username.as_str(), row.email.as_str()) {
            return Err(Error::DuplicateUser);
        }
        proof {
            lemma_mirror_push(self.rows@, row);
            lemma_insert_keeps_consistency(self@, row@);
        }
        self.rows.push(row);
        Ok(())
    }

    /// Inserts a row for a user created at `now`: not activated and never
    /// updated. A second row under one identifier is refused as a failed
    /// statement, a second row with one username and email as a duplicate;
    /// a refusal changes nothing.
    pub fn insert(
        &mut self,
        id: String,
        username: String,
        password: String,
        email: String,
        now: i64,
    ) -> (done: Result<(), Error>)
        requires
            old(self).wf(),
        ensures
            final(self).wf(),
            final(self)@ == spec_insert(
                old(self)@,
                spec_new_row(id@, username@, password@, email@, now as int),
            ),
            match spec_insert_outcome(
                old(self)@,
                spec_new_row(id@, username@, password@, email@, now as int),
            ) {
                InsertOutcome::Inserted => done is Ok,
                InsertOutcome::IdTaken => done matches Err(Error::DieselError(_)),
                InsertOutcome::PairTaken => done matches Err(Error::DuplicateUser),
            },
    {
        self.insert_row(new_row(id, username, password, email, now))
    }

    /// Makes one change to the row under `id` at `now`. Without such a row
    /// nothing happens and the change counts as done. A change that would
    /// give two rows the same username and email is refused as a duplicate
    /// and changes nothing.
    pub fn update(&mut self, id: &str, change: FieldChange, now: i64) -> (done: Result<(), Error>)
        requires
            old(self).wf(),
        ensures
            final(self).wf(),
            final(self)@ == spec_update(old(self)@, id@, change@, now as int),
            if spec_change_refused(old(self)@, id@, change@) {
                done matches Err(Error::DuplicateUser)
            } else {
                done is Ok
            },
    {
        let at = match self.position(id) {
            Some(at) => at,
            None => {
                return Ok(());
            },
        };
        proof {
            lemma_mirror_at(self.rows@, at as int);
            assert(self@[id@].well_formed());
        }
        let current = &self.rows[at];
        let refused = match &change {
            FieldChange::Username(username) => self.pair_taken(
                id,
                username.as_str(),
                current.email.as_str(),
            ),
            FieldChange::Email(email) => self.pair_taken(
                id,
                current.username.as_str(),
                email.as_str(),
            ),
            _ => false,
        };
        if refused {
            return Err(Error::DuplicateUser);
        }
        let stamp = Some(update_time(current.created_at, now));
        let row = match change {
            FieldChange::Username(username) => Users {
                id: current.id.clone(),
                username,
                email: current.email.clone(),
                password: current.password.clone(),
                is_email_activate: current.is_email_activate,
                created_at: current.created_at,
                updated_at: stamp,
            },
            FieldChange::Email(email) => Users {
                id: current.id.clone(),
                username: current.username.clone(),
                email,
                password: current.password.clone(),
                is_email_activate: current.is_email_activate,
                created_at: current.created_at,
                updated_at: stamp,
            },
            FieldChange::Password(password) => Users {
                id: current.id.clone(),
                username: current.username.clone(),
                email: current.email.clone(),
                password,
                is_email_activate: current.is_email_activate,
                created_at: current.created_at,
                updated_at: stamp,
            },
            FieldChange::ActivateEmail => Users {
                id: current.id.clone(),
                username: current.username.clone(),
                email: current.email.clone(),
                password: current.password.clone(),
                is_email_activate: true,
                created_at: current.created_at,
                updated_at: stamp,
            },
        };
        proof {
            assert(row@ == spec_changed_row(self@[id@], change@, now as int));
            lemma_mirror_update(self.rows@, at as int, row);
            lemma_update_keeps_consistency(self@, id@, change@, now as int);
        }
        self.rows.set(at, row);
        Ok(())
    }

    /// Deletes the row under `id`. Without such a row nothing happens.
    pub fn delete(&mut self, id: &str)
        requires
            old(self).wf(),
        ensures
            final(self).wf(),
            final(self)@ == spec_delete(old(self)@, id@),
    {
        match self.position(id) {
            Some(at) => {
                proof {
                    lemma_mirror_remove(self.rows@, at as int);
                    lemma_delete_keeps_consistency(self@, id@);
                }
                self.rows.remove(at);
            },
            None => {
                assert(self@.remove(id@) =~= self@);
            },
        }
    }
}

} // verus!
