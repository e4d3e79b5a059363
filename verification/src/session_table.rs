//! The `session_data` relation as the store's statements see it.
//!
//! The database itself is out of this crate's reach. What the crate expects
//! of it is written down here as a small table: rows are only ever added,
//! each new row gets an identifier above all earlier ones, and the two
//! required columns refuse a null. The laws of a whole request are stated
//! against this table.

use crate::error::report;
use crate::handle_session::{SessionData, SessionDataView};
use vstd::prelude::*;
use vstd::string::*;

verus! {

/// The cause that is reported where a statement names the relation before
/// it was set up.
pub const NO_RELATION: &'static str = "relation \"session_data\" does not exist";

/// The cause that is reported where a row has no launch URL.
pub const NULL_LAUNCH_URL: &'static str =
    "null value in column \"launch_url\" violates not-null constraint";

/// The cause that is reported where a row has no client token.
pub const NULL_CLIENT_TOKEN: &'static str =
    "null value in column \"client_token\" violates not-null constraint";

/// The cause that is reported where no identifier is left for a new row.
pub const IDENTIFIERS_EXHAUSTED: &'static str =
    "reached maximum value of sequence \"session_data_id_seq\"";

/// The identifier of the first row.
pub const FIRST_ID: i32 = 1;

/// One stored session.
#[derive(Debug, PartialEq, Eq)]
pub struct SessionRecord {
    pub id: i32,
    pub fail_code: Option<String>,
    pub launch_url: String,
    pub client_token: String,
}

/// The mathematical value of a `SessionRecord`.
pub struct SessionRecordView {
    pub id: i32,
    pub fail_code: Option<Seq<char>>,
    pub launch_url: Seq<char>,
    pub client_token: Seq<char>,
}

impl View for SessionRecord {
    type V = SessionRecordView;

    open spec fn view(&self) -> SessionRecordView {
        SessionRecordView {
            id: self.id,
            fail_code: self.fail_code.deep_view(),
            launch_url: self.launch_url@,
            client_token: self.client_token@,
        }
    }
}

/// The relation: whether it has been set up, and its rows in the order in
/// which they were inserted.
#[derive(Debug, PartialEq, Eq)]
pub struct SessionTable {
    created: bool,
    rows: Vec<SessionRecord>,
}

/// The mathematical value of a `SessionTable`.
pub struct SessionTableView {
    pub created: bool,
    pub rows: Seq<SessionRecordView>,
}

impl View for SessionTable {
    type V = SessionTableView;

    closed spec fn view(&self) -> SessionTableView {
        SessionTableView {
            created: self.created,
            rows: self.rows@.map_values(|row: SessionRecord| row@),
        }
    }
}

impl SessionTableView {
    /// A relation that was not set up holds no rows, and identifiers grow
    /// with the order of insertion.
    pub open spec fn well_formed(self) -> bool {
        &&& !self.created ==> self.rows.len() == 0
        &&& forall|i: int, j: int|
            0 <= i < j < self.rows.len() ==> self.rows[i].id < self.rows[j].id
    }

    /// The identifier that the next row gets.
    pub open spec fn next_id(self) -> int {
        if self.rows.len() == 0 {
            FIRST_ID as int
        } else {
            self.rows.last().id + 1
        }
    }

    /// The relation after the set-up statement: it is there, and its rows
    /// are what they were.
    pub open spec fn create_if_absent(self) -> SessionTableView {
        SessionTableView { created: true, rows: self.rows }
    }

    /// The relation after the insert statement for a record, or the cause
    /// for which the statement fails.
    pub open spec fn insert(self, record: SessionDataView) -> Result<SessionTableView, Seq<char>> {
        if !self.created {
            Err(NO_RELATION@)
        } else if record.launch_url is None {
            Err(NULL_LAUNCH_URL@)
        } else if record.client_token is None {
            Err(NULL_CLIENT_TOKEN@)
        } else if self.next_id() > i32::MAX {
            Err(IDENTIFIERS_EXHAUSTED@)
        } else {
            Ok(
                SessionTableView {
                    created: true,
                    rows: self.rows.push(
                        SessionRecordView {
                            id: self.next_id() as i32,
                            fail_code: record.fail_code,
                            launch_url: record.launch_url->0,
                            client_token: record.client_token->0,
                        },
                    ),
                },
            )
        }
    }

    /// What the query for the newest launch URL gives: the launch URL of
    /// the row that was inserted last, nothing where there is no row, or
    /// the cause for which the query fails.
    pub open spec fn latest_launch_url(self) -> Result<Option<Seq<char>>, Seq<char>> {
        if !self.created {
            Err(NO_RELATION@)
        } else if self.rows.len() == 0 {
            Ok(None)
        } else {
            Ok(Some(self.rows.last().launch_url))
        }
    }
}

/// Setting the relation up twice gives what setting it up once gives, and
/// setting it up never touches a row.
pub proof fn lemma_setup_is_idempotent(table: SessionTableView)
    ensures
        table.create_if_absent().create_if_absent() == table.create_if_absent(),
        table.create_if_absent().rows == table.rows,
        table.well_formed() ==> table.create_if_absent().well_formed(),
{
}

/// An insert that succeeds adds exactly one row behind all others and
/// changes none of them. The new row holds the record as it was handed in,
/// and its identifier is above every earlier one.
pub proof fn lemma_insert_appends(table: SessionTableView, record: SessionDataView)
    requires
        table.well_formed(),
        table.insert(record) is Ok,
    ensures
        ({
            let after = table.insert(record)->Ok_0;
            &&& after.well_formed()
            &&& after.rows.len() == table.rows.len() + 1
            &&& after.rows.drop_last() == table.rows
            &&& after.rows.last().fail_code == record.fail_code
            &&& Some(after.rows.last().launch_url) == record.launch_url
            &&& Some(after.rows.last().client_token) == record.client_token
            &&& forall|i: int|
                0 <= i < table.rows.len() ==> (#[trigger] table.rows[i]).id < after.rows.last().id
        }),
{
    let after = table.insert(record)->Ok_0;
    assert(after.rows.drop_last() =~= table.rows);
    assert forall|i: int| 0 <= i < table.rows.len() implies (#[trigger] table.rows[i]).id
        < after.rows.last().id by {
        if i < table.rows.len() - 1 {
            assert(table.rows[i].id < table.rows[table.rows.len() - 1].id);
        }
    }
}

/// In a well-formed relation the row that was inserted last is the one with
/// the highest identifier: no other row reaches it.
pub proof fn lemma_newest_row_has_highest_id(table: SessionTableView, i: int)
    requires
        table.well_formed(),
        0 <= i < table.rows.len() - 1,
    ensures
        table.rows[i].id < table.rows.last().id,
{
}

/// After an insert that succeeded, the query for the newest launch URL
/// gives the launch URL that was inserted.
pub proof fn lemma_latest_is_last_inserted(table: SessionTableView, record: SessionDataView)
    requires
        table.insert(record) is Ok,
    ensures
        table.insert(record)->Ok_0.latest_launch_url() == Ok::<Option<Seq<char>>, Seq<char>>(
            record.launch_url,
        ),
{
}

/// A record without a launch URL or without a client token is refused by a
/// relation that is there, and every record by one that is not.
pub proof fn lemma_rejected_record(table: SessionTableView, record: SessionDataView)
    ensures
        table.created && (record.launch_url is None || record.client_token is None)
            ==> table.insert(record) is Err,
        !table.created ==> table.insert(record) is Err,
{
}

impl SessionTable {
    /// A database in which the relation has not been set up yet.
    pub fn new() -> (table: SessionTable)
        ensures
            table@ == (SessionTableView { created: false, rows: Seq::empty() }),
            table@.well_formed(),
    {
        let table = SessionTable { created: false, rows: Vec::new() };
        assert(table@.rows =~= Seq::empty());
        table
    }

    /// The number of rows.
    pub fn len(&self) -> (len: usize)
        ensures
            len == self@.rows.len(),
    {
        self.rows.len()
    }

    /// The row at a position in the order of insertion.
    pub fn get(&self, position: usize) -> (row: Option<&SessionRecord>)
        ensures
            match row {
                Some(row) => position < self@.rows.len() && row@ == self@.rows[position as int],
                None => position >= self@.rows.len(),
            },
    {
        if position < self.rows.len() {
            Some(&self.rows[position])
        } else {
            None
        }
    }

    /// Executes the set-up statement. It never fails, and it leaves the rows
    /// of a relation that is there already as they are.
    pub fn create_if_absent(&mut self) -> (executed: Result<(), String>)
        ensures
            executed is Ok,
            final(self)@ == old(self)@.create_if_absent(),
            old(self)@.well_formed() ==> final(self)@.well_formed(),
    {
        self.created = true;
        Ok(())
    }

    /// Executes the insert statement for a record. The row is added behind
    /// all others, with the next identifier; where the statement fails, the
    /// relation is what it was.
    pub fn insert(&mut self, record: SessionData) -> (executed: Result<(), String>)
        ensures
            match old(self)@.insert(record@) {
                Ok(table) => executed is Ok && final(self)@ == table,
                Err(cause) => executed is Err && executed->Err_0@ == cause && final(self)@ == old(
                    self,
                )@,
            },
            old(self)@.well_formed() ==> final(self)@.well_formed(),
    {
        let SessionData { fail_code, launch_url, client_token } = record;
        if !self.created {
            return Err(String::from_str(NO_RELATION));
        }
        let launch_url = match launch_url {
            Some(launch_url) => launch_url,
            None => {
                return Err(String::from_str(NULL_LAUNCH_URL));
            },
        };
        let client_token = match client_token {
            Some(client_token) => client_token,
            None => {
                return Err(String::from_str(NULL_CLIENT_TOKEN));
            },
        };
        let count = self.rows.len();
        let id: i32 = if count == 0 {
            FIRST_ID
        } else {
            let last: i32 = self.rows[count - 1].id;
            if last == i32::MAX {
                return Err(String::from_str(IDENTIFIERS_EXHAUSTED));
            }
            last + 1
        };
        let ghost before = self@;
        self.rows.push(SessionRecord { id, fail_code, launch_url, client_token });
        proof {
            assert(self@.rows =~= before.rows.push(
                SessionRecordView {
                    id,
                    fail_code: record@.fail_code,
                    launch_url: record@.launch_url->0,
                    client_token: record@.client_token->0,
                },
            ));
        }
        Ok(())
    }

    /// Runs the query for the newest launch URL.
    pub fn latest_launch_url(&self) -> (queried: Result<Option<String>, String>)
        ensures
            report(queried) == self@.latest_launch_url(),
    {
        if !self.created {
            return Err(String::from_str(NO_RELATION));
        }
        let count = self.rows.len();
        if count == 0 {
            Ok(None)
        } else {
            Ok(Some(self.rows[count - 1].launch_url.clone()))
        }
    }
}

} // verus!
