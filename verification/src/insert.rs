//! Inserting message records: the statement for each kind of record, and the
//! values that are bound to it.

use vstd::prelude::*;
use vstd::string::StringExecFns;
use crate::encoder::{cell_of, MAX_PAYLOAD};
use crate::query::Query;

verus! {

/// The keyspace that message records are kept in.
pub struct Mainnet {
    pub name: String,
}

/// What is stored under a message id: the packed message, its encoded
/// metadata, or both.
pub enum Record {
    Message(Vec<u8>),
    Metadata(Vec<u8>),
    MessageAndMetadata(Vec<u8>, Vec<u8>),
}

impl Record {
    /// The columns and placeholders of the statement that inserts the record.
    pub open spec fn spec_columns(&self) -> Seq<char> {
        match self {
            Record::Message(_) => ".messages (message_id, message) VALUES (?, ?)"@,
            Record::Metadata(_) => ".messages (message_id, metadata) VALUES (?, ?)"@,
            Record::MessageAndMetadata(_, _) =>
                ".messages (message_id, message, metadata) VALUES (?, ?, ?)"@,
        }
    }

    /// The cells of the record's own values, in the order of its columns.
    pub open spec fn spec_cells(&self) -> Seq<u8> {
        match self {
            Record::Message(message) => cell_of(message@),
            Record::Metadata(metadata) => cell_of(metadata@),
            Record::MessageAndMetadata(message, metadata) => cell_of(message@) + cell_of(
                metadata@,
            ),
        }
    }

    /// Whether each value of the record fits a cell.
    pub open spec fn encodable(&self) -> bool {
        match self {
            Record::Message(message) => message@.len() <= MAX_PAYLOAD,
            Record::Metadata(metadata) => metadata@.len() <= MAX_PAYLOAD,
            Record::MessageAndMetadata(message, metadata) => message@.len() <= MAX_PAYLOAD
                && metadata@.len() <= MAX_PAYLOAD,
        }
    }

    /// The columns and placeholders of the statement that inserts the record.
    fn columns(&self) -> (columns: &'static str)
        ensures
            columns@ == self.spec_columns(),
    {
        match self {
            Record::Message(_) => ".messages (message_id, message) VALUES (?, ?)",
            Record::Metadata(_) => ".messages (message_id, metadata) VALUES (?, ?)",
            Record::MessageAndMetadata(_, _) =>
                ".messages (message_id, message, metadata) VALUES (?, ?, ?)",
        }
    }
}

impl Mainnet {
    /// The keyspace of the given name.
    pub fn new(name: String) -> (keyspace: Mainnet)
        ensures
            keyspace.name == name,
    {
        Mainnet { name }
    }

    /// The name of the keyspace.
    pub fn name(&self) -> (name: &str)
        ensures
            name@ == self.name@,
    {
        self.name.as_str()
    }

    /// The statement that inserts `record` into the messages table of this
    /// keyspace.
    pub fn statement(&self, record: &Record) -> (statement: String)
        ensures
            statement@ == "INSERT INTO "@ + self.name@ + record.spec_columns(),
    {
        let mut statement = String::from_str("INSERT INTO ");
        statement.append(self.name.as_str());
        statement.append(record.columns());
        statement
    }

    /// Binds the values of the statement that inserts `record` under
    /// `message_id`: the id first, then the record's own values in the order
    /// of its columns.
    pub fn bind_values(builder: Query, message_id: &[u8], record: &Record) -> (bound: Query)
        requires
            message_id@.len() <= MAX_PAYLOAD,
            record.encodable(),
        ensures
            bound@ == builder@ + cell_of(message_id@) + record.spec_cells(),
    {
        let with_id = builder.value(message_id);
        let bound = match record {
            Record::Message(message) => with_id.value(message.as_slice()),
            Record::Metadata(metadata) => with_id.value(metadata.as_slice()),
            Record::MessageAndMetadata(message, metadata) => with_id.value(
                message.as_slice(),
            ).value(metadata.as_slice()),
        };
        assert(bound@ =~= builder@ + cell_of(message_id@) + record.spec_cells());
        bound
    }
}

} // verus!
