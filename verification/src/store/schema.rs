//! The schema registry: for each entity, the table that holds it.
//!
//! A table's columns are listed with the partition-key columns first, the
//! clustering-key columns next and the remaining columns last, so a row's
//! keys are prefixes of the row.

use crate::store::value::ColumnType;
use vstd::prelude::*;
use vstd::string::StringExecFns;

verus! {

/// The entities this layer persists, in the order their tables are created.
#[derive(Debug, Clone, Copy, PartialEq, Eq, Structural)]
pub enum EntityKind {
    Topic,
    TopicMessage,
    LatestMessage,
    Notification,
    TopicUser,
    UserTopic,
}

/// The number of entities.
pub const ENTITY_COUNT: usize = 6;

impl EntityKind {
    /// The position of the entity in creation order.
    pub open spec fn ordinal(self) -> int {
        match self {
            EntityKind::Topic => 0,
            EntityKind::TopicMessage => 1,
            EntityKind::LatestMessage => 2,
            EntityKind::Notification => 3,
            EntityKind::TopicUser => 4,
            EntityKind::UserTopic => 5,
        }
    }

    /// The entity at a position in creation order.
    pub open spec fn at(ordinal: int) -> EntityKind {
        if ordinal == 0 {
            EntityKind::Topic
        } else if ordinal == 1 {
            EntityKind::TopicMessage
        } else if ordinal == 2 {
            EntityKind::LatestMessage
        } else if ordinal == 3 {
            EntityKind::Notification
        } else if ordinal == 4 {
            EntityKind::TopicUser
        } else {
            EntityKind::UserTopic
        }
    }

    /// The position of the entity in creation order.
    pub fn index(self) -> (i: usize)
        ensures
            i == self.ordinal(),
            i < ENTITY_COUNT,
    {
        match self {
            EntityKind::Topic => 0,
            EntityKind::TopicMessage => 1,
            EntityKind::LatestMessage => 2,
            EntityKind::Notification => 3,
            EntityKind::TopicUser => 4,
            EntityKind::UserTopic => 5,
        }
    }

    /// The entity at a position in creation order, if there is one.
    pub fn from_index(i: usize) -> (kind: Option<EntityKind>)
        ensures
            match kind {
                Some(kind) => i < ENTITY_COUNT && kind == EntityKind::at(i as int)
                    && kind.ordinal() == i,
                None => i >= ENTITY_COUNT,
            },
    {
        if i == 0 {
            Some(EntityKind::Topic)
        } else if i == 1 {
            Some(EntityKind::TopicMessage)
        } else if i == 2 {
            Some(EntityKind::LatestMessage)
        } else if i == 3 {
            Some(EntityKind::Notification)
        } else if i == 4 {
            Some(EntityKind::TopicUser)
        } else if i == 5 {
            Some(EntityKind::UserTopic)
        } else {
            None
        }
    }
}

/// A column of a table, as mathematics.
pub struct ColumnLayout {
    pub name: Seq<char>,
    pub kind: ColumnType,
}

/// A table description, as mathematics.
pub struct TableLayout {
    /// The qualified table name.
    pub table: Seq<char>,
    /// The columns: partition key, then clustering key, then the rest.
    pub columns: Seq<ColumnLayout>,
    /// How many leading columns form the partition key.
    pub partition_len: nat,
    /// How many columns after those form the clustering key.
    pub clustering_len: nat,
    /// Whether rows of a partition are kept in descending clustering order.
    pub descending: bool,
    /// The positions of the columns that carry a secondary index.
    pub indexes: Seq<int>,
}

impl TableLayout {
    /// The number of columns.
    pub open spec fn width(self) -> nat {
        self.columns.len()
    }

    /// The number of leading columns that identify a row.
    pub open spec fn key_len(self) -> nat {
        self.partition_len + self.clustering_len
    }

    /// Whether a column carries a secondary index.
    pub open spec fn indexed(self, column: int) -> bool {
        self.indexes.contains(column)
    }

    /// A table has a partition key, its keys are columns of it, and only
    /// columns outside the key are indexed, each once.
    pub open spec fn wf(self) -> bool {
        &&& 1 <= self.partition_len
        &&& self.key_len() <= self.width()
        &&& forall|i: int|
            0 <= i < self.indexes.len() ==> self.key_len() <= #[trigger] self.indexes[i]
                < self.width()
        &&& forall|i: int, j: int|
            0 <= i < j < self.indexes.len() ==> self.indexes[i] != self.indexes[j]
    }
}

pub open spec fn column_layout(name: Seq<char>, kind: ColumnType) -> ColumnLayout {
    ColumnLayout { name, kind }
}

/// The registry itself: the table of each entity.
pub open spec fn layout(kind: EntityKind) -> TableLayout {
    match kind {
        EntityKind::Topic => TableLayout {
            table: "uptop.topics"@,
            columns: seq![
                column_layout("topic_id"@, ColumnType::Timeuuid),
                column_layout("created_at"@, ColumnType::Timestamp),
                column_layout("topic_name"@, ColumnType::Text),
                column_layout("topic_description"@, ColumnType::Text),
                column_layout("topic_owners"@, ColumnType::TextList),
                column_layout("topic_admins"@, ColumnType::TextList),
                column_layout("updated_at"@, ColumnType::Timestamp),
            ],
            partition_len: 1,
            clustering_len: 1,
            descending: true,
            indexes: seq![2int],
        },
        EntityKind::TopicMessage => TableLayout {
            table: "uptop.topic_messages"@,
            columns: seq![
                column_layout("topic_id"@, ColumnType::Timeuuid),
                column_layout("created_at"@, ColumnType::Timestamp),
                column_layout("from_user_id"@, ColumnType::Timeuuid),
                column_layout("message"@, ColumnType::Text),
            ],
            partition_len: 1,
            clustering_len: 1,
            descending: true,
            indexes: seq![],
        },
        EntityKind::LatestMessage => TableLayout {
            table: "uptop.latest_messages"@,
            columns: seq![
                column_layout("user_id"@, ColumnType::Timeuuid),
                column_layout("latest_message_id"@, ColumnType::Timeuuid),
                column_layout("latest_message_content"@, ColumnType::Text),
                column_layout("topic_id"@, ColumnType::Timeuuid),
                column_layout("created_at"@, ColumnType::Timestamp),
                column_layout("updated_at"@, ColumnType::Timestamp),
            ],
            partition_len: 1,
            clustering_len: 0,
            descending: false,
            indexes: seq![],
        },
        EntityKind::Notification => TableLayout {
            table: "uptop.notification"@,
            columns: seq![
                column_layout("username"@, ColumnType::Text),
                column_layout("created_at"@, ColumnType::Timestamp),
                column_layout("topic_id"@, ColumnType::Timeuuid),
                column_layout("from_user"@, ColumnType::Text),
                column_layout("message"@, ColumnType::Text),
            ],
            partition_len: 1,
            clustering_len: 1,
            descending: true,
            indexes: seq![],
        },
        EntityKind::TopicUser => TableLayout {
            table: "uptop.topic_user"@,
            columns: seq![
                column_layout("topic_id"@, ColumnType::Timeuuid),
                column_layout("created_at"@, ColumnType::Timestamp),
                column_layout("username"@, ColumnType::Text),
                column_layout("user_id"@, ColumnType::Timeuuid),
            ],
            partition_len: 1,
            clustering_len: 1,
            descending: true,
            indexes: seq![],
        },
        EntityKind::UserTopic => TableLayout {
            table: "uptop.user_topic"@,
            columns: seq![
                column_layout("topic_id"@, ColumnType::Timeuuid),
                column_layout("created_at"@, ColumnType::Timestamp),
                column_layout("username"@, ColumnType::Text),
            ],
            partition_len: 1,
            clustering_len: 1,
            descending: true,
            indexes: seq![],
        },
    }
}

/// Every table of the registry is well formed.
pub proof fn lemma_layout_wf(kind: EntityKind)
    ensures
        layout(kind).wf(),
{
}

/// A column of a table.
#[derive(Debug, Clone, PartialEq, Eq)]
pub struct Column {
    pub name: String,
    pub kind: ColumnType,
}

impl View for Column {
    type V = ColumnLayout;

    open spec fn view(&self) -> ColumnLayout {
        ColumnLayout { name: self.name@, kind: self.kind }
    }
}

/// A table description: what the registry hands out for an entity.
#[derive(Debug, Clone, PartialEq, Eq)]
pub struct TableSchema {
    pub table: String,
    pub columns: Vec<Column>,
    pub partition_len: usize,
    pub clustering_len: usize,
    pub descending: bool,
    pub indexes: Vec<usize>,
}

impl View for TableSchema {
    type V = TableLayout;

    open spec fn view(&self) -> TableLayout {
        TableLayout {
            table: self.table@,
            columns: Seq::new(self.columns@.len(), |i: int| self.columns@[i]@),
            partition_len: self.partition_len as nat,
            clustering_len: self.clustering_len as nat,
            descending: self.descending,
            indexes: Seq::new(self.indexes@.len(), |i: int| self.indexes@[i] as int),
        }
    }
}

fn column(name: &str, kind: ColumnType) -> (c: Column)
    ensures
        c@ == column_layout(name@, kind),
{
    Column { name: String::from_str(name), kind }
}

/// The schema registry. It holds no state: the description of each table is
/// fixed.
pub struct SchemaRegistry;

impl SchemaRegistry {
    /// The table of an entity.
    pub fn describe(kind: EntityKind) -> (schema: TableSchema)
        ensures
            schema@ == layout(kind),
            schema@.wf(),
    {
        let mut columns: Vec<Column> = Vec::new();
        let mut indexes: Vec<usize> = Vec::new();
        let schema = match kind {
            EntityKind::Topic => {
                columns.push(column("topic_id", ColumnType::Timeuuid));
                columns.push(column("created_at", ColumnType::Timestamp));
                columns.push(column("topic_name", ColumnType::Text));
                columns.push(column("topic_description", ColumnType::Text));
                columns.push(column("topic_owners", ColumnType::TextList));
                columns.push(column("topic_admins", ColumnType::TextList));
                columns.push(column("updated_at", ColumnType::Timestamp));
                indexes.push(2);
                TableSchema {
                    table: String::from_str("uptop.topics"),
                    columns,
                    partition_len: 1,
                    clustering_len: 1,
                    descending: true,
                    indexes,
                }
            },
            EntityKind::TopicMessage => {
                columns.push(column("topic_id", ColumnType::Timeuuid));
                columns.push(column("created_at", ColumnType::Timestamp));
                columns.push(column("from_user_id", ColumnType::Timeuuid));
                columns.push(column("message", ColumnType::Text));
                TableSchema {
                    table: String::from_str("uptop.topic_messages"),
                    columns,
                    partition_len: 1,
                    clustering_len: 1,
                    descending: true,
                    indexes,
                }
            },
            EntityKind::LatestMessage => {
                columns.push(column("user_id", ColumnType::Timeuuid));
                columns.push(column("latest_message_id", ColumnType::Timeuuid));
                columns.push(column("latest_message_content", ColumnType::Text));
                columns.push(column("topic_id", ColumnType::Timeuuid));
                columns.push(column("created_at", ColumnType::Timestamp));
                columns.push(column("updated_at", ColumnType::Timestamp));
                TableSchema {
                    table: String::from_str("uptop.latest_messages"),
                    columns,
                    partition_len: 1,
                    clustering_len: 0,
                    descending: false,
                    indexes,
                }
            },
            EntityKind::Notification => {
                columns.push(column("username", ColumnType::Text));
                columns.push(column("created_at", ColumnType::Timestamp));
                columns.push(column("topic_id", ColumnType::Timeuuid));
                columns.push(column("from_user", ColumnType::Text));
                columns.push(column("message", ColumnType::Text));
                TableSchema {
                    table: String::from_str("uptop.notification"),
                    columns,
                    partition_len: 1,
                    clustering_len: 1,
                    descending: true,
                    indexes,
                }
            },
            EntityKind::TopicUser => {
                columns.push(column("topic_id", ColumnType::Timeuuid));
                columns.push(column("created_at", ColumnType::Timestamp));
                columns.push(column("username", ColumnType::Text));
                columns.push(column("user_id", ColumnType::Timeuuid));
                TableSchema {
                    table: String::from_str("uptop.topic_user"),
                    columns,
                    partition_len: 1,
                    clustering_len: 1,
                    descending: true,
                    indexes,
                }
            },
            EntityKind::UserTopic => {
                columns.push(column("topic_id", ColumnType::Timeuuid));
                columns.push(column("created_at", ColumnType::Timestamp));
                columns.push(column("username", ColumnType::Text));
                TableSchema {
                    table: String::from_str("uptop.user_topic"),
                    columns,
                    partition_len: 1,
                    clustering_len: 1,
                    descending: true,
                    indexes,
                }
            },
        };
        assert(schema@.columns =~= layout(kind).columns);
        assert(schema@.indexes =~= layout(kind).indexes);
        proof {
            lemma_layout_wf(kind);
        }
        schema
    }

    /// The number of columns of an entity's table.
    pub fn width(kind: EntityKind) -> (n: usize)
        ensures
            n == layout(kind).width(),
    {
        match kind {
            EntityKind::Topic => 7,
            EntityKind::TopicMessage => 4,
            EntityKind::LatestMessage => 6,
            EntityKind::Notification => 5,
            EntityKind::TopicUser => 4,
            EntityKind::UserTopic => 3,
        }
    }

    /// The number of leading columns that form the partition key.
    pub fn partition_len(kind: EntityKind) -> (n: usize)
        ensures
            n == layout(kind).partition_len,
    {
        1
    }

    /// The number of leading columns that identify a row.
    pub fn key_len(kind: EntityKind) -> (n: usize)
        ensures
            n == layout(kind).key_len(),
    {
        match kind {
            EntityKind::LatestMessage => 1,
            _ => 2,
        }
    }

    /// Whether rows of a partition are kept in descending clustering order.
    pub fn descending(kind: EntityKind) -> (descending: bool)
        ensures
            descending == layout(kind).descending,
    {
        match kind {
            EntityKind::LatestMessage => false,
            _ => true,
        }
    }

    /// The type of a column, if the table has a column at that position.
    pub fn column_type(kind: EntityKind, column: usize) -> (t: Option<ColumnType>)
        ensures
            match t {
                Some(t) => column < layout(kind).width() && t == layout(
                    kind,
                ).columns[column as int].kind,
                None => column >= layout(kind).width(),
            },
    {
        let schema = Self::describe(kind);
        if column < schema.columns.len() {
            Some(schema.columns[column].kind)
        } else {
            None
        }
    }

    /// Whether a column carries a secondary index.
    pub fn is_indexed(kind: EntityKind, column: usize) -> (indexed: bool)
        ensures
            indexed == layout(kind).indexed(column as int),
    {
        match kind {
            EntityKind::Topic => {
                assert(layout(kind).indexes[0] == 2);
                column == 2
            },
            _ => false,
        }
    }
}

} // verus!
