//! The read model of the group domain: the group documents, how a `created`
//! event becomes one, and how the groups of a user are looked up.

use vstd::prelude::*;
use crate::error::Error;
use crate::event::Domain;
use crate::group::event::Created;
use crate::text::replaced;

verus! {

/// A group as stored in the document store.
#[derive(Debug, PartialEq, Eq)]
pub struct Group {
    /// The document type, `cobase:group`.
    pub doc_type: String,
    pub id: String,
    pub user_id: String,
    pub name: String,
}

impl Clone for Group {
    fn clone(&self) -> (r: Group)
        ensures
            r == *self,
    {
        Group {
            doc_type: self.doc_type.clone(),
            id: self.id.clone(),
            user_id: self.user_id.clone(),
            name: self.name.clone(),
        }
    }
}

/// A `created` event read from a group stream: the stream's name and the
/// event's data.
#[derive(Debug, Clone, PartialEq, Eq)]
pub struct CreatedEventMessage(pub String, pub Created);

impl CreatedEventMessage {
    /// The document that records the created group, and the key under which it
    /// is stored, which is the stream's name. The group's identifier is the
    /// stream's name without the group stream prefix.
    pub fn into_document(self) -> (r: (String, Group))
        ensures
            r.0@ == self.0@,
            r.1.doc_type@ == Domain::Group.document_type_spec(),
            r.1.id@ == replaced(self.0@, Domain::Group.stream_prefix(), Seq::empty()),
            r.1.user_id@ == self.1.user_id@,
            r.1.name@ == self.1.name@,
    {
        let id = Domain::Group.from_stream_id(self.0.as_str());
        let group = Group {
            doc_type: Domain::Group.document_type(),
            id,
            user_id: self.1.user_id,
            name: self.1.name,
        };
        (self.0, group)
    }
}

/// A query for the groups of the user it names.
#[derive(Debug, Clone, PartialEq, Eq)]
pub struct FindGroupsQueryMessage(pub String);

/// The statement that selects, in `bucket`, the group documents of `user_id`.
pub open spec fn groups_statement(bucket: Seq<char>, user_id: Seq<char>) -> Seq<char> {
    "select * from `"@ + bucket + "` where type = '"@ + Domain::Group.document_type_spec()
        + "' and user_id = '"@ + user_id + "'"@
}

/// Whatever the bucket, the statement selects the documents whose type is
/// the one every group document gets, `cobase:group`, and whose user is the
/// given one; the bucket appears only in the `from` clause.
pub proof fn lemma_statement_filters_group_documents(bucket: Seq<char>, user_id: Seq<char>)
    ensures
        Domain::Group.document_type_spec() == "cobase:group"@,
        groups_statement(bucket, user_id) == "select * from `"@ + bucket + "` where type = '"@
            + "cobase:group"@ + "' and user_id = '"@ + user_id + "'"@,
{
    reveal_strlit("cobase:");
    reveal_strlit("group");
    reveal_strlit("cobase:group");
    assert("cobase:"@ + "group"@ =~= "cobase:group"@);
}

impl FindGroupsQueryMessage {
    /// The statement that selects, in `bucket`, the group documents of the
    /// user that the query names.
    pub fn statement(&self, bucket: &str) -> (r: String)
        ensures
            r@ == groups_statement(bucket@, self.0@),
    {
        let mut r = String::from_str("select * from `");
        r.append(bucket);
        r.append("` where type = '");
        r.append(Domain::Group.document_type().as_str());
        r.append("' and user_id = '");
        r.append(self.0.as_str());
        r.append("'");
        r
    }
}

/// The outcome of reading one row of the query's result.
#[derive(Debug, Clone, PartialEq, Eq)]
pub enum QueryRow {
    /// The row could not be read; the text says why.
    Failed(String),
    /// The row holds no document under the bucket's name.
    MissingBucket,
    /// The document could not be read as a group; the text says why.
    Malformed(String),
    /// The row holds this group.
    Found(Group),
}

/// The message for a row that holds no document under the bucket's name.
pub open spec fn missing_bucket_message() -> Seq<char> {
    "Bucket not found ::FindGroupsQueryMessage"@
}

/// The error that a row gives, if it gives one.
pub open spec fn row_error(row: QueryRow) -> Option<Seq<char>> {
    match row {
        QueryRow::Failed(e) => Some(e@),
        QueryRow::MissingBucket => Some(missing_bucket_message()),
        QueryRow::Malformed(e) => Some(e@),
        QueryRow::Found(_) => None,
    }
}

/// Whether the first `n` rows all hold groups.
pub open spec fn rows_found(rows: Seq<QueryRow>, n: int) -> bool {
    forall|i: int| 0 <= i < n ==> #[trigger] rows[i] is Found
}

/// Gathers the groups of the rows, in order; the first row that gives an
/// error ends the query with that error.
pub fn collect_groups(rows: Vec<QueryRow>) -> (r: Result<Vec<Group>, Error>)
    ensures
        match r {
            Ok(groups) => {
                &&& rows_found(rows@, rows@.len() as int)
                &&& groups@.len() == rows@.len()
                &&& forall|i: int| 0 <= i < rows@.len() ==> rows@[i] == QueryRow::Found(#[trigger] groups@[i])
            },
            Err(Error::Unkown(e)) => exists|k: int| 0 <= k < rows@.len() && rows_found(rows@, k)
                && row_error(#[trigger] rows@[k]) == Some(e@),
            Err(Error::ValidationErrors(_)) => false,
        },
{
    let mut groups: Vec<Group> = Vec::new();
    let mut i: usize = 0;
    let n: usize = rows.len();
    while i < n
        invariant
            n == rows@.len(),
            i <= n,
            rows_found(rows@, i as int),
            groups@.len() == i,
            forall|j: int| 0 <= j < i ==> rows@[j] == QueryRow::Found(#[trigger] groups@[j]),
        decreases n - i,
    {
        match &rows[i] {
            QueryRow::Failed(e) => {
                return Err(Error::Unkown(e.clone()));
            },
            QueryRow::MissingBucket => {
                return Err(Error::Unkown(String::from_str("Bucket not found ::FindGroupsQueryMessage")));
            },
            QueryRow::Malformed(e) => {
                return Err(Error::Unkown(e.clone()));
            },
            QueryRow::Found(g) => {
                groups.push(g.clone());
            },
        }
        i = i + 1;
    }
    Ok(groups)
}

} // verus!
