use vstd::prelude::*;
use crate::resource::{row_views, Row, RowView};

verus! {

/// The pagination parameters of one listing request; each may be absent.
#[derive(Debug, Clone, Copy, PartialEq, Eq, Structural)]
pub struct Params {
    pub limit: Option<i32>,
    pub offset: Option<i32>,
}

/// One of the two queries that the listing ever makes.
#[derive(Debug, Clone, Copy, PartialEq, Eq, Structural)]
pub enum Query {
    /// Every row of the table.
    Unbounded,
    /// At most `limit` rows, after `offset` rows were skipped.
    Paginated { limit: i32, offset: i32 },
}

/// Why a request's parameters are refused.
#[derive(Debug, Clone, Copy, PartialEq, Eq, Structural)]
pub enum ValidationError {
    /// Exactly one of `limit` and `offset` was given.
    Unpaired,
}

/// Why a query gave no rows back.
#[derive(Debug, Clone, Copy, PartialEq, Eq, Structural)]
pub enum FetchError {
    /// The limit or the offset is negative: there is no such page.
    OutOfRange,
    /// The store failed or could not be reached.
    Unavailable,
}

/// The text sent back when exactly one of the two parameters was given.
pub open spec fn unpaired_message() -> Seq<char> {
    "Both `limit` and `offset` must be specified or unspecified."@
}

/// The statement that reads the whole table.
pub open spec fn unbounded_sql() -> Seq<char> {
    "SELECT * FROM resources;"@
}

/// The statement that reads one page; its two placeholders take the limit
/// and the offset, in that order.
pub open spec fn paginated_sql() -> Seq<char> {
    "SELECT * FROM resources LIMIT $1 OFFSET $2;"@
}

/// The smaller of `a` and `b`.
pub open spec fn at_most(a: int, b: int) -> int {
    if a <= b {
        a
    } else {
        b
    }
}

/// The rows of `table` at the positions from `offset` up to, not including,
/// `offset + limit`, as far as the table has them.
pub open spec fn page_of(table: Seq<RowView>, limit: int, offset: int) -> Seq<RowView>
    recommends
        limit >= 0,
        offset >= 0,
{
    table.subrange(
        at_most(offset, table.len() as int),
        at_most(offset + limit, table.len() as int),
    )
}

/// What a fetch gave back, each row by its contents.
pub open spec fn fetched_view(fetched: Result<Vec<Row>, FetchError>) -> Result<
    Seq<RowView>,
    FetchError,
> {
    match fetched {
        Ok(rows) => Ok(row_views(rows@)),
        Err(e) => Err(e),
    }
}

impl ValidationError {
    /// The text that tells the client what was wrong.
    pub fn message(&self) -> (m: String)
        ensures
            m@ == unpaired_message(),
    {
        "Both `limit` and `offset` must be specified or unspecified.".to_owned()
    }
}

impl Params {
    pub fn new(limit: Option<i32>, offset: Option<i32>) -> (p: Params)
        ensures
            p.limit == limit,
            p.offset == offset,
    {
        Params { limit, offset }
    }

    /// The query that the parameters ask for: a page when both are given,
    /// the whole table when neither is, and nothing when only one is.
    pub open spec fn query_spec(self) -> Result<Query, ValidationError> {
        match (self.limit, self.offset) {
            (Some(limit), Some(offset)) => Ok(Query::Paginated { limit, offset }),
            (None, None) => Ok(Query::Unbounded),
            _ => Err(ValidationError::Unpaired),
        }
    }

    /// Validates the parameters and picks the query.
    pub fn query(&self) -> (r: Result<Query, ValidationError>)
        ensures
            r == self.query_spec(),
    {
        match (self.limit, self.offset) {
            (Some(limit), Some(offset)) => Ok(Query::Paginated { limit, offset }),
            (None, None) => Ok(Query::Unbounded),
            _ => Err(ValidationError::Unpaired),
        }
    }
}

impl Query {
    /// The statement of the query.
    pub open spec fn sql_spec(self) -> Seq<char> {
        match self {
            Query::Unbounded => unbounded_sql(),
            Query::Paginated { .. } => paginated_sql(),
        }
    }

    /// The values bound to the statement's placeholders, in their order.
    pub open spec fn binds_spec(self) -> Seq<i32> {
        match self {
            Query::Unbounded => Seq::empty(),
            Query::Paginated { limit, offset } => seq![limit, offset],
        }
    }

    /// The rows that the query selects from `table`, in the table's order:
    /// all of them, or one page of them. A negative limit or offset selects
    /// nothing and fails instead.
    pub open spec fn select_spec(self, table: Seq<RowView>) -> Result<Seq<RowView>, FetchError> {
        match self {
            Query::Unbounded => Ok(table),
            Query::Paginated { limit, offset } => {
                if limit < 0 || offset < 0 {
                    Err(FetchError::OutOfRange)
                } else {
                    Ok(page_of(table, limit as int, offset as int))
                }
            },
        }
    }

    pub fn sql(&self) -> (s: String)
        ensures
            s@ == self.sql_spec(),
    {
        match self {
            Query::Unbounded => "SELECT * FROM resources;".to_owned(),
            Query::Paginated { .. } => "SELECT * FROM resources LIMIT $1 OFFSET $2;".to_owned(),
        }
    }

    pub fn binds(&self) -> (b: Vec<i32>)
        ensures
            b@ == self.binds_spec(),
    {
        match self {
            Query::Unbounded => {
                let b: Vec<i32> = Vec::new();
                proof {
                    assert(b@ =~= self.binds_spec());
                }
                b
            },
            Query::Paginated { limit, offset } => {
                let mut b: Vec<i32> = Vec::new();
                b.push(*limit);
                b.push(*offset);
                proof {
                    assert(b@ =~= self.binds_spec());
                }
                b
            },
        }
    }

    /// Runs the query on a table held in memory and hands out copies of the
    /// rows that it selects.
    pub fn select(&self, table: &Vec<Row>) -> (r: Result<Vec<Row>, FetchError>)
        ensures
            fetched_view(r) == self.select_spec(row_views(table@)),
    {
        let n: usize = table.len();
        let (start, end): (usize, usize) = match self {
            Query::Unbounded => (0, n),
            Query::Paginated { limit, offset } => {
                if *limit < 0 || *offset < 0 {
                    return Err(FetchError::OutOfRange);
                }
                let skip: usize = *offset as usize;
                let start: usize = if skip < n {
                    skip
                } else {
                    n
                };
                let room: usize = n - start;
                let take: usize = *limit as usize;
                let count: usize = if take < room {
                    take
                } else {
                    room
                };
                (start, start + count)
            },
        };
        let mut out: Vec<Row> = Vec::new();
        let mut k: usize = start;
        while k < end
            invariant
                start <= k <= end <= table.len(),
                out.len() == k - start,
                forall|j: int| 0 <= j < out.len() ==> (#[trigger] out@[j])@ == table@[start + j]@,
            decreases end - k,
        {
            out.push(table[k].duplicate());
            k += 1;
        }
        proof {
            assert(row_views(out@) =~= row_views(table@).subrange(start as int, end as int));
            assert(row_views(table@).subrange(0, n as int) =~= row_views(table@));
        }
        Ok(out)
    }
}

/// A page holds the table's rows from position `offset` on, in the table's
/// order, and at most `limit` of them; it holds fewer only where the table
/// ends.
pub proof fn law_page_is_a_window(table: Seq<RowView>, limit: int, offset: int)
    requires
        limit >= 0,
        offset >= 0,
    ensures
        page_of(table, limit, offset).len() <= limit,
        page_of(table, limit, offset).len() == limit || offset + page_of(
            table,
            limit,
            offset,
        ).len() >= table.len(),
        forall|i: int|
            0 <= i < page_of(table, limit, offset).len() ==> offset + i < table.len()
                && #[trigger] page_of(table, limit, offset)[i] == table[offset + i],
{
}

} // verus!
