use vstd::prelude::*;
use crate::query::{
    fetched_view, law_page_is_a_window, page_of, unpaired_message, FetchError, Params,
    ValidationError,
};
use crate::resource::{
    decodable, decode_all, decode_spec, decoded, row_views, DecodeError, Row, RowView,
};
use crate::response::{
    failure_view, fetch_failed_message, success_view, BodyView, Response, ResponseView,
    STATUS_BAD_REQUEST, STATUS_INTERNAL_SERVER_ERROR,
};

verus! {

/// The reply to a request whose parameters were refused.
pub open spec fn reject_spec(e: ValidationError) -> ResponseView {
    failure_view(STATUS_BAD_REQUEST, unpaired_message())
}

/// The reply to a request whose query was run: the decoded rows if the
/// store gave rows and every one of them decodes, else one and the same
/// failure, which says nothing of its cause.
pub open spec fn respond_spec(fetched: Result<Seq<RowView>, FetchError>) -> ResponseView {
    match fetched {
        Ok(rows) if decodable(rows) => success_view(decoded(rows)),
        _ => failure_view(STATUS_INTERNAL_SERVER_ERROR, fetch_failed_message()),
    }
}

/// The reply to a request with `params` when the table holds `table`.
pub open spec fn handle_spec(params: Params, table: Seq<RowView>) -> ResponseView {
    match params.query_spec() {
        Err(e) => reject_spec(e),
        Ok(query) => respond_spec(query.select_spec(table)),
    }
}

/// Answers a request whose parameters were refused.
pub fn reject(e: ValidationError) -> (r: Response)
    ensures
        r@ == reject_spec(e),
{
    Response::failed(STATUS_BAD_REQUEST, e.message())
}

/// Answers a request from what the store gave back for its query.
pub fn respond(fetched: Result<Vec<Row>, FetchError>) -> (r: Response)
    ensures
        r@ == respond_spec(fetched_view(fetched)),
{
    match fetched {
        Ok(rows) => match decode_all(&rows) {
            Ok(resources) => Response::success(resources),
            Err(_) => Response::failed(
                STATUS_INTERNAL_SERVER_ERROR,
                "Failed to fetch resources from database.".to_owned(),
            ),
        },
        Err(_) => Response::failed(
            STATUS_INTERNAL_SERVER_ERROR,
            "Failed to fetch resources from database.".to_owned(),
        ),
    }
}

/// Answers a listing request against a table held in memory: validates the
/// parameters, runs the one query they ask for, decodes its rows and wraps
/// them up. The table is not read when the parameters are refused.
pub fn handler(params: &Params, table: &Vec<Row>) -> (r: Response)
    ensures
        r@ == handle_spec(*params, row_views(table@)),
{
    match params.query() {
        Err(e) => reject(e),
        Ok(query) => respond(query.select(table)),
    }
}

/// A request with exactly one of the two parameters is refused with status
/// 400 and a failure body, whatever the table holds.
pub proof fn law_unpaired_is_refused(params: Params, table: Seq<RowView>)
    requires
        params.limit.is_some() != params.offset.is_some(),
    ensures
        handle_spec(params, table).status == 400,
        handle_spec(params, table).body == (BodyView::Failed { message: unpaired_message() }),
        handle_spec(params, table).body.result_spec() == "failed"@,
{
}

/// A request with neither parameter, on a table whose rows all decode, is
/// answered with status 200, every row of the table in the table's order,
/// and their number.
pub proof fn law_unbounded_lists_all(params: Params, table: Seq<RowView>)
    requires
        params.limit.is_none(),
        params.offset.is_none(),
        decodable(table),
    ensures
        handle_spec(params, table).status == 200,
        handle_spec(params, table).body == (BodyView::Success {
            length: table.len(),
            resources: decoded(table),
        }),
        decoded(table).len() == table.len(),
        forall|i: int|
            0 <= i < table.len() ==> decode_spec(table[i]) == Ok::<_, DecodeError>(
                #[trigger] decoded(table)[i],
            ),
{
}

/// A request with a limit and an offset that are not negative, where the
/// rows of its page all decode, is answered with status 200 and the rows at
/// the positions from `offset` up to, not including, `offset + limit`, as
/// far as the table has them: at most `limit` of them.
pub proof fn law_paginated_lists_the_page(limit: i32, offset: i32, table: Seq<RowView>)
    requires
        limit >= 0,
        offset >= 0,
        decodable(page_of(table, limit as int, offset as int)),
    ensures
        handle_spec(Params { limit: Some(limit), offset: Some(offset) }, table) == success_view(
            decoded(page_of(table, limit as int, offset as int)),
        ),
        success_view(decoded(page_of(table, limit as int, offset as int))).status == 200,
        decoded(page_of(table, limit as int, offset as int)).len() <= limit,
        forall|i: int|
            0 <= i < decoded(page_of(table, limit as int, offset as int)).len() ==> offset + i
                < table.len() && decode_spec(table[offset + i]) == Ok::<_, DecodeError>(
                #[trigger] decoded(page_of(table, limit as int, offset as int))[i],
            ),
{
    law_page_is_a_window(table, limit as int, offset as int);
    let page = page_of(table, limit as int, offset as int);
    assert forall|i: int| 0 <= i < decoded(page).len() implies offset + i < table.len()
        && decode_spec(table[offset + i]) == Ok::<_, DecodeError>(#[trigger] decoded(page)[i]) by {
        assert(page[i] == table[offset + i]);
        assert(decode_spec(page[i]) is Ok);
    }
}

/// The reply depends on the parameters and on the table's contents alone:
/// two replies to the same request on the same table have the same contents.
pub proof fn law_same_request_same_reply(
    params: Params,
    table: Seq<RowView>,
    first: Response,
    second: Response,
)
    requires
        first@ == handle_spec(params, table),
        second@ == handle_spec(params, table),
    ensures
        first@ == second@,
        first@.status == second@.status,
        first@.body == second@.body,
{
}

/// A fetched row whose category or platform is unknown turns the whole
/// reply into a failure with status 500: no resource is sent. So does such
/// a row anywhere in a table that is listed whole.
pub proof fn law_undecodable_row_fails(rows: Seq<RowView>, i: int)
    requires
        0 <= i < rows.len(),
        decode_spec(rows[i]) is Err,
    ensures
        respond_spec(Ok(rows)).status == 500,
        respond_spec(Ok(rows)).body == (BodyView::Failed { message: fetch_failed_message() }),
        respond_spec(Ok(rows)).body.result_spec() == "failed"@,
        handle_spec(Params { limit: None, offset: None }, rows) == respond_spec(Ok(rows)),
{
}

/// A failed fetch is answered with status 500 and the same words, whatever
/// its cause.
pub proof fn law_failed_fetch_fails(e: FetchError)
    ensures
        respond_spec(Err(e)) == failure_view(500, fetch_failed_message()),
{
}

/// Every reply is one of three: 200 with a list and its length, 400 with a
/// failure, or 500 with a failure.
pub proof fn law_reply_well_formed(params: Params, table: Seq<RowView>)
    ensures
        handle_spec(params, table).well_formed(),
        handle_spec(params, table).status == 400 <==> params.limit.is_some()
            != params.offset.is_some(),
{
}

} // verus!
