use vstd::prelude::*;
use crate::resource::{resource_views, Resource, ResourceView};

verus! {

/// The status of a listing that was answered.
pub const STATUS_OK: u16 = 200;

/// The status of a request whose parameters were refused.
pub const STATUS_BAD_REQUEST: u16 = 400;

/// The status of a request that failed at the store or at a row.
pub const STATUS_INTERNAL_SERVER_ERROR: u16 = 500;

/// The body of a reply.
#[derive(Debug, Clone, PartialEq, Eq)]
pub enum Body {
    /// The resources, in the order in which the query gave them, and their
    /// number.
    Success { length: usize, resources: Vec<Resource> },
    /// What went wrong, in words meant for the client.
    Failed { message: String },
}

/// A reply: a status and a body.
#[derive(Debug, Clone, PartialEq, Eq)]
pub struct Response {
    pub status: u16,
    pub body: Body,
}

/// The contents of a `Body`.
pub ghost enum BodyView {
    Success { length: nat, resources: Seq<ResourceView> },
    Failed { message: Seq<char> },
}

/// The contents of a `Response`.
pub ghost struct ResponseView {
    pub status: u16,
    pub body: BodyView,
}

impl View for Body {
    type V = BodyView;

    open spec fn view(&self) -> BodyView {
        match *self {
            Body::Success { length, resources } => BodyView::Success {
                length: length as nat,
                resources: resource_views(resources@),
            },
            Body::Failed { message } => BodyView::Failed { message: message@ },
        }
    }
}

impl View for Response {
    type V = ResponseView;

    open spec fn view(&self) -> ResponseView {
        ResponseView { status: self.status, body: self.body@ }
    }
}

/// The text sent back when the store failed or a row could not be decoded.
pub open spec fn fetch_failed_message() -> Seq<char> {
    "Failed to fetch resources from database."@
}

/// The reply that lists `resources`.
pub open spec fn success_view(resources: Seq<ResourceView>) -> ResponseView {
    ResponseView {
        status: STATUS_OK,
        body: BodyView::Success { length: resources.len(), resources },
    }
}

/// The reply that reports a failure.
pub open spec fn failure_view(status: u16, message: Seq<char>) -> ResponseView {
    ResponseView { status, body: BodyView::Failed { message } }
}

impl BodyView {
    /// The word that tells the two kinds of body apart.
    pub open spec fn result_spec(self) -> Seq<char> {
        match self {
            BodyView::Success { .. } => "success"@,
            BodyView::Failed { .. } => "failed"@,
        }
    }
}

impl ResponseView {
    /// Whether the status and the body agree: a list comes with 200 and
    /// with its own length, a failure with 400 or 500.
    pub open spec fn well_formed(self) -> bool {
        match self.body {
            BodyView::Success { length, resources } => self.status == STATUS_OK && length
                == resources.len(),
            BodyView::Failed { .. } => self.status == STATUS_BAD_REQUEST || self.status
                == STATUS_INTERNAL_SERVER_ERROR,
        }
    }
}

impl Body {
    /// `"success"` for a list, `"failed"` for a failure.
    pub fn result(&self) -> (word: String)
        ensures
            word@ == self@.result_spec(),
    {
        match self {
            Body::Success { .. } => "success".to_owned(),
            Body::Failed { .. } => "failed".to_owned(),
        }
    }
}

impl Response {
    /// The reply that lists `resources`, in their order.
    pub fn success(resources: Vec<Resource>) -> (r: Response)
        ensures
            r@ == success_view(resource_views(resources@)),
    {
        let length: usize = resources.len();
        Response { status: STATUS_OK, body: Body::Success { length, resources } }
    }

    /// The reply that reports a failure under `status`.
    pub fn failed(status: u16, message: String) -> (r: Response)
        ensures
            r@ == failure_view(status, message@),
    {
        Response { status, body: Body::Failed { message } }
    }
}

} // verus!
