//! What a client is told.

use crate::records::{product_views, sale_views, Product, ProductView, Sale, SaleView};
use vstd::prelude::*;

verus! {

/// How an exchange ended.
#[derive(Clone, Copy, Debug, PartialEq, Eq)]
pub enum Status {
    /// The request was carried out.
    Success,
    /// The request refers to something that is not there.
    ClientError,
    /// The store could not do its part.
    ServerError,
}

impl Status {
    /// The number that stands for this status on the wire.
    pub open spec fn code_of(self) -> u16 {
        match self {
            Status::Success => 200,
            Status::ClientError => 400,
            Status::ServerError => 500,
        }
    }

    /// The number that stands for this status on the wire.
    pub fn code(&self) -> (code: u16)
        ensures
            code == self.code_of(),
    {
        match self {
            Status::Success => 200,
            Status::ClientError => 400,
            Status::ServerError => 500,
        }
    }
}

/// What a reply carries.
#[derive(Clone, Debug, PartialEq)]
pub enum Body {
    /// Nothing.
    Empty,
    /// A line of plain text.
    Text(String),
    /// A listing of products, to be sent as a JSON array.
    Products(Vec<Product>),
    /// A listing of sales, to be sent as a JSON array.
    Sales(Vec<Sale>),
}

/// A reply: a status and a body.
#[derive(Clone, Debug, PartialEq)]
pub struct Response {
    pub status: Status,
    pub body: Body,
}

/// A body as a mathematical value.
pub enum BodyView {
    Empty,
    Text(Seq<char>),
    Products(Seq<ProductView>),
    Sales(Seq<SaleView>),
}

/// A reply as a mathematical value.
pub struct ResponseView {
    pub status: Status,
    pub body: BodyView,
}

impl View for Body {
    type V = BodyView;

    open spec fn view(&self) -> BodyView {
        match self {
            Body::Empty => BodyView::Empty,
            Body::Text(text) => BodyView::Text(text@),
            Body::Products(rows) => BodyView::Products(product_views(rows@)),
            Body::Sales(rows) => BodyView::Sales(sale_views(rows@)),
        }
    }
}

impl View for Response {
    type V = ResponseView;

    open spec fn view(&self) -> ResponseView {
        ResponseView { status: self.status, body: self.body@ }
    }
}

impl ResponseView {
    /// The reply with this status and this line of text.
    pub open spec fn text(status: Status, line: Seq<char>) -> ResponseView {
        ResponseView { status, body: BodyView::Text(line) }
    }

    /// The reply with this status and nothing else.
    pub open spec fn empty(status: Status) -> ResponseView {
        ResponseView { status, body: BodyView::Empty }
    }
}

impl Response {
    /// The reply with this status and this line of text.
    pub fn text(status: Status, line: &str) -> (response: Response)
        ensures
            response@ == ResponseView::text(status, line@),
    {
        Response { status, body: Body::Text(line.to_owned()) }
    }

    /// The reply with this status and nothing else.
    pub fn empty(status: Status) -> (response: Response)
        ensures
            response@ == ResponseView::empty(status),
    {
        Response { status, body: Body::Empty }
    }
}

} // verus!
