//! The handlers, one per kind of request.
//!
//! A handler waits for the store once, or twice when a sale is added. It is cut where it waits:
//! a function ending in `_statement` or `_lookup` gives what is sent to the store, and the
//! function that bears the handler's name takes what the store answered and gives what follows.
//! No handler reads why the store failed, so no reply can tell a client.

use crate::records::{product_views, sale_views, AddProduct, AddSale, AddSaleView, Product,
    ProductView, Sale, SaleView};
use crate::response::{Body, BodyView, Response, ResponseView, Status};
use crate::statement::{Statement, StatementView};
use vstd::prelude::*;

verus! {

/// The store could not carry out a statement. The cause stays with whoever talked to the store.
#[derive(Clone, Copy, Debug, PartialEq, Eq)]
pub struct StoreError;

/// What a handler wants next: another statement carried out, or the reply sent.
#[derive(Clone, Debug, PartialEq)]
pub enum Step {
    Run(Statement),
    Reply(Response),
}

/// A step as a mathematical value.
pub enum StepView {
    Run(StatementView),
    Reply(ResponseView),
}

impl View for Step {
    type V = StepView;

    open spec fn view(&self) -> StepView {
        match self {
            Step::Run(statement) => StepView::Run(statement@),
            Step::Reply(response) => StepView::Reply(response@),
        }
    }
}

/// What a client reads when a product was added.
pub const PRODUCT_ADDED: &'static str = "Product added successfully";

/// What a client reads when a sale was added.
pub const SALE_ADDED: &'static str = "Sale added successfully";

/// What a client reads when the delete of a product was carried out.
pub const PRODUCT_DELETED: &'static str = "Product deleted successfully";

/// What a client reads when the delete of a sale was carried out.
pub const SALE_DELETED: &'static str = "Sale deleted successfully";

/// What a client reads when a sale names a product that is not there.
pub const PRODUCT_MISSING: &'static str = "Product does not exist";

/// What a client reads when the store could not say whether the product of a sale is there.
pub const CHECK_FAILED: &'static str = "Error checking product existence";

/// What a client reads when the store could not insert a sale whose product is there.
pub const INSERT_FAILED: &'static str = "Error adding sale";

/// The reply to a request for the products: the rows as the store gave them, in its order, or
/// a bare server error.
pub open spec fn get_products_reply(fetched: Result<Seq<ProductView>, StoreError>) -> ResponseView {
    match fetched {
        Ok(rows) => ResponseView { status: Status::Success, body: BodyView::Products(rows) },
        Err(_) => ResponseView::empty(Status::ServerError),
    }
}

/// The reply to a request for the sales: the rows as the store gave them, in its order, or a
/// bare server error.
pub open spec fn get_sales_reply(fetched: Result<Seq<SaleView>, StoreError>) -> ResponseView {
    match fetched {
        Ok(rows) => ResponseView { status: Status::Success, body: BodyView::Sales(rows) },
        Err(_) => ResponseView::empty(Status::ServerError),
    }
}

/// The reply to a request that adds a product, given the number of rows that the insert wrote.
pub open spec fn add_product_reply(inserted: Result<u64, StoreError>) -> ResponseView {
    match inserted {
        Ok(_) => ResponseView::text(Status::Success, PRODUCT_ADDED@),
        Err(_) => ResponseView::empty(Status::ServerError),
    }
}

/// What follows the lookup of a sale's product: the insert if the product is there, a client
/// error if it is not, a server error if the store could not say.
pub open spec fn add_sale_step(payload: AddSaleView, found: Result<bool, StoreError>) -> StepView {
    match found {
        Ok(true) => StepView::Run(StatementView::InsertSale(payload)),
        Ok(false) => StepView::Reply(ResponseView::text(Status::ClientError, PRODUCT_MISSING@)),
        Err(_) => StepView::Reply(ResponseView::text(Status::ServerError, CHECK_FAILED@)),
    }
}

/// The reply to a request that adds a sale, given the number of rows that the insert wrote.
pub open spec fn add_sale_reply(inserted: Result<u64, StoreError>) -> ResponseView {
    match inserted {
        Ok(_) => ResponseView::text(Status::Success, SALE_ADDED@),
        Err(_) => ResponseView::text(Status::ServerError, INSERT_FAILED@),
    }
}

/// The reply to a request that deletes a product, given the number of rows that went.
pub open spec fn delete_product_reply(deleted: Result<u64, StoreError>) -> ResponseView {
    match deleted {
        Ok(_) => ResponseView::text(Status::Success, PRODUCT_DELETED@),
        Err(_) => ResponseView::empty(Status::ServerError),
    }
}

/// The reply to a request that deletes a sale, given the number of rows that went.
pub open spec fn delete_sale_reply(deleted: Result<u64, StoreError>) -> ResponseView {
    match deleted {
        Ok(_) => ResponseView::text(Status::Success, SALE_DELETED@),
        Err(_) => ResponseView::empty(Status::ServerError),
    }
}

/// The statement that prepares the store at startup. A store that cannot carry it out is no
/// store to start on.
pub fn init_db() -> (statement: Statement)
    ensures
        statement@ == StatementView::CreateTables,
{
    Statement::CreateTables
}

/// The statement behind a request for the products: all of them, with no filter and no order
/// asked for.
pub fn get_products_statement() -> (statement: Statement)
    ensures
        statement@ == StatementView::SelectProducts,
{
    Statement::SelectProducts
}

/// Answers a request for the products with the rows that the store gave, each as it came and
/// in the order in which they came, or with a bare server error if the store failed.
pub fn get_products(fetched: Result<Vec<Product>, StoreError>) -> (response: Response)
    ensures
        response@ == get_products_reply(
            match fetched {
                Ok(rows) => Ok(product_views(rows@)),
                Err(error) => Err(error),
            },
        ),
{
    match fetched {
        Ok(rows) => Response { status: Status::Success, body: Body::Products(rows) },
        Err(_) => Response::empty(Status::ServerError),
    }
}

/// The statement behind a request for the sales: all of them, with no filter and no order
/// asked for.
pub fn get_sales_statement() -> (statement: Statement)
    ensures
        statement@ == StatementView::SelectSales,
{
    Statement::SelectSales
}

/// Answers a request for the sales with the rows that the store gave, each as it came and in
/// the order in which they came, or with a bare server error if the store failed.
pub fn get_sales(fetched: Result<Vec<Sale>, StoreError>) -> (response: Response)
    ensures
        response@ == get_sales_reply(
            match fetched {
                Ok(rows) => Ok(sale_views(rows@)),
                Err(error) => Err(error),
            },
        ),
{
    match fetched {
        Ok(rows) => Response { status: Status::Success, body: Body::Sales(rows) },
        Err(_) => Response::empty(Status::ServerError),
    }
}

/// The statement behind a request that adds a product. It holds the request as it came: no
/// name is refused, and no price.
pub fn add_product_statement(payload: AddProduct) -> (statement: Statement)
    ensures
        statement@ == StatementView::InsertProduct(payload@),
{
    Statement::InsertProduct(payload)
}

/// Answers a request that adds a product, once the store has answered the insert with the
/// number of rows that it wrote or with a failure.
pub fn add_product(inserted: Result<u64, StoreError>) -> (response: Response)
    ensures
        response@ == add_product_reply(inserted),
{
    match inserted {
        Ok(_) => Response::text(Status::Success, PRODUCT_ADDED),
        Err(_) => Response::empty(Status::ServerError),
    }
}

/// The first statement behind a request that adds a sale: is the product that it names there?
pub fn add_sale_lookup(payload: &AddSale) -> (statement: Statement)
    ensures
        statement@ == StatementView::SelectProductId(payload@.product_id),
{
    Statement::SelectProductId(payload.product_id)
}

/// Decides what follows the lookup. `found` says whether the store gave a row for the product.
///
/// If it did, the sale is to be inserted as it came. If it did not, the request is refused and
/// nothing more is asked of the store. If the store could not say, the request fails and
/// nothing more is asked of the store either.
///
/// The lookup and the insert are two statements, and nothing holds the store still between
/// them.
pub fn add_sale(payload: AddSale, found: Result<bool, StoreError>) -> (step: Step)
    ensures
        step@ == add_sale_step(payload@, found),
{
    match found {
        Ok(true) => Step::Run(Statement::InsertSale(payload)),
        Ok(false) => Step::Reply(Response::text(Status::ClientError, PRODUCT_MISSING)),
        Err(_) => Step::Reply(Response::text(Status::ServerError, CHECK_FAILED)),
    }
}

/// Answers a request that adds a sale, once the store has answered the insert with the number
/// of rows that it wrote or with a failure.
pub fn add_sale_inserted(inserted: Result<u64, StoreError>) -> (response: Response)
    ensures
        response@ == add_sale_reply(inserted),
{
    match inserted {
        Ok(_) => Response::text(Status::Success, SALE_ADDED),
        Err(_) => Response::text(Status::ServerError, INSERT_FAILED),
    }
}

/// The statement behind a request that deletes a product. Sales that name the product stay.
pub fn delete_product_statement(id: i32) -> (statement: Statement)
    ensures
        statement@ == StatementView::DeleteProduct(id as int),
{
    Statement::DeleteProduct(id)
}

/// Answers a request that deletes a product, once the store has answered the delete with the
/// number of rows that went or with a failure. The number is not looked at: a delete that
/// found nothing to remove is a success like any other.
pub fn delete_product(deleted: Result<u64, StoreError>) -> (response: Response)
    ensures
        response@ == delete_product_reply(deleted),
{
    match deleted {
        Ok(_) => Response::text(Status::Success, PRODUCT_DELETED),
        Err(_) => Response::empty(Status::ServerError),
    }
}

/// The statement behind a request that deletes a sale.
pub fn delete_sale_statement(id: i32) -> (statement: Statement)
    ensures
        statement@ == StatementView::DeleteSale(id as int),
{
    Statement::DeleteSale(id)
}

/// Answers a request that deletes a sale, once the store has answered the delete with the
/// number of rows that went or with a failure. The number is not looked at: a delete that
/// found nothing to remove is a success like any other.
pub fn delete_sale(deleted: Result<u64, StoreError>) -> (response: Response)
    ensures
        response@ == delete_sale_reply(deleted),
{
    match deleted {
        Ok(_) => Response::text(Status::Success, SALE_DELETED),
        Err(_) => Response::empty(Status::ServerError),
    }
}

} // verus!
