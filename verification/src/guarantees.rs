//! What a client can rely on from one request to the next, proved from what the handlers do
//! and from what [`Tables`] says the store does with their statements.
//!
//! Every statement here is about a store that carries out what it is asked. What a client is
//! told when the store fails is stated with each handler.

use crate::handlers::{
    add_product_reply, add_sale_reply, add_sale_step, delete_product_reply, delete_sale_reply,
    get_products_reply, get_sales_reply, StepView, PRODUCT_ADDED, PRODUCT_DELETED,
    PRODUCT_MISSING, SALE_ADDED, SALE_DELETED,
};
use crate::records::{AddProductView, AddSaleView, ProductView, SaleView};
use crate::response::{BodyView, ResponseView, Status};
use crate::statement::{ParamView, StatementView};
use crate::store::Tables;
use vstd::prelude::*;

verus! {

/// How a request ends: the tables that it leaves and the reply that it gets.
pub struct Served {
    pub tables: Tables,
    pub reply: ResponseView,
}

/// A request that adds a product: the insert, then the reply to what it answered.
pub open spec fn serve_add_product(before: Tables, payload: AddProductView) -> Served {
    let insert = StatementView::InsertProduct(payload);
    Served {
        tables: before.after(insert),
        reply: add_product_reply(Ok(before.rows_affected(insert))),
    }
}

/// A request that adds a sale: the lookup of its product, then what the handler decides on the
/// lookup's answer, which is the insert and the reply to what it answered, or a reply at once.
pub open spec fn serve_add_sale(before: Tables, payload: AddSaleView) -> Served {
    let lookup = StatementView::SelectProductId(payload.product_id);
    let looked = before.after(lookup);
    match add_sale_step(payload, Ok(before.gives_row(lookup))) {
        StepView::Run(insert) => Served {
            tables: looked.after(insert),
            reply: add_sale_reply(Ok(looked.rows_affected(insert))),
        },
        StepView::Reply(reply) => Served { tables: looked, reply },
    }
}

/// A request that deletes a product: the delete, then the reply to what it answered.
pub open spec fn serve_delete_product(before: Tables, id: int) -> Served {
    let delete = StatementView::DeleteProduct(id);
    Served {
        tables: before.after(delete),
        reply: delete_product_reply(Ok(before.rows_affected(delete))),
    }
}

/// A request that deletes a sale: the delete, then the reply to what it answered.
pub open spec fn serve_delete_sale(before: Tables, id: int) -> Served {
    let delete = StatementView::DeleteSale(id);
    Served {
        tables: before.after(delete),
        reply: delete_sale_reply(Ok(before.rows_affected(delete))),
    }
}

/// The tables once the store has carried out `statements`, one after the other.
pub open spec fn after_all(tables: Tables, statements: Seq<StatementView>) -> Tables
    decreases statements.len(),
{
    if statements.len() == 0 {
        tables
    } else {
        after_all(tables, statements.drop_last()).after(statements.last())
    }
}

/// No statement breaks the tables: whatever the store carries out, every row still stands
/// under its own identifier and no identifier is past the largest that was given out.
pub proof fn tables_stay_well_formed(before: Tables, statement: StatementView)
    requires
        before.wf(),
    ensures
        before.after(statement).wf(),
{
}

/// No statement changes a row. A row that is there after a statement was either there before,
/// the same in every column, or it is the one row that the statement has just inserted.
pub proof fn rows_are_never_changed(before: Tables, statement: StatementView, id: int)
    requires
        before.wf(),
    ensures
        before.after(statement).products.contains_key(id) ==> {
            ||| before.products.contains_key(id) && before.after(statement).products[id]
                == before.products[id]
            ||| statement matches StatementView::InsertProduct(payload) && before.after(
                statement,
            ).products[id] == payload.with_id(id)
        },
        before.after(statement).sales.contains_key(id) ==> {
            ||| before.sales.contains_key(id) && before.after(statement).sales[id]
                == before.sales[id]
            ||| statement matches StatementView::InsertSale(payload) && before.after(
                statement,
            ).sales[id] == payload.with_id(id)
        },
{
}

/// Only the delete of a row removes it: after any other statement a product that was there is
/// still there, and so is a sale. Deleting a product removes no sale.
pub proof fn rows_leave_only_when_deleted(before: Tables, statement: StatementView, id: int)
    ensures
        before.products.contains_key(id) && statement != StatementView::DeleteProduct(id)
            ==> before.after(statement).products.contains_key(id),
        before.sales.contains_key(id) && statement != StatementView::DeleteSale(id)
            ==> before.after(statement).sales.contains_key(id),
{
}

/// A product that was added is in every listing that follows at once, with the name, the price
/// and the stock flag that were sent, under an identifier that no product had before and that
/// no other row of the listing has.
pub proof fn added_product_is_listed(
    before: Tables,
    payload: AddProductView,
    rows: Seq<ProductView>,
)
    requires
        before.wf(),
        serve_add_product(before, payload).tables.lists_products(rows),
    ensures
        serve_add_product(before, payload).reply == ResponseView::text(
            Status::Success,
            PRODUCT_ADDED@,
        ),
        get_products_reply(Ok(rows)) == (ResponseView {
            status: Status::Success,
            body: BodyView::Products(rows),
        }),
        !before.products.contains_key(before.next_product_id()),
        forall|id: int| before.products.contains_key(id) ==> id < before.next_product_id(),
        exists|i: int|
            0 <= i < rows.len() && rows[i] == (ProductView {
                id: before.next_product_id(),
                name: payload.name,
                price: payload.price,
                in_stock: payload.in_stock,
            }),
        forall|i: int, j: int|
            0 <= i < rows.len() && 0 <= j < rows.len() && rows[i].id == before.next_product_id()
                && rows[j].id == before.next_product_id() ==> i == j,
{
    let id = before.next_product_id();
    let after = serve_add_product(before, payload).tables;
    assert(after.products.contains_key(id));
    let i = choose|i: int| 0 <= i < rows.len() && #[trigger] rows[i].id == id;
    assert(after.products[rows[i].id] == rows[i]);
    assert(rows[i] == payload.with_id(id));
}

/// A sale for a product that is not there is refused with a client error, and nothing is
/// written: the tables are as they were, so a listing of the sales is what it would have been.
pub proof fn sale_for_missing_product_is_refused(before: Tables, payload: AddSaleView)
    requires
        !before.products.contains_key(payload.product_id),
    ensures
        serve_add_sale(before, payload).reply == ResponseView::text(
            Status::ClientError,
            PRODUCT_MISSING@,
        ),
        serve_add_sale(before, payload).reply.status.code_of() == 400,
        serve_add_sale(before, payload).tables == before,
        forall|rows: Seq<SaleView>|
            before.lists_sales(rows) <==> serve_add_sale(before, payload).tables.lists_sales(rows),
{
}

/// A sale for a product that is there is added, and it is in every listing that follows at
/// once, with the product, the discount and the two dates that were sent, under an identifier
/// that no sale had before and that no other row of the listing has.
pub proof fn added_sale_is_listed(before: Tables, payload: AddSaleView, rows: Seq<SaleView>)
    requires
        before.wf(),
        before.products.contains_key(payload.product_id),
        serve_add_sale(before, payload).tables.lists_sales(rows),
    ensures
        serve_add_sale(before, payload).reply == ResponseView::text(Status::Success, SALE_ADDED@),
        get_sales_reply(Ok(rows)) == (ResponseView {
            status: Status::Success,
            body: BodyView::Sales(rows),
        }),
        !before.sales.contains_key(before.next_sale_id()),
        forall|id: int| before.sales.contains_key(id) ==> id < before.next_sale_id(),
        exists|i: int|
            0 <= i < rows.len() && rows[i] == (SaleView {
                id: before.next_sale_id(),
                product_id: payload.product_id,
                discount: payload.discount,
                start_date: payload.start_date,
                end_date: payload.end_date,
            }),
        forall|i: int, j: int|
            0 <= i < rows.len() && 0 <= j < rows.len() && rows[i].id == before.next_sale_id()
                && rows[j].id == before.next_sale_id() ==> i == j,
{
    let id = before.next_sale_id();
    let after = serve_add_sale(before, payload).tables;
    assert(after.sales.contains_key(id));
    let i = choose|i: int| 0 <= i < rows.len() && #[trigger] rows[i].id == id;
    assert(after.sales[rows[i].id] == rows[i]);
    assert(rows[i] == payload.with_id(id));
}

/// Deleting a product that is not there is a success like any other delete: no row goes, the
/// tables are as they were, and the reply is the one that a delete of a product that was there
/// gets. The reply never tells whether anything was removed.
pub proof fn deleting_a_missing_product_succeeds(before: Tables, id: int)
    requires
        !before.products.contains_key(id),
    ensures
        before.rows_affected(StatementView::DeleteProduct(id)) == 0,
        serve_delete_product(before, id).reply == ResponseView::text(
            Status::Success,
            PRODUCT_DELETED@,
        ),
        serve_delete_product(before, id).reply.status.code_of() == 200,
        serve_delete_product(before, id).tables == before,
        forall|other: Tables, other_id: int|
            serve_delete_product(other, other_id).reply == serve_delete_product(before, id).reply,
{
    assert(before.products.remove(id) =~= before.products);
}

/// Deleting a sale that is not there is a success like any other delete: no row goes, the
/// tables are as they were, and the reply never tells whether anything was removed.
pub proof fn deleting_a_missing_sale_succeeds(before: Tables, id: int)
    requires
        !before.sales.contains_key(id),
    ensures
        before.rows_affected(StatementView::DeleteSale(id)) == 0,
        serve_delete_sale(before, id).reply == ResponseView::text(Status::Success, SALE_DELETED@),
        serve_delete_sale(before, id).tables == before,
        forall|other: Tables, other_id: int|
            serve_delete_sale(other, other_id).reply == serve_delete_sale(before, id).reply,
{
    assert(before.sales.remove(id) =~= before.sales);
}

/// A product that was deleted is in no listing that follows at once. Every other product is
/// still there as it was, and so is every sale, those that name the product too.
pub proof fn deleted_product_is_gone(before: Tables, id: int, rows: Seq<ProductView>)
    requires
        serve_delete_product(before, id).tables.lists_products(rows),
    ensures
        serve_delete_product(before, id).reply == ResponseView::text(
            Status::Success,
            PRODUCT_DELETED@,
        ),
        forall|i: int| 0 <= i < rows.len() ==> (#[trigger] rows[i]).id != id,
        forall|other: int|
            other != id && before.products.contains_key(other) ==> serve_delete_product(
                before,
                id,
            ).tables.products.contains_key(other) && serve_delete_product(
                before,
                id,
            ).tables.products[other] == before.products[other],
        serve_delete_product(before, id).tables.sales == before.sales,
{
    let after = serve_delete_product(before, id).tables;
    assert forall|i: int| 0 <= i < rows.len() implies (#[trigger] rows[i]).id != id by {
        assert(after.products.contains_key(rows[i].id));
    }
}

/// A sale that was deleted is in no listing that follows at once. Every other sale is still
/// there as it was, and so is every product.
pub proof fn deleted_sale_is_gone(before: Tables, id: int, rows: Seq<SaleView>)
    requires
        serve_delete_sale(before, id).tables.lists_sales(rows),
    ensures
        serve_delete_sale(before, id).reply == ResponseView::text(Status::Success, SALE_DELETED@),
        forall|i: int| 0 <= i < rows.len() ==> (#[trigger] rows[i]).id != id,
        forall|other: int|
            other != id && before.sales.contains_key(other) ==> serve_delete_sale(
                before,
                id,
            ).tables.sales.contains_key(other) && serve_delete_sale(before, id).tables.sales[other]
                == before.sales[other],
        serve_delete_sale(before, id).tables.products == before.products,
{
    let after = serve_delete_sale(before, id).tables;
    assert forall|i: int| 0 <= i < rows.len() implies (#[trigger] rows[i]).id != id by {
        assert(after.sales.contains_key(rows[i].id));
    }
}

/// What is sent to create a product comes back as it was sent. The insert binds the name, the
/// price and the stock flag of the request, each as it came. The store keeps them so, whatever
/// statements follow, until the product is deleted. And a listing hands on each row as the
/// store gave it.
pub proof fn product_comes_back_as_sent(
    before: Tables,
    payload: AddProductView,
    later: Seq<StatementView>,
    rows: Seq<ProductView>,
)
    requires
        before.wf(),
        forall|k: int|
            0 <= k < later.len() ==> later[k] != StatementView::DeleteProduct(
                before.next_product_id(),
            ),
        after_all(serve_add_product(before, payload).tables, later).lists_products(rows),
    ensures
        StatementView::InsertProduct(payload).params() == seq![
            ParamView::Text(payload.name),
            ParamView::Real(payload.price),
            ParamView::Boolean(payload.in_stock),
        ],
        get_products_reply(Ok(rows)).body == BodyView::Products(rows),
        exists|i: int|
            0 <= i < rows.len() && rows[i].id == before.next_product_id() && rows[i].name
                == payload.name && rows[i].price == payload.price && rows[i].in_stock
                == payload.in_stock,
{
    let id = before.next_product_id();
    let added = serve_add_product(before, payload).tables;
    product_stays_as_added(added, later, id);
    let last = after_all(added, later);
    assert(last.products.contains_key(id));
    let i = choose|i: int| 0 <= i < rows.len() && #[trigger] rows[i].id == id;
    assert(last.products[rows[i].id] == rows[i]);
}

/// What is sent to create a sale comes back as it was sent. The insert binds the product, the
/// discount and the two dates of the request, each as it came. The store keeps them so,
/// whatever statements follow, until the sale is deleted. And a listing hands on each row as
/// the store gave it.
pub proof fn sale_comes_back_as_sent(
    before: Tables,
    payload: AddSaleView,
    later: Seq<StatementView>,
    rows: Seq<SaleView>,
)
    requires
        before.wf(),
        before.products.contains_key(payload.product_id),
        forall|k: int|
            0 <= k < later.len() ==> later[k] != StatementView::DeleteSale(before.next_sale_id()),
        after_all(serve_add_sale(before, payload).tables, later).lists_sales(rows),
    ensures
        StatementView::InsertSale(payload).params() == seq![
            ParamView::Integer(payload.product_id),
            ParamView::Integer(payload.discount),
            ParamView::Text(payload.start_date),
            ParamView::Text(payload.end_date),
        ],
        get_sales_reply(Ok(rows)).body == BodyView::Sales(rows),
        exists|i: int|
            0 <= i < rows.len() && rows[i].id == before.next_sale_id() && rows[i].product_id
                == payload.product_id && rows[i].discount == payload.discount
                && rows[i].start_date == payload.start_date && rows[i].end_date
                == payload.end_date,
{
    let id = before.next_sale_id();
    let added = serve_add_sale(before, payload).tables;
    sale_stays_as_added(added, later, id);
    let last = after_all(added, later);
    assert(last.sales.contains_key(id));
    let i = choose|i: int| 0 <= i < rows.len() && #[trigger] rows[i].id == id;
    assert(last.sales[rows[i].id] == rows[i]);
}

proof fn product_stays_as_added(tables: Tables, later: Seq<StatementView>, id: int)
    requires
        tables.wf(),
        tables.products.contains_key(id),
        forall|k: int| 0 <= k < later.len() ==> later[k] != StatementView::DeleteProduct(id),
    ensures
        after_all(tables, later).wf(),
        after_all(tables, later).products.contains_key(id),
        after_all(tables, later).products[id] == tables.products[id],
    decreases later.len(),
{
    if later.len() > 0 {
        product_stays_as_added(tables, later.drop_last(), id);
        assert(later.last() == later[later.len() - 1]);
    }
}

proof fn sale_stays_as_added(tables: Tables, later: Seq<StatementView>, id: int)
    requires
        tables.wf(),
        tables.sales.contains_key(id),
        forall|k: int| 0 <= k < later.len() ==> later[k] != StatementView::DeleteSale(id),
    ensures
        after_all(tables, later).wf(),
        after_all(tables, later).sales.contains_key(id),
        after_all(tables, later).sales[id] == tables.sales[id],
    decreases later.len(),
{
    if later.len() > 0 {
        sale_stays_as_added(tables, later.drop_last(), id);
        assert(later.last() == later[later.len() - 1]);
    }
}

} // verus!
