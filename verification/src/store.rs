//! What the statements mean: the two tables as mathematical values, and what a statement that
//! the store has carried out leaves behind and answers.
//!
//! The store itself is out of this library's reach. What stands here is what the handlers
//! take it to do, so that what they promise a client can be stated and proved. Whether the
//! store carries a statement out is its own affair: a statement that it refuses changes
//! nothing, and the handlers say what a client is told then.

use crate::records::{ProductView, SaleView};
use crate::statement::StatementView;
use vstd::prelude::*;

verus! {

/// The two tables. A table maps each identifier in use to the row that bears it, so no two
/// rows of a table share an identifier.
pub struct Tables {
    pub products: Map<int, ProductView>,
    pub sales: Map<int, SaleView>,
    /// The largest identifier that a product has ever had, 0 before the first.
    pub last_product_id: int,
    /// The largest identifier that a sale has ever had, 0 before the first.
    pub last_sale_id: int,
}

impl Tables {
    /// The tables as the startup statement makes them in a store that had none.
    pub open spec fn empty() -> Tables {
        Tables {
            products: Map::empty(),
            sales: Map::empty(),
            last_product_id: 0,
            last_sale_id: 0,
        }
    }

    /// Every row stands under its own identifier, and identifiers start at 1 and have not
    /// gone past the largest that was given out.
    pub open spec fn wf(self) -> bool {
        &&& 0 <= self.last_product_id
        &&& 0 <= self.last_sale_id
        &&& forall|id: int| #[trigger]
            self.products.contains_key(id) ==> self.products[id].id == id && 1 <= id
                <= self.last_product_id
        &&& forall|id: int| #[trigger]
            self.sales.contains_key(id) ==> self.sales[id].id == id && 1 <= id <= self.last_sale_id
    }

    /// The identifier that the next product gets: one more than any product has ever had, so
    /// the identifier of a product that was deleted is not given out again.
    pub open spec fn next_product_id(self) -> int {
        self.last_product_id + 1
    }

    /// The identifier that the next sale gets: one more than any sale has ever had.
    pub open spec fn next_sale_id(self) -> int {
        self.last_sale_id + 1
    }

    /// The tables once the store has carried out `statement`.
    ///
    /// Reading changes nothing, and neither does making tables that are there. An insert adds
    /// one row under the next identifier, with every other column as the statement binds it. It
    /// does not look at the other table: it is the handler that looks up the product of a sale
    /// first. A delete removes the row with the identifier, if there is one, and no other row
    /// of either table: nothing goes along with a product.
    pub open spec fn after(self, statement: StatementView) -> Tables {
        match statement {
            StatementView::CreateTables => self,
            StatementView::SelectProducts => self,
            StatementView::SelectSales => self,
            StatementView::SelectProductId(_) => self,
            StatementView::InsertProduct(payload) => Tables {
                products: self.products.insert(
                    self.next_product_id(),
                    payload.with_id(self.next_product_id()),
                ),
                last_product_id: self.next_product_id(),
                ..self
            },
            StatementView::InsertSale(payload) => Tables {
                sales: self.sales.insert(self.next_sale_id(), payload.with_id(self.next_sale_id())),
                last_sale_id: self.next_sale_id(),
                ..self
            },
            StatementView::DeleteProduct(id) => Tables {
                products: self.products.remove(id),
                ..self
            },
            StatementView::DeleteSale(id) => Tables { sales: self.sales.remove(id), ..self },
        }
    }

    /// The number of rows that the store writes or removes when it carries out `statement`.
    pub open spec fn rows_affected(self, statement: StatementView) -> u64 {
        match statement {
            StatementView::InsertProduct(_) => 1,
            StatementView::InsertSale(_) => 1,
            StatementView::DeleteProduct(id) => if self.products.contains_key(id) {
                1
            } else {
                0
            },
            StatementView::DeleteSale(id) => if self.sales.contains_key(id) {
                1
            } else {
                0
            },
            _ => 0,
        }
    }

    /// Whether the store gives a row when it carries out `statement`, where the statement
    /// looks one row up.
    pub open spec fn gives_row(self, statement: StatementView) -> bool {
        statement matches StatementView::SelectProductId(id) && self.products.contains_key(id)
    }

    /// Whether `rows` is a listing of the products: every product once, in an order of the
    /// store's choosing.
    pub open spec fn lists_products(self, rows: Seq<ProductView>) -> bool {
        &&& forall|i: int|
            0 <= i < rows.len() ==> self.products.contains_key(#[trigger] rows[i].id)
                && self.products[rows[i].id] == rows[i]
        &&& forall|i: int, j: int|
            0 <= i < j < rows.len() ==> #[trigger] rows[i].id != #[trigger] rows[j].id
        &&& forall|id: int| #[trigger]
            self.products.contains_key(id) ==> exists|i: int|
                0 <= i < rows.len() && #[trigger] rows[i].id == id
    }

    /// Whether `rows` is a listing of the sales: every sale once, in an order of the store's
    /// choosing.
    pub open spec fn lists_sales(self, rows: Seq<SaleView>) -> bool {
        &&& forall|i: int|
            0 <= i < rows.len() ==> self.sales.contains_key(#[trigger] rows[i].id)
                && self.sales[rows[i].id] == rows[i]
        &&& forall|i: int, j: int|
            0 <= i < j < rows.len() ==> #[trigger] rows[i].id != #[trigger] rows[j].id
        &&& forall|id: int| #[trigger]
            self.sales.contains_key(id) ==> exists|i: int|
                0 <= i < rows.len() && #[trigger] rows[i].id == id
    }

    /// The products with identifiers up to `top`, by rising identifier.
    pub open spec fn products_up_to(self, top: int) -> Seq<ProductView>
        decreases top,
    {
        if top <= 0 {
            Seq::empty()
        } else if self.products.contains_key(top) {
            self.products_up_to(top - 1).push(self.products[top])
        } else {
            self.products_up_to(top - 1)
        }
    }

    /// The sales with identifiers up to `top`, by rising identifier.
    pub open spec fn sales_up_to(self, top: int) -> Seq<SaleView>
        decreases top,
    {
        if top <= 0 {
            Seq::empty()
        } else if self.sales.contains_key(top) {
            self.sales_up_to(top - 1).push(self.sales[top])
        } else {
            self.sales_up_to(top - 1)
        }
    }

    proof fn products_up_to_rise(self, top: int)
        requires
            self.wf(),
        ensures
            forall|i: int|
                0 <= i < self.products_up_to(top).len() ==> {
                    let row = #[trigger] self.products_up_to(top)[i];
                    self.products.contains_key(row.id) && self.products[row.id] == row && row.id
                        <= top
                },
            forall|i: int, j: int|
                0 <= i < j < self.products_up_to(top).len() ==> (#[trigger] self.products_up_to(
                    top,
                )[i]).id < (#[trigger] self.products_up_to(top)[j]).id,
            forall|id: int|
                #![trigger self.products.contains_key(id)]
                self.products.contains_key(id) && id <= top ==> exists|i: int|
                    0 <= i < self.products_up_to(top).len() && (#[trigger] self.products_up_to(
                        top,
                    )[i]).id == id,
        decreases top,
    {
        if top > 0 {
            self.products_up_to_rise(top - 1);
            let below = self.products_up_to(top - 1);
            let rows = self.products_up_to(top);
            assert forall|id: int|
                #![trigger self.products.contains_key(id)]
                self.products.contains_key(id) && id <= top implies exists|i: int|
                0 <= i < rows.len() && (#[trigger] rows[i]).id == id by {
                if id == top {
                    assert(rows[rows.len() - 1].id == id);
                } else {
                    let i = choose|i: int| 0 <= i < below.len() && (#[trigger] below[i]).id == id;
                    assert(rows[i].id == id);
                }
            }
        }
    }

    proof fn sales_up_to_rise(self, top: int)
        requires
            self.wf(),
        ensures
            forall|i: int|
                0 <= i < self.sales_up_to(top).len() ==> {
                    let row = #[trigger] self.sales_up_to(top)[i];
                    self.sales.contains_key(row.id) && self.sales[row.id] == row && row.id <= top
                },
            forall|i: int, j: int|
                0 <= i < j < self.sales_up_to(top).len() ==> (#[trigger] self.sales_up_to(
                    top,
                )[i]).id < (#[trigger] self.sales_up_to(top)[j]).id,
            forall|id: int|
                #![trigger self.sales.contains_key(id)]
                self.sales.contains_key(id) && id <= top ==> exists|i: int|
                    0 <= i < self.sales_up_to(top).len() && (#[trigger] self.sales_up_to(
                        top,
                    )[i]).id == id,
        decreases top,
    {
        if top > 0 {
            self.sales_up_to_rise(top - 1);
            let below = self.sales_up_to(top - 1);
            let rows = self.sales_up_to(top);
            assert forall|id: int|
                #![trigger self.sales.contains_key(id)]
                self.sales.contains_key(id) && id <= top implies exists|i: int|
                0 <= i < rows.len() && (#[trigger] rows[i]).id == id by {
                if id == top {
                    assert(rows[rows.len() - 1].id == id);
                } else {
                    let i = choose|i: int| 0 <= i < below.len() && (#[trigger] below[i]).id == id;
                    assert(rows[i].id == id);
                }
            }
        }
    }

    /// Tables that are well formed can be listed: the rows by rising identifier are a listing
    /// of each table. So what is proved of every listing is proved of something.
    pub proof fn tables_can_be_listed(self)
        requires
            self.wf(),
        ensures
            self.lists_products(self.products_up_to(self.last_product_id)),
            self.lists_sales(self.sales_up_to(self.last_sale_id)),
    {
        self.products_up_to_rise(self.last_product_id);
        self.sales_up_to_rise(self.last_sale_id);
        let products = self.products_up_to(self.last_product_id);
        assert forall|i: int| 0 <= i < products.len() implies self.products.contains_key(
            #[trigger] products[i].id,
        ) && self.products[products[i].id] == products[i] by {}
        let sales = self.sales_up_to(self.last_sale_id);
        assert forall|i: int| 0 <= i < sales.len() implies self.sales.contains_key(
            #[trigger] sales[i].id,
        ) && self.sales[sales[i].id] == sales[i] by {}
    }

    /// A store that has just been prepared holds no row, its tables are well formed, and the
    /// first product and the first sale each get the identifier 1.
    pub proof fn fresh_tables_are_empty()
        ensures
            Tables::empty().wf(),
            Tables::empty().next_product_id() == 1,
            Tables::empty().next_sale_id() == 1,
            forall|rows: Seq<ProductView>| #[trigger]
                Tables::empty().lists_products(rows) <==> rows.len() == 0,
            forall|rows: Seq<SaleView>| #[trigger]
                Tables::empty().lists_sales(rows) <==> rows.len() == 0,
    {
        assert forall|rows: Seq<ProductView>| #[trigger]
            Tables::empty().lists_products(rows) implies rows.len() == 0 by {
            if rows.len() > 0 {
                assert(Tables::empty().products.contains_key(rows[0].id));
            }
        }
        assert forall|rows: Seq<SaleView>| #[trigger]
            Tables::empty().lists_sales(rows) implies rows.len() == 0 by {
            if rows.len() > 0 {
                assert(Tables::empty().sales.contains_key(rows[0].id));
            }
        }
    }

    /// Preparing a store whose tables are there changes nothing in them.
    pub proof fn preparing_again_changes_nothing(self)
        ensures
            self.after(StatementView::CreateTables) == self,
    {
    }
}

} // verus!
