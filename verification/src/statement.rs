//! What the handlers ask of the store: a statement is a text with placeholders and the values
//! that go in their places.

use crate::records::{AddProduct, AddProductView, AddSale, AddSaleView, Price};
use vstd::prelude::*;

verus! {

/// A value that takes the place of a `?` in a statement's text.
#[derive(Clone, Debug, PartialEq)]
pub enum Param {
    Integer(i32),
    Real(Price),
    Boolean(bool),
    Text(String),
}

/// A bound value as a mathematical value.
pub enum ParamView {
    Integer(int),
    Real(Price),
    Boolean(bool),
    Text(Seq<char>),
}

impl View for Param {
    type V = ParamView;

    open spec fn view(&self) -> ParamView {
        match self {
            Param::Integer(value) => ParamView::Integer(*value as int),
            Param::Real(value) => ParamView::Real(*value),
            Param::Boolean(value) => ParamView::Boolean(*value),
            Param::Text(value) => ParamView::Text(value@),
        }
    }
}

/// The bound values of a statement as mathematical values, in binding order.
pub open spec fn param_views(params: Seq<Param>) -> Seq<ParamView> {
    params.map_values(|param: Param| param@)
}

/// A statement for the store.
#[derive(Clone, Debug, PartialEq)]
pub enum Statement {
    /// Make the two tables unless they are there already.
    CreateTables,
    /// Read every product.
    SelectProducts,
    /// Read every sale.
    SelectSales,
    /// Add a product; the store gives it its identifier.
    InsertProduct(AddProduct),
    /// Read the identifier of the product with this identifier, if there is one.
    SelectProductId(i32),
    /// Add a sale; the store gives it its identifier.
    InsertSale(AddSale),
    /// Remove the product with this identifier.
    DeleteProduct(i32),
    /// Remove the sale with this identifier.
    DeleteSale(i32),
}

/// A statement as a mathematical value.
pub enum StatementView {
    CreateTables,
    SelectProducts,
    SelectSales,
    InsertProduct(AddProductView),
    SelectProductId(int),
    InsertSale(AddSaleView),
    DeleteProduct(int),
    DeleteSale(int),
}

impl View for Statement {
    type V = StatementView;

    open spec fn view(&self) -> StatementView {
        match self {
            Statement::CreateTables => StatementView::CreateTables,
            Statement::SelectProducts => StatementView::SelectProducts,
            Statement::SelectSales => StatementView::SelectSales,
            Statement::InsertProduct(payload) => StatementView::InsertProduct(payload@),
            Statement::SelectProductId(id) => StatementView::SelectProductId(*id as int),
            Statement::InsertSale(payload) => StatementView::InsertSale(payload@),
            Statement::DeleteProduct(id) => StatementView::DeleteProduct(*id as int),
            Statement::DeleteSale(id) => StatementView::DeleteSale(*id as int),
        }
    }
}

/// The text that makes the two tables, each unless it is there already. A sale's `product_id`
/// is declared as a reference to a product's `id`.
pub const CREATE_TABLES: &'static str =
    "CREATE TABLE IF NOT EXISTS products (\
        id INTEGER PRIMARY KEY AUTOINCREMENT, \
        name TEXT NOT NULL, \
        price REAL NOT NULL, \
        in_stock BOOLEAN NOT NULL\
    ); \
    CREATE TABLE IF NOT EXISTS sales (\
        id INTEGER PRIMARY KEY AUTOINCREMENT, \
        product_id INTEGER, \
        discount INTEGER, \
        start_date TEXT, \
        end_date TEXT, \
        FOREIGN KEY(product_id) REFERENCES products(id)\
    );";

/// The text that reads every product.
pub const SELECT_PRODUCTS: &'static str = "SELECT * FROM products";

/// The text that reads every sale.
pub const SELECT_SALES: &'static str = "SELECT * FROM sales";

/// The text that adds a product.
pub const INSERT_PRODUCT: &'static str =
    "INSERT INTO products (name, price, in_stock) VALUES (?, ?, ?)";

/// The text that looks a product up by its identifier.
pub const SELECT_PRODUCT_ID: &'static str = "SELECT id FROM products WHERE id = ?";

/// The text that adds a sale.
pub const INSERT_SALE: &'static str =
    "INSERT INTO sales (product_id, discount, start_date, end_date) VALUES (?, ?, ?, ?)";

/// The text that removes a product.
pub const DELETE_PRODUCT: &'static str = "DELETE FROM products WHERE id = ?";

/// The text that removes a sale.
pub const DELETE_SALE: &'static str = "DELETE FROM sales WHERE id = ?";

impl StatementView {
    /// The text of the statement, with a `?` where a value is bound.
    pub open spec fn sql(self) -> Seq<char> {
        match self {
            StatementView::CreateTables => CREATE_TABLES@,
            StatementView::SelectProducts => SELECT_PRODUCTS@,
            StatementView::SelectSales => SELECT_SALES@,
            StatementView::InsertProduct(_) => INSERT_PRODUCT@,
            StatementView::SelectProductId(_) => SELECT_PRODUCT_ID@,
            StatementView::InsertSale(_) => INSERT_SALE@,
            StatementView::DeleteProduct(_) => DELETE_PRODUCT@,
            StatementView::DeleteSale(_) => DELETE_SALE@,
        }
    }

    /// The values that the statement binds, in the order of its placeholders.
    pub open spec fn params(self) -> Seq<ParamView> {
        match self {
            StatementView::CreateTables => seq![],
            StatementView::SelectProducts => seq![],
            StatementView::SelectSales => seq![],
            StatementView::InsertProduct(payload) => seq![
                ParamView::Text(payload.name),
                ParamView::Real(payload.price),
                ParamView::Boolean(payload.in_stock),
            ],
            StatementView::SelectProductId(id) => seq![ParamView::Integer(id)],
            StatementView::InsertSale(payload) => seq![
                ParamView::Integer(payload.product_id),
                ParamView::Integer(payload.discount),
                ParamView::Text(payload.start_date),
                ParamView::Text(payload.end_date),
            ],
            StatementView::DeleteProduct(id) => seq![ParamView::Integer(id)],
            StatementView::DeleteSale(id) => seq![ParamView::Integer(id)],
        }
    }
}

/// The number of placeholders among the first `end` characters of `text`.
pub open spec fn placeholders_before(text: Seq<char>, end: int) -> nat
    decreases end,
{
    if end <= 0 {
        0
    } else {
        placeholders_before(text, end - 1) + if text[end - 1] == '?' {
            1nat
        } else {
            0nat
        }
    }
}

/// The number of placeholders in `text`.
pub open spec fn placeholders(text: Seq<char>) -> nat {
    placeholders_before(text, text.len() as int)
}

/// Every statement binds exactly as many values as its text has placeholders, so the store is
/// never handed a text with a place left open or a value left over.
pub proof fn every_placeholder_is_bound(statement: StatementView)
    ensures
        placeholders(statement.sql()) == statement.params().len(),
{
    match statement {
        StatementView::CreateTables => {
            reveal_strlit(
                "CREATE TABLE IF NOT EXISTS products (\
                    id INTEGER PRIMARY KEY AUTOINCREMENT, \
                    name TEXT NOT NULL, \
                    price REAL NOT NULL, \
                    in_stock BOOLEAN NOT NULL\
                ); \
                CREATE TABLE IF NOT EXISTS sales (\
                    id INTEGER PRIMARY KEY AUTOINCREMENT, \
                    product_id INTEGER, \
                    discount INTEGER, \
                    start_date TEXT, \
                    end_date TEXT, \
                    FOREIGN KEY(product_id) REFERENCES products(id)\
                );",
            );
            let text = CREATE_TABLES@;
            assert(text.len() == 335);
            assert(placeholders_before(text, 80) == 0) by {
                reveal_with_fuel(placeholders_before, 81);
            }
            assert(placeholders_before(text, 160) == 0) by {
                reveal_with_fuel(placeholders_before, 81);
            }
            assert(placeholders_before(text, 240) == 0) by {
                reveal_with_fuel(placeholders_before, 81);
            }
            assert(placeholders_before(text, 320) == 0) by {
                reveal_with_fuel(placeholders_before, 81);
            }
            assert(placeholders_before(text, 335) == 0) by {
                reveal_with_fuel(placeholders_before, 16);
            }
        },
        StatementView::SelectProducts => {
            reveal_strlit("SELECT * FROM products");
            reveal_with_fuel(placeholders_before, 23);
        },
        StatementView::SelectSales => {
            reveal_strlit("SELECT * FROM sales");
            reveal_with_fuel(placeholders_before, 20);
        },
        StatementView::InsertProduct(_) => {
            reveal_strlit("INSERT INTO products (name, price, in_stock) VALUES (?, ?, ?)");
            reveal_with_fuel(placeholders_before, 62);
        },
        StatementView::SelectProductId(_) => {
            reveal_strlit("SELECT id FROM products WHERE id = ?");
            reveal_with_fuel(placeholders_before, 37);
        },
        StatementView::InsertSale(_) => {
            reveal_strlit(
                "INSERT INTO sales (product_id, discount, start_date, end_date) VALUES (?, ?, ?, ?)",
            );
            reveal_with_fuel(placeholders_before, 83);
        },
        StatementView::DeleteProduct(_) => {
            reveal_strlit("DELETE FROM products WHERE id = ?");
            reveal_with_fuel(placeholders_before, 34);
        },
        StatementView::DeleteSale(_) => {
            reveal_strlit("DELETE FROM sales WHERE id = ?");
            reveal_with_fuel(placeholders_before, 31);
        },
    }
}

impl Statement {
    /// The text of the statement, with a `?` where a value is bound.
    pub fn sql(&self) -> (text: &'static str)
        ensures
            text@ == self@.sql(),
    {
        match self {
            Statement::CreateTables => CREATE_TABLES,
            Statement::SelectProducts => SELECT_PRODUCTS,
            Statement::SelectSales => SELECT_SALES,
            Statement::InsertProduct(_) => INSERT_PRODUCT,
            Statement::SelectProductId(_) => SELECT_PRODUCT_ID,
            Statement::InsertSale(_) => INSERT_SALE,
            Statement::DeleteProduct(_) => DELETE_PRODUCT,
            Statement::DeleteSale(_) => DELETE_SALE,
        }
    }

    /// The values that the statement binds, in the order of its placeholders. Every value is
    /// the one that the request held: nothing is trimmed, rounded or brought to another form.
    pub fn params(&self) -> (params: Vec<Param>)
        ensures
            param_views(params@) == self@.params(),
    {
        let mut params: Vec<Param> = Vec::new();
        match self {
            Statement::CreateTables => {},
            Statement::SelectProducts => {},
            Statement::SelectSales => {},
            Statement::InsertProduct(payload) => {
                params.push(Param::Text(payload.name.clone()));
                params.push(Param::Real(payload.price));
                params.push(Param::Boolean(payload.in_stock));
            },
            Statement::SelectProductId(id) => {
                params.push(Param::Integer(*id));
            },
            Statement::InsertSale(payload) => {
                params.push(Param::Integer(payload.product_id));
                params.push(Param::Integer(payload.discount));
                params.push(Param::Text(payload.start_date.clone()));
                params.push(Param::Text(payload.end_date.clone()));
            },
            Statement::DeleteProduct(id) => {
                params.push(Param::Integer(*id));
            },
            Statement::DeleteSale(id) => {
                params.push(Param::Integer(*id));
            },
        }
        assert(param_views(params@) =~= self@.params());
        params
    }
}

} // verus!
