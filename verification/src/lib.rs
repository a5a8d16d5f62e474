//! The rules of a small shop backend: products and the sales that refer to them.
//!
//! The backend keeps its records in a relational store and answers six kinds of request. What
//! talks to the store and to the network lives outside this library. Here stands what is decided:
//! which statement a request sends to the store, and which reply follows from what the store
//! answered. Each handler is cut at the point where it waits for the store: a function that
//! gives the statement, and a function that takes the store's answer and gives the reply.
//!
//! [`store::Tables`] says what the statements mean, as far as the handlers count on it, and
//! [`guarantees`] proves from it what a client can rely on from one request to the next.

pub mod guarantees;
pub mod handlers;
pub mod records;
pub mod response;
pub mod statement;
pub mod store;

pub use handlers::{
    add_product, add_product_statement, add_sale, add_sale_inserted, add_sale_lookup,
    delete_product, delete_product_statement, delete_sale, delete_sale_statement, get_products,
    get_products_statement, get_sales, get_sales_statement, init_db, Step, StoreError,
};
pub use records::{AddProduct, AddSale, Price, Product, Sale};
pub use response::{Body, Response, Status};
pub use statement::{Param, Statement};
