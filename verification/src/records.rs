//! The records of the shop, and what a client sends to create one.

use vstd::prelude::*;

verus! {

/// A price, carried as the bit pattern of a 64-bit IEEE 754 number.
///
/// The library never computes with a price. It hands it from the request to the store and from
/// the store to the reply, bit for bit.
#[derive(Clone, Copy, Debug, PartialEq, Eq)]
pub struct Price {
    pub bits: u64,
}

/// A product as the store holds it. The store assigns `id` when the product is created.
#[derive(Clone, Debug, PartialEq)]
pub struct Product {
    pub id: i32,
    pub name: String,
    pub price: Price,
    pub in_stock: bool,
}

/// A sale as the store holds it. `product_id` names the product that the sale is for.
#[derive(Clone, Debug, PartialEq)]
pub struct Sale {
    pub id: i32,
    pub product_id: i32,
    pub discount: i32,
    pub start_date: String,
    pub end_date: String,
}

/// What a client sends to create a product.
#[derive(Clone, Debug, PartialEq)]
pub struct AddProduct {
    pub name: String,
    pub price: Price,
    pub in_stock: bool,
}

/// What a client sends to create a sale.
#[derive(Clone, Debug, PartialEq)]
pub struct AddSale {
    pub product_id: i32,
    pub discount: i32,
    pub start_date: String,
    pub end_date: String,
}

/// A product as a mathematical value.
pub struct ProductView {
    pub id: int,
    pub name: Seq<char>,
    pub price: Price,
    pub in_stock: bool,
}

/// A sale as a mathematical value.
pub struct SaleView {
    pub id: int,
    pub product_id: int,
    pub discount: int,
    pub start_date: Seq<char>,
    pub end_date: Seq<char>,
}

/// A request to create a product, as a mathematical value.
pub struct AddProductView {
    pub name: Seq<char>,
    pub price: Price,
    pub in_stock: bool,
}

/// A request to create a sale, as a mathematical value.
pub struct AddSaleView {
    pub product_id: int,
    pub discount: int,
    pub start_date: Seq<char>,
    pub end_date: Seq<char>,
}

impl View for Product {
    type V = ProductView;

    open spec fn view(&self) -> ProductView {
        ProductView {
            id: self.id as int,
            name: self.name@,
            price: self.price,
            in_stock: self.in_stock,
        }
    }
}

impl View for Sale {
    type V = SaleView;

    open spec fn view(&self) -> SaleView {
        SaleView {
            id: self.id as int,
            product_id: self.product_id as int,
            discount: self.discount as int,
            start_date: self.start_date@,
            end_date: self.end_date@,
        }
    }
}

impl View for AddProduct {
    type V = AddProductView;

    open spec fn view(&self) -> AddProductView {
        AddProductView { name: self.name@, price: self.price, in_stock: self.in_stock }
    }
}

impl View for AddSale {
    type V = AddSaleView;

    open spec fn view(&self) -> AddSaleView {
        AddSaleView {
            product_id: self.product_id as int,
            discount: self.discount as int,
            start_date: self.start_date@,
            end_date: self.end_date@,
        }
    }
}

/// The rows of a product listing as mathematical values, in the order of the listing.
pub open spec fn product_views(rows: Seq<Product>) -> Seq<ProductView> {
    rows.map_values(|row: Product| row@)
}

/// The rows of a sale listing as mathematical values, in the order of the listing.
pub open spec fn sale_views(rows: Seq<Sale>) -> Seq<SaleView> {
    rows.map_values(|row: Sale| row@)
}

impl AddProductView {
    /// The product that this request makes once the store has given it `id`.
    pub open spec fn with_id(self, id: int) -> ProductView {
        ProductView { id, name: self.name, price: self.price, in_stock: self.in_stock }
    }
}

impl AddSaleView {
    /// The sale that this request makes once the store has given it `id`.
    pub open spec fn with_id(self, id: int) -> SaleView {
        SaleView {
            id,
            product_id: self.product_id,
            discount: self.discount,
            start_date: self.start_date,
            end_date: self.end_date,
        }
    }
}

} // verus!
