use shop_api::{
    add_product, add_product_statement, add_sale, add_sale_inserted, add_sale_lookup,
    delete_product, delete_product_statement, delete_sale, delete_sale_statement, get_products,
    get_products_statement, get_sales, get_sales_statement, init_db, AddProduct, AddSale, Body,
    Param, Price, Product, Response, Sale, Statement, Status, Step, StoreError,
};

fn price(value: f64) -> Price {
    Price { bits: value.to_bits() }
}

fn widget() -> AddProduct {
    AddProduct { name: "Widget".to_string(), price: price(9.99), in_stock: true }
}

fn january_sale(product_id: i32) -> AddSale {
    AddSale {
        product_id,
        discount: 10,
        start_date: "2024-01-01".to_string(),
        end_date: "2024-01-31".to_string(),
    }
}

fn text(status: Status, line: &str) -> Response {
    Response { status, body: Body::Text(line.to_string()) }
}

#[test]
fn widget_is_added_and_then_listed() {
    let statement = add_product_statement(widget());
    assert_eq!(statement, Statement::InsertProduct(widget()));
    assert_eq!(statement.sql(), "INSERT INTO products (name, price, in_stock) VALUES (?, ?, ?)");
    assert_eq!(
        statement.params(),
        vec![Param::Text("Widget".to_string()), Param::Real(price(9.99)), Param::Boolean(true)]
    );

    let added = add_product(Ok(1));
    assert_eq!(added.status.code(), 200);
    assert_eq!(added.body, Body::Text("Product added successfully".to_string()));

    assert_eq!(get_products_statement(), Statement::SelectProducts);
    let stored =
        Product { id: 1, name: "Widget".to_string(), price: price(9.99), in_stock: true };
    let listed = get_products(Ok(vec![stored.clone()]));
    assert_eq!(listed.status.code(), 200);
    match listed.body {
        Body::Products(rows) => {
            assert!(rows.contains(&stored));
            assert_eq!(rows[0].id, 1);
            assert_eq!(rows[0].name, "Widget");
            assert_eq!(f64::from_bits(rows[0].price.bits), 9.99);
            assert!(rows[0].in_stock);
        }
        other => panic!("a listing of products was expected, not {:?}", other),
    }
}

#[test]
fn sale_for_product_999_is_refused() {
    let payload = january_sale(999);
    let lookup = add_sale_lookup(&payload);
    assert_eq!(lookup, Statement::SelectProductId(999));
    assert_eq!(lookup.sql(), "SELECT id FROM products WHERE id = ?");
    assert_eq!(lookup.params(), vec![Param::Integer(999)]);

    let step = add_sale(payload, Ok(false));
    match step {
        Step::Reply(reply) => {
            assert_eq!(reply.status, Status::ClientError);
            assert_eq!(reply.status.code(), 400);
            assert_eq!(reply.body, Body::Text("Product does not exist".to_string()));
        }
        Step::Run(statement) => panic!("no statement was expected, but {:?}", statement),
    }
}

#[test]
fn sale_for_missing_product_asks_nothing_more_of_the_store() {
    for product_id in [i32::MIN, -1, 0, 1, 42, i32::MAX] {
        let step = add_sale(january_sale(product_id), Ok(false));
        assert_eq!(step, Step::Reply(text(Status::ClientError, "Product does not exist")));
    }
}

#[test]
fn sale_for_present_product_is_inserted_as_sent() {
    let step = add_sale(january_sale(7), Ok(true));
    assert_eq!(step, Step::Run(Statement::InsertSale(january_sale(7))));
    match step {
        Step::Run(statement) => {
            assert_eq!(
                statement.sql(),
                "INSERT INTO sales (product_id, discount, start_date, end_date) VALUES (?, ?, ?, ?)"
            );
            assert_eq!(
                statement.params(),
                vec![
                    Param::Integer(7),
                    Param::Integer(10),
                    Param::Text("2024-01-01".to_string()),
                    Param::Text("2024-01-31".to_string()),
                ]
            );
        }
        Step::Reply(reply) => panic!("the insert was expected, not {:?}", reply),
    }
    assert_eq!(add_sale_inserted(Ok(1)), text(Status::Success, "Sale added successfully"));
}

#[test]
fn added_sale_is_listed() {
    assert_eq!(get_sales_statement(), Statement::SelectSales);
    let stored = Sale {
        id: 3,
        product_id: 7,
        discount: 10,
        start_date: "2024-01-01".to_string(),
        end_date: "2024-01-31".to_string(),
    };
    let other = Sale {
        id: 1,
        product_id: 2,
        discount: -5,
        start_date: String::new(),
        end_date: "tomorrow".to_string(),
    };
    let listed = get_sales(Ok(vec![other.clone(), stored.clone()]));
    assert_eq!(listed.status.code(), 200);
    assert_eq!(listed.body, Body::Sales(vec![other, stored]));
}

#[test]
fn sale_whose_lookup_fails_is_a_server_error() {
    let step = add_sale(january_sale(7), Err(StoreError));
    assert_eq!(
        step,
        Step::Reply(text(Status::ServerError, "Error checking product existence"))
    );
}

#[test]
fn sale_whose_insert_fails_is_a_server_error() {
    let reply = add_sale_inserted(Err(StoreError));
    assert_eq!(reply.status.code(), 500);
    assert_eq!(reply, text(Status::ServerError, "Error adding sale"));
}

#[test]
fn product_whose_insert_fails_is_a_bare_server_error() {
    let reply = add_product(Err(StoreError));
    assert_eq!(reply, Response { status: Status::ServerError, body: Body::Empty });
    assert_eq!(reply.status.code(), 500);
}

#[test]
fn added_product_reply_does_not_depend_on_the_row_count() {
    for rows in [0, 1, 2, u64::MAX] {
        assert_eq!(add_product(Ok(rows)), text(Status::Success, "Product added successfully"));
        assert_eq!(add_sale_inserted(Ok(rows)), text(Status::Success, "Sale added successfully"));
    }
}

#[test]
fn deleting_a_missing_product_is_a_success() {
    let statement = delete_product_statement(12345);
    assert_eq!(statement, Statement::DeleteProduct(12345));
    assert_eq!(statement.sql(), "DELETE FROM products WHERE id = ?");
    assert_eq!(statement.params(), vec![Param::Integer(12345)]);

    let nothing_removed = delete_product(Ok(0));
    assert_eq!(nothing_removed.status.code(), 200);
    assert_eq!(nothing_removed, text(Status::Success, "Product deleted successfully"));
    assert_eq!(delete_product(Ok(1)), nothing_removed);
    assert_eq!(delete_product(Ok(0)), nothing_removed);
}

#[test]
fn deleting_a_missing_sale_is_a_success() {
    let statement = delete_sale_statement(-3);
    assert_eq!(statement, Statement::DeleteSale(-3));
    assert_eq!(statement.sql(), "DELETE FROM sales WHERE id = ?");
    assert_eq!(statement.params(), vec![Param::Integer(-3)]);

    let nothing_removed = delete_sale(Ok(0));
    assert_eq!(nothing_removed, text(Status::Success, "Sale deleted successfully"));
    assert_eq!(delete_sale(Ok(1)), nothing_removed);
}

#[test]
fn failed_deletes_are_bare_server_errors() {
    let bare = Response { status: Status::ServerError, body: Body::Empty };
    assert_eq!(delete_product(Err(StoreError)), bare);
    assert_eq!(delete_sale(Err(StoreError)), bare);
}

#[test]
fn failed_listings_are_bare_server_errors() {
    let bare = Response { status: Status::ServerError, body: Body::Empty };
    assert_eq!(get_products(Err(StoreError)), bare);
    assert_eq!(get_sales(Err(StoreError)), bare);
}

#[test]
fn empty_listings_are_successes() {
    assert_eq!(
        get_products(Ok(Vec::new())),
        Response { status: Status::Success, body: Body::Products(Vec::new()) }
    );
    assert_eq!(
        get_sales(Ok(Vec::new())),
        Response { status: Status::Success, body: Body::Sales(Vec::new()) }
    );
}

#[test]
fn listing_keeps_the_order_of_the_store() {
    let rows: Vec<Product> = [5, 2, 9, 1]
        .iter()
        .map(|id| Product {
            id: *id,
            name: format!("product {}", id),
            price: price(f64::from(*id) / 3.0),
            in_stock: id % 2 == 0,
        })
        .collect();
    assert_eq!(get_products(Ok(rows.clone())).body, Body::Products(rows));
}

#[test]
fn product_fields_are_not_normalized() {
    let negative_zero = price(-0.0);
    let not_a_number = Price { bits: 0x7ff8_0000_0000_1234 };
    let tiny = price(0.1 + 0.2);
    for (name, sent) in [
        ("  padded  ", negative_zero),
        ("", not_a_number),
        ("Caf\u{e9} \u{1F600}\n\ttabbed", tiny),
        ("UPPER lower", price(-12.5)),
    ] {
        let payload = AddProduct { name: name.to_string(), price: sent, in_stock: false };
        let statement = add_product_statement(payload);
        assert_eq!(
            statement.params(),
            vec![Param::Text(name.to_string()), Param::Real(sent), Param::Boolean(false)]
        );
        let stored = Product { id: 4, name: name.to_string(), price: sent, in_stock: false };
        match get_products(Ok(vec![stored])).body {
            Body::Products(rows) => {
                assert_eq!(rows.len(), 1);
                assert_eq!(rows[0].name, name);
                assert_eq!(rows[0].price.bits, sent.bits);
                assert!(!rows[0].in_stock);
            }
            other => panic!("a listing of products was expected, not {:?}", other),
        }
    }
    assert_ne!(price(-0.0), price(0.0));
}

#[test]
fn sale_fields_are_not_normalized() {
    let payload = AddSale {
        product_id: 1,
        discount: -250,
        start_date: " 2024-13-45 ".to_string(),
        end_date: "not a date".to_string(),
    };
    let step = add_sale(payload.clone(), Ok(true));
    match step {
        Step::Run(statement) => assert_eq!(
            statement.params(),
            vec![
                Param::Integer(1),
                Param::Integer(-250),
                Param::Text(" 2024-13-45 ".to_string()),
                Param::Text("not a date".to_string()),
            ]
        ),
        Step::Reply(reply) => panic!("the insert was expected, not {:?}", reply),
    }
    let stored = Sale {
        id: 8,
        product_id: 1,
        discount: -250,
        start_date: " 2024-13-45 ".to_string(),
        end_date: "not a date".to_string(),
    };
    assert_eq!(get_sales(Ok(vec![stored.clone()])).body, Body::Sales(vec![stored]));
}

#[test]
fn startup_statement_makes_both_tables() {
    let statement = init_db();
    assert_eq!(statement, Statement::CreateTables);
    assert!(statement.params().is_empty());
    let sql = statement.sql();
    assert!(sql.contains("CREATE TABLE IF NOT EXISTS products ("));
    assert!(sql.contains("CREATE TABLE IF NOT EXISTS sales ("));
    assert!(sql.contains("id INTEGER PRIMARY KEY AUTOINCREMENT"));
    assert!(sql.contains("name TEXT NOT NULL"));
    assert!(sql.contains("price REAL NOT NULL"));
    assert!(sql.contains("in_stock BOOLEAN NOT NULL"));
    assert!(sql.contains("FOREIGN KEY(product_id) REFERENCES products(id)"));
    assert_eq!(sql.matches("CREATE TABLE").count(), 2);
}

#[test]
fn listing_statements_read_whole_tables() {
    assert_eq!(get_products_statement().sql(), "SELECT * FROM products");
    assert_eq!(get_sales_statement().sql(), "SELECT * FROM sales");
    assert!(get_products_statement().params().is_empty());
    assert!(get_sales_statement().params().is_empty());
}

#[test]
fn every_statement_binds_one_value_per_placeholder() {
    let statements = vec![
        init_db(),
        get_products_statement(),
        get_sales_statement(),
        add_product_statement(widget()),
        add_sale_lookup(&january_sale(1)),
        Statement::InsertSale(january_sale(1)),
        delete_product_statement(1),
        delete_sale_statement(1),
    ];
    for statement in statements {
        let placeholders = statement.sql().matches('?').count();
        assert_eq!(placeholders, statement.params().len(), "{:?}", statement);
    }
}

#[test]
fn status_codes() {
    assert_eq!(Status::Success.code(), 200);
    assert_eq!(Status::ClientError.code(), 400);
    assert_eq!(Status::ServerError.code(), 500);
}

#[test]
fn replies_are_built_as_asked() {
    assert_eq!(
        Response::text(Status::ClientError, "no"),
        Response { status: Status::ClientError, body: Body::Text("no".to_string()) }
    );
    assert_eq!(
        Response::empty(Status::Success),
        Response { status: Status::Success, body: Body::Empty }
    );
}
