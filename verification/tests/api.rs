use bandcompta::{
    contacts_url, paths, product_url, product_variants_url, products_url, summary_url, tags_url,
    transaction_url, transactions_url, variant_stock_url, ApiClient, ContactFilter, ContactKind,
    DateFilter, DEFAULT_API_ADDR, DEFAULT_API_BASE,
};

const BASE: &str = "http://localhost:3000";

#[test]
fn path_builders() {
    assert_eq!(paths::transaction(42), "/api/transactions/42");
    assert_eq!(paths::product(-1), "/api/products/-1");
    assert_eq!(paths::product_variants(7), "/api/products/7/variants");
    assert_eq!(paths::variant_stock(0), "/api/variants/0/stock");
    assert_eq!(paths::transaction(i64::MAX), "/api/transactions/9223372036854775807");
}

#[test]
fn path_constants() {
    assert_eq!(paths::TRANSACTIONS, "/api/transactions");
    assert_eq!(paths::TRANSACTIONS_BY_ID, "/api/transactions/{id}");
    assert_eq!(paths::SUMMARY, "/api/summary");
    assert_eq!(paths::INVOICES_UPLOAD, "/api/invoices/upload");
    assert_eq!(paths::CONTACTS, "/api/contacts");
    assert_eq!(paths::CONTACTS_BY_ID, "/api/contacts/{id}");
    assert_eq!(paths::TAGS, "/api/tags");
    assert_eq!(paths::PRODUCTS, "/api/products");
    assert_eq!(paths::PRODUCTS_BY_ID, "/api/products/{id}");
    assert_eq!(paths::PRODUCT_VARIANTS, "/api/products/{id}/variants");
    assert_eq!(paths::VARIANT_STOCK, "/api/variants/{id}/stock");
    assert_eq!(DEFAULT_API_BASE, "http://127.0.0.1:3000");
    assert_eq!(DEFAULT_API_ADDR, "127.0.0.1:3000");
}

#[test]
fn url_builders() {
    let filter = DateFilter { from: Some("2025-01-01".into()), to: None };
    assert_eq!(transactions_url(BASE, &filter), "http://localhost:3000/api/transactions?from=2025-01-01");
    assert_eq!(transactions_url(BASE, &DateFilter::default()), "http://localhost:3000/api/transactions");
    let both = DateFilter { from: Some("2025-01-01".into()), to: Some("2025-01-31".into()) };
    assert_eq!(summary_url(BASE, &both), "http://localhost:3000/api/summary?from=2025-01-01&to=2025-01-31");
    assert_eq!(transaction_url(BASE, 5), "http://localhost:3000/api/transactions/5");
    assert_eq!(
        contacts_url(BASE, &ContactFilter { kind: Some(ContactKind::Client) }),
        "http://localhost:3000/api/contacts?kind=CLIENT"
    );
    assert_eq!(tags_url(BASE), "http://localhost:3000/api/tags");
    assert_eq!(products_url(BASE), "http://localhost:3000/api/products");
    assert_eq!(product_url(BASE, 9), "http://localhost:3000/api/products/9");
    assert_eq!(product_variants_url(BASE, 9), "http://localhost:3000/api/products/9/variants");
    assert_eq!(variant_stock_url(BASE, 31), "http://localhost:3000/api/variants/31/stock");
    assert_eq!(tags_url(""), "/api/tags");
}

#[test]
fn api_client_addresses() {
    let client = ApiClient::new(BASE);
    assert_eq!(client.base_url(), BASE);
    assert_eq!(client.endpoint(paths::TRANSACTIONS), "http://localhost:3000/api/transactions");
    assert_eq!(ApiClient::default_client().base_url(), "http://127.0.0.1:3000");
}
