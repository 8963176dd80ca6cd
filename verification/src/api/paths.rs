//! The paths the API answers on.
use vstd::prelude::*;
use crate::text::{decimal, owned, push_decimal};

verus! {

pub const TRANSACTIONS: &'static str = "/api/transactions";

pub const TRANSACTIONS_BY_ID: &'static str = "/api/transactions/{id}";

pub const SUMMARY: &'static str = "/api/summary";

pub const INVOICES_UPLOAD: &'static str = "/api/invoices/upload";

pub const CONTACTS: &'static str = "/api/contacts";

pub const CONTACTS_BY_ID: &'static str = "/api/contacts/{id}";

pub const TAGS: &'static str = "/api/tags";

pub const PRODUCTS: &'static str = "/api/products";

pub const PRODUCTS_BY_ID: &'static str = "/api/products/{id}";

pub const PRODUCT_VARIANTS: &'static str = "/api/products/{id}/variants";

pub const VARIANT_STOCK: &'static str = "/api/variants/{id}/stock";

/// The path of one transaction.
pub fn transaction(id: i64) -> (r: String)
    ensures
        r@ == "/api/transactions/"@ + decimal(id as int),
{
    let mut p = owned("/api/transactions/");
    push_decimal(&mut p, id);
    p
}

/// The path of one product.
pub fn product(id: i64) -> (r: String)
    ensures
        r@ == "/api/products/"@ + decimal(id as int),
{
    let mut p = owned("/api/products/");
    push_decimal(&mut p, id);
    p
}

/// The path of the variants of a product.
pub fn product_variants(id: i64) -> (r: String)
    ensures
        r@ == "/api/products/"@ + decimal(id as int) + "/variants"@,
{
    let mut p = owned("/api/products/");
    push_decimal(&mut p, id);
    p.append("/variants");
    p
}

/// The path of the stock of a variant.
pub fn variant_stock(id: i64) -> (r: String)
    ensures
        r@ == "/api/variants/"@ + decimal(id as int) + "/stock"@,
{
    let mut p = owned("/api/variants/");
    push_decimal(&mut p, id);
    p.append("/stock");
    p
}

} // verus!
