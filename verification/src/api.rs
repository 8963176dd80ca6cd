//! Where the bookkeeping API answers: its paths and the URLs a client calls.
use vstd::prelude::*;
use crate::models::{ContactFilter, DateFilter};
use crate::text::{decimal, owned, query_string};

pub mod paths;

verus! {

/// Where the client looks for the API unless told otherwise.
pub const DEFAULT_API_BASE: &'static str = "http://127.0.0.1:3000";

/// Where the API server listens.
pub const DEFAULT_API_ADDR: &'static str = "127.0.0.1:3000";

/// The base, then the path.
fn join_url(base: &str, path: &str) -> (r: String)
    ensures
        r@ == base@ + path@,
{
    let mut url = owned(base);
    url.append(path);
    url
}

/// The transactions, restricted to the filter's dates.
pub fn transactions_url(base: &str, filter: &DateFilter) -> (r: String)
    ensures
        r@ == base@ + "/api/transactions"@ + query_string(filter.query_params()),
{
    let mut url = join_url(base, paths::TRANSACTIONS);
    let q = filter.to_query_string();
    url.append(q.as_str());
    url
}

/// The treasury summary over the filter's dates.
pub fn summary_url(base: &str, filter: &DateFilter) -> (r: String)
    ensures
        r@ == base@ + "/api/summary"@ + query_string(filter.query_params()),
{
    let mut url = join_url(base, paths::SUMMARY);
    let q = filter.to_query_string();
    url.append(q.as_str());
    url
}

/// One transaction.
pub fn transaction_url(base: &str, id: i64) -> (r: String)
    ensures
        r@ == base@ + "/api/transactions/"@ + decimal(id as int),
{
    let path = paths::transaction(id);
    join_url(base, path.as_str())
}

/// The companies, restricted to the filter's kind.
pub fn contacts_url(base: &str, filter: &ContactFilter) -> (r: String)
    ensures
        r@ == base@ + "/api/contacts"@ + filter.query_spec(),
{
    let mut url = join_url(base, paths::CONTACTS);
    let q = filter.to_query_string();
    url.append(q.as_str());
    url
}

/// The tags.
pub fn tags_url(base: &str) -> (r: String)
    ensures
        r@ == base@ + "/api/tags"@,
{
    join_url(base, paths::TAGS)
}

/// The products.
pub fn products_url(base: &str) -> (r: String)
    ensures
        r@ == base@ + "/api/products"@,
{
    join_url(base, paths::PRODUCTS)
}

/// One product.
pub fn product_url(base: &str, id: i64) -> (r: String)
    ensures
        r@ == base@ + "/api/products/"@ + decimal(id as int),
{
    let path = paths::product(id);
    join_url(base, path.as_str())
}

/// The variants of a product.
pub fn product_variants_url(base: &str, product_id: i64) -> (r: String)
    ensures
        r@ == base@ + "/api/products/"@ + decimal(product_id as int) + "/variants"@,
{
    let path = paths::product_variants(product_id);
    join_url(base, path.as_str())
}

/// The stock of a variant.
pub fn variant_stock_url(base: &str, variant_id: i64) -> (r: String)
    ensures
        r@ == base@ + "/api/variants/"@ + decimal(variant_id as int) + "/stock"@,
{
    let path = paths::variant_stock(variant_id);
    join_url(base, path.as_str())
}

/// A client of the API, bound to the address it calls.
pub struct ApiClient {
    base_url: String,
}

impl View for ApiClient {
    type V = Seq<char>;

    /// The address the client calls.
    closed spec fn view(&self) -> Seq<char> {
        self.base_url@
    }
}

impl ApiClient {
    /// A client of the API at `base_url`.
    pub fn new(base_url: &str) -> (r: ApiClient)
        ensures
            r@ == base_url@,
    {
        ApiClient { base_url: owned(base_url) }
    }

    /// A client of the API at its default address.
    pub fn default_client() -> (r: ApiClient)
        ensures
            r@ == DEFAULT_API_BASE@,
    {
        Self::new(DEFAULT_API_BASE)
    }

    /// The address the client calls.
    pub fn base_url(&self) -> (r: &str)
        ensures
            r@ == self@,
    {
        self.base_url.as_str()
    }

    /// The address of `path` on this client's API.
    pub fn endpoint(&self, path: &str) -> (r: String)
        ensures
            r@ == self@ + path@,
    {
        join_url(self.base_url.as_str(), path)
    }
}

} // verus!
