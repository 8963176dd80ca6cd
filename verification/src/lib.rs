//! Bookkeeping for a band: transactions and their supporting documents,
//! companies and tags, merchandise stock, the addresses of the bookkeeping
//! API, and the decisions of its storage layer and of its web forms.
//!
//! Amounts are held as the bit patterns of the single-precision numbers
//! that store them (see [`models::Amount`]); the sums of amounts are left to
//! the program that serves the API.
pub mod api;
pub mod forms;
pub mod inventory;
pub mod invoices;
pub mod models;
pub mod records;
pub mod store;
pub mod text;

pub use api::{
    contacts_url, paths, product_url, product_variants_url, products_url, summary_url, tags_url,
    transaction_url, transactions_url, variant_stock_url, ApiClient, DEFAULT_API_ADDR,
    DEFAULT_API_BASE,
};
pub use inventory::{
    validate_attributes_for_kind, variant_label, AdjustStock, LowStockAlert, LowStockFilter,
    MerchSale, MerchSaleResult, MovementType, NewProduct, NewProductVariant, Product,
    ProductDetail, ProductKind, ProductSummary, ProductVariant, StockMovement,
    StockMovementDetail, StockMovementFilter, VariantAttribute, VariantOption, ALBUM_FORMATS,
    DEFAULT_LOW_STOCK_THRESHOLD, SHIRT_SIZES,
};
pub use models::{
    parse_transaction_type, Amount, Contact, ContactFilter, ContactKind, DateFilter, NewContact,
    NewTag, NewTransaction, Tag, Transaction, TransactionType, TransactionTypeUi, UploadResponse,
    PREDEFINED_TAGS,
};
