//! Decisions of the storage layer: the queries it runs, how it reads kinds
//! and attributes back from their stored form, how it changes a stock, and
//! where uploaded documents go.
use vstd::prelude::*;
use crate::inventory::{AdjustStock, ProductKind, ProductVariant, VariantOption};
use crate::models::{ContactFilter, ContactKind, DateFilter};
use crate::text::{owned, parse_i32, parse_i32_spec, str_eq};

verus! {

/// A query and the values bound to its `?` placeholders, in order.
#[derive(Debug, Clone, PartialEq)]
pub struct SqlQuery {
    pub sql: String,
    pub params: Vec<String>,
}

/// The start of the query that lists transactions.
pub const TRANSACTIONS_SELECT: &'static str = "SELECT id, name, company, transaction_type, executed, date, price_full_tax, tag, tax_amount, invoice_path\n         FROM transactions\n         WHERE 1=1";

/// The query that lists the transactions in a date range, the latest first.
pub open spec fn transactions_sql(filter: DateFilter) -> Seq<char> {
    TRANSACTIONS_SELECT@ + (if filter.from_bound() is Some {
        " AND date >= ?"@
    } else {
        Seq::empty()
    }) + (if filter.to_bound() is Some {
        " AND date <= ?"@
    } else {
        Seq::empty()
    }) + " ORDER BY date DESC, id DESC"@
}

/// The values bound to the query: the bounds that are set, lower first.
pub open spec fn transactions_params(filter: DateFilter) -> Seq<Seq<char>> {
    (if filter.from_bound() is Some {
        seq![filter.from_bound()->0]
    } else {
        Seq::empty()
    }) + (if filter.to_bound() is Some {
        seq![filter.to_bound()->0]
    } else {
        Seq::empty()
    })
}

/// Builds the query that lists the transactions the filter lets through.
pub fn transactions_query(filter: &DateFilter) -> (r: SqlQuery)
    ensures
        r.sql@ == transactions_sql(*filter),
        crate::text::views(r.params@) == transactions_params(*filter),
{
    let mut sql = owned(TRANSACTIONS_SELECT);
    let mut params: Vec<String> = Vec::new();
    if let Some(from) = &filter.from {
        if !from.as_str().is_empty() {
            sql.append(" AND date >= ?");
            params.push(from.clone());
        }
    }
    if let Some(to) = &filter.to {
        if !to.as_str().is_empty() {
            sql.append(" AND date <= ?");
            params.push(to.clone());
        }
    }
    sql.append(" ORDER BY date DESC, id DESC");
    assert(sql@ =~= transactions_sql(*filter));
    assert(crate::text::views(params@) =~= transactions_params(*filter));
    SqlQuery { sql, params }
}

/// What the transaction query keeps of each bound: a lower bound that is
/// set and not empty adds ` AND date >= ?` right after the select and is
/// bound first, whether or not an upper bound is set; an upper bound that
/// is set and not empty adds ` AND date <= ?` just before the ordering and
/// is bound last; one value is bound per bound given, and with no bound the
/// query is the select and the ordering alone.
pub proof fn lemma_transactions_query_bounds(filter: DateFilter)
    ensures
        transactions_params(filter).len() == (if filter.from is Some && filter.from->0@.len() > 0 {
            1int
        } else {
            0int
        }) + (if filter.to is Some && filter.to->0@.len() > 0 {
            1int
        } else {
            0int
        }),
        filter.from is Some && filter.from->0@.len() > 0 ==> {
            &&& transactions_params(filter)[0] == filter.from->0@
            &&& transactions_sql(filter).subrange(
                TRANSACTIONS_SELECT@.len() as int,
                (TRANSACTIONS_SELECT@.len() + " AND date >= ?"@.len()) as int,
            ) == " AND date >= ?"@
        },
        filter.to is Some && filter.to->0@.len() > 0 ==> {
            &&& transactions_params(filter).last() == filter.to->0@
            &&& transactions_sql(filter).subrange(
                transactions_sql(filter).len() - " ORDER BY date DESC, id DESC"@.len()
                    - " AND date <= ?"@.len(),
                transactions_sql(filter).len() - " ORDER BY date DESC, id DESC"@.len(),
            ) == " AND date <= ?"@
        },
        (filter.from is None || filter.from->0@.len() == 0) && (filter.to is None
            || filter.to->0@.len() == 0) ==> transactions_sql(filter) == TRANSACTIONS_SELECT@
            + " ORDER BY date DESC, id DESC"@,
        transactions_sql(filter).take(TRANSACTIONS_SELECT@.len() as int) == TRANSACTIONS_SELECT@,
        transactions_sql(filter).skip(
            transactions_sql(filter).len() - " ORDER BY date DESC, id DESC"@.len(),
        ) == " ORDER BY date DESC, id DESC"@,
{
    let a = TRANSACTIONS_SELECT@;
    let b = if filter.from_bound() is Some {
        " AND date >= ?"@
    } else {
        Seq::empty()
    };
    let c = if filter.to_bound() is Some {
        " AND date <= ?"@
    } else {
        Seq::empty()
    };
    let d = " ORDER BY date DESC, id DESC"@;
    let q = transactions_sql(filter);
    assert(q == a + b + c + d);
    assert(q.subrange(a.len() as int, (a.len() + b.len()) as int) =~= b);
    assert(q.subrange(q.len() - d.len() - c.len(), q.len() - d.len()) =~= c);
    assert(a + Seq::<char>::empty() + Seq::<char>::empty() + d =~= a + d);
    assert(q.take(a.len() as int) =~= a);
    assert(q.skip(q.len() - d.len()) =~= d);
}

/// The query that lists the companies of the filter's kind by name; a
/// company of both kinds is listed for either.
pub open spec fn contacts_sql(filter: ContactFilter) -> Seq<char> {
    match filter.kind {
        Some(ContactKind::Client) => "SELECT id, name, kind, email, notes FROM contacts WHERE kind IN (0, 2) ORDER BY name ASC"@,
        Some(ContactKind::Provider) => "SELECT id, name, kind, email, notes FROM contacts WHERE kind IN (1, 2) ORDER BY name ASC"@,
        Some(ContactKind::Both) => "SELECT id, name, kind, email, notes FROM contacts WHERE kind = 2 ORDER BY name ASC"@,
        None => "SELECT id, name, kind, email, notes FROM contacts ORDER BY name ASC"@,
    }
}

/// Picks the query that lists the companies the filter lets through.
pub fn contacts_query(filter: &ContactFilter) -> (r: &'static str)
    ensures
        r@ == contacts_sql(*filter),
{
    match filter.kind {
        Some(ContactKind::Client) => "SELECT id, name, kind, email, notes FROM contacts WHERE kind IN (0, 2) ORDER BY name ASC",
        Some(ContactKind::Provider) => "SELECT id, name, kind, email, notes FROM contacts WHERE kind IN (1, 2) ORDER BY name ASC",
        Some(ContactKind::Both) => "SELECT id, name, kind, email, notes FROM contacts WHERE kind = 2 ORDER BY name ASC",
        None => "SELECT id, name, kind, email, notes FROM contacts ORDER BY name ASC",
    }
}

/// The kind a stored number stands for; an unknown number reads as a pin.
pub open spec fn kind_from_i32_spec(raw: i32) -> ProductKind {
    if raw == 0 {
        ProductKind::Tshirt
    } else if raw == 1 {
        ProductKind::Patch
    } else if raw == 2 {
        ProductKind::Pin
    } else if raw == 3 {
        ProductKind::Print
    } else if raw == 4 {
        ProductKind::Album
    } else {
        ProductKind::Pin
    }
}

/// Reads a kind stored as a number.
pub fn kind_from_i32(raw: i32) -> (r: ProductKind)
    ensures
        r == kind_from_i32_spec(raw),
{
    match raw {
        0 => ProductKind::Tshirt,
        1 => ProductKind::Patch,
        2 => ProductKind::Pin,
        3 => ProductKind::Print,
        4 => ProductKind::Album,
        _ => ProductKind::Pin,
    }
}

/// The attribute a stored number stands for; any number above two reads as
/// a vinyl colour.
pub open spec fn option_from_i32_spec(raw: i32) -> VariantOption {
    if raw == 0 {
        VariantOption::Color
    } else if raw == 1 {
        VariantOption::Size
    } else if raw == 2 {
        VariantOption::Format
    } else {
        VariantOption::VinylColor
    }
}

/// Reads an attribute stored as a number.
pub fn option_from_i32(raw: i32) -> (r: VariantOption)
    ensures
        r == option_from_i32_spec(raw),
{
    match raw {
        0 => VariantOption::Color,
        1 => VariantOption::Size,
        2 => VariantOption::Format,
        _ => VariantOption::VinylColor,
    }
}

/// The kind a stored text stands for: its name, or its number written in
/// decimal; anything else reads as a pin.
pub open spec fn parse_kind_spec(value: Seq<char>) -> ProductKind {
    if value == "TSHIRT"@ {
        ProductKind::Tshirt
    } else if value == "PATCH"@ {
        ProductKind::Patch
    } else if value == "PIN"@ {
        ProductKind::Pin
    } else if value == "PRINT"@ {
        ProductKind::Print
    } else if value == "ALBUM"@ {
        ProductKind::Album
    } else {
        match parse_i32_spec(vstd::utf8::encode_utf8(value)) {
            Some(raw) => kind_from_i32_spec(raw),
            None => ProductKind::Pin,
        }
    }
}

/// Reads a kind stored as text.
pub fn parse_kind_str(value: &str) -> (r: ProductKind)
    ensures
        r == parse_kind_spec(value@),
{
    if str_eq(value, "TSHIRT") {
        ProductKind::Tshirt
    } else if str_eq(value, "PATCH") {
        ProductKind::Patch
    } else if str_eq(value, "PIN") {
        ProductKind::Pin
    } else if str_eq(value, "PRINT") {
        ProductKind::Print
    } else if str_eq(value, "ALBUM") {
        ProductKind::Album
    } else {
        match parse_i32(value) {
            Some(raw) => kind_from_i32(raw),
            None => ProductKind::Pin,
        }
    }
}

/// The stock after a change, unless it would fall below zero.
pub fn apply_stock_delta(current: i32, delta: i32) -> (r: Result<i32, String>)
    requires
        i32::MIN <= current + delta <= i32::MAX,
    ensures
        match r {
            Ok(n) => n == current + delta && n >= 0,
            Err(e) => current + delta < 0 && e@ == "stock insuffisant"@,
        },
{
    let new_stock = current + delta;
    if new_stock < 0 {
        return Err(owned("stock insuffisant"));
    }
    Ok(new_stock)
}

/// Checks a change of stock and applies it to the current stock: the
/// change must not be zero and must not take the stock below zero.
pub fn plan_stock_adjustment(current: i32, adjustment: &AdjustStock) -> (r: Result<i32, String>)
    requires
        i32::MIN <= current + adjustment.quantity_delta <= i32::MAX,
    ensures
        match r {
            Ok(n) => adjustment.validation_error() is None && n == current
                + adjustment.quantity_delta && n >= 0,
            Err(e) => if adjustment.validation_error() is Some {
                adjustment.validation_error() == Some(e@)
            } else {
                current + adjustment.quantity_delta < 0 && e@ == "stock insuffisant"@
            },
        },
{
    adjustment.validate()?;
    apply_stock_delta(current, adjustment.quantity_delta)
}

/// The stock of the variants, added up.
pub open spec fn stock_sum(variants: Seq<ProductVariant>) -> int
    decreases variants.len(),
{
    if variants.len() == 0 {
        0
    } else {
        stock_sum(variants.drop_last()) + variants.last().stock_quantity
    }
}

/// Adds up the stock of the variants, in order; every partial sum must fit
/// in an `i32`.
pub fn total_stock(variants: &[ProductVariant]) -> (r: i32)
    requires
        forall|k: int|
            0 <= k <= variants@.len() ==> i32::MIN <= #[trigger] stock_sum(variants@.take(k))
                <= i32::MAX,
    ensures
        r == stock_sum(variants@),
{
    let mut total: i32 = 0;
    let n = variants.len();
    assert(variants@.take(0) =~= Seq::<ProductVariant>::empty());
    for i in 0..n
        invariant
            n == variants@.len(),
            total == stock_sum(variants@.take(i as int)),
            forall|k: int|
                0 <= k <= variants@.len() ==> i32::MIN <= #[trigger] stock_sum(variants@.take(k))
                    <= i32::MAX,
    {
        assert(variants@.take(i + 1).drop_last() =~= variants@.take(i as int));
        assert(i32::MIN <= stock_sum(variants@.take(i + 1)) <= i32::MAX);
        total = total + variants[i].stock_quantity;
    }
    assert(variants@.take(n as int) =~= variants@);
    total
}


/// An attribute stored as its number reads back as the same attribute.
pub proof fn lemma_option_code_round_trip(option: VariantOption)
    ensures
        option_from_i32_spec(option.code_spec()) == option,
{
}

/// A kind stored as its number reads back as the same kind.
pub proof fn lemma_kind_code_round_trip(kind: ProductKind)
    ensures
        kind_from_i32_spec(kind.code_spec()) == kind,
{
}

/// A kind stored under its name (the value of the kind selector) reads
/// back as the same kind.
pub proof fn lemma_kind_name_round_trip(kind: ProductKind)
    ensures
        parse_kind_spec(crate::forms::product_kind_value_spec(kind)) == kind,
{
    reveal_strlit("TSHIRT");
    reveal_strlit("PATCH");
    reveal_strlit("PIN");
    reveal_strlit("PRINT");
    reveal_strlit("ALBUM");
    assert("TSHIRT"@.len() == 6);
    assert("PATCH"@.len() == 5);
    assert("PIN"@.len() == 3);
    assert("PRINT"@.len() == 5);
    assert("ALBUM"@.len() == 5);
    assert("PATCH"@[0] != "PRINT"@[0] || "PATCH"@[1] != "PRINT"@[1]);
    assert("PATCH"@[0] != "ALBUM"@[0]);
    assert("PRINT"@[0] != "ALBUM"@[0]);
}

/// A kind stored as its number written in decimal reads back as the same kind.
pub proof fn lemma_kind_decimal_round_trip(kind: ProductKind)
    ensures
        parse_kind_spec(crate::text::decimal(kind.code_spec() as int)) == kind,
{
    let s = crate::text::decimal(kind.code_spec() as int);
    crate::text::lemma_parse_decimal_round_trip(kind.code_spec());
    assert(s.len() == 1);
    reveal_strlit("TSHIRT");
    reveal_strlit("PATCH");
    reveal_strlit("PIN");
    reveal_strlit("PRINT");
    reveal_strlit("ALBUM");
    assert(s != "TSHIRT"@ && s != "PATCH"@ && s != "PIN"@ && s != "PRINT"@ && s != "ALBUM"@);
}


/// A product with its variants and the stock they add up to.
pub fn product_detail(product: crate::inventory::Product, variants: Vec<ProductVariant>) -> (r:
    crate::inventory::ProductDetail)
    requires
        forall|k: int|
            0 <= k <= variants@.len() ==> i32::MIN <= #[trigger] stock_sum(variants@.take(k))
                <= i32::MAX,
    ensures
        r.product == product,
        r.variants@ == variants@,
        r.total_stock == stock_sum(variants@),
{
    let total_stock = total_stock(variants.as_slice());
    crate::inventory::ProductDetail { product, variants, total_stock }
}

/// Why a request to the API failed, as the server tells it apart.
#[derive(Debug, Clone, PartialEq)]
pub enum ApiError {
    /// The storage failed; `invalid_input` carries the message when the
    /// failure is a refused input rather than a fault, `message` describes it.
    Database { invalid_input: Option<String>, message: String },
    NotFound,
    BadRequest(String),
    Internal,
}

/// The status and the body the server answers a failure with.
pub open spec fn error_response_spec(err: ApiError) -> (u16, Seq<char>) {
    match err {
        ApiError::Database { invalid_input, message } => match invalid_input {
            Some(m) => (400u16, m@),
            None => (500u16, message@),
        },
        ApiError::NotFound => (404u16, "not found"@),
        ApiError::BadRequest(m) => (400u16, m@),
        ApiError::Internal => (500u16, "internal error"@),
    }
}

/// Answers a failure: a refused input or a bad request is the client's
/// fault (400), a missing record is 404, anything else is the server's (500).
pub fn error_response(err: ApiError) -> (r: (u16, String))
    ensures
        (r.0, r.1@) == error_response_spec(err),
{
    match err {
        ApiError::Database { invalid_input, message } => match invalid_input {
            Some(m) => (400, m),
            None => (500, message),
        },
        ApiError::NotFound => (404, owned("not found")),
        ApiError::BadRequest(m) => (400, m),
        ApiError::Internal => (500, owned("internal error")),
    }
}


/// How many times `c` occurs in the text.
pub open spec fn count_char(s: Seq<char>, c: char) -> nat
    decreases s.len(),
{
    if s.len() == 0 {
        0
    } else {
        count_char(s.drop_last(), c) + if s.last() == c {
            1nat
        } else {
            0nat
        }
    }
}

proof fn lemma_count_char_concat(a: Seq<char>, b: Seq<char>, c: char)
    ensures
        count_char(a + b, c) == count_char(a, c) + count_char(b, c),
    decreases b.len(),
{
    if b.len() == 0 {
        assert(a + b =~= a);
    } else {
        lemma_count_char_concat(a, b.drop_last(), c);
        assert((a + b).drop_last() =~= a + b.drop_last());
    }
}

proof fn lemma_count_char_absent(s: Seq<char>, c: char)
    requires
        forall|i: int| 0 <= i < s.len() ==> s[i] != c,
    ensures
        count_char(s, c) == 0,
    decreases s.len(),
{
    if s.len() > 0 {
        lemma_count_char_absent(s.drop_last(), c);
    }
}

proof fn lemma_count_char_last(s: Seq<char>, c: char)
    requires
        s.len() > 0,
        s.last() == c,
        forall|i: int| 0 <= i < s.len() - 1 ==> s[i] != c,
    ensures
        count_char(s, c) == 1,
{
    lemma_count_char_absent(s.drop_last(), c);
}

/// The transaction query binds exactly one value per `?` placeholder.
pub proof fn lemma_transactions_query_placeholders(filter: DateFilter)
    ensures
        count_char(transactions_sql(filter), '?') == transactions_params(filter).len(),
{
    reveal_strlit("SELECT id, name, company, transaction_type, executed, date, price_full_tax, tag, tax_amount, invoice_path\n         FROM transactions\n         WHERE 1=1");
    reveal_strlit(" AND date >= ?");
    reveal_strlit(" AND date <= ?");
    reveal_strlit(" ORDER BY date DESC, id DESC");
    lemma_count_char_absent(TRANSACTIONS_SELECT@, '?');
    lemma_count_char_last(" AND date >= ?"@, '?');
    lemma_count_char_last(" AND date <= ?"@, '?');
    lemma_count_char_absent(" ORDER BY date DESC, id DESC"@, '?');
    lemma_count_char_absent(Seq::<char>::empty(), '?');
    let a = TRANSACTIONS_SELECT@;
    let b = if filter.from_bound() is Some {
        " AND date >= ?"@
    } else {
        Seq::empty()
    };
    let c = if filter.to_bound() is Some {
        " AND date <= ?"@
    } else {
        Seq::empty()
    };
    let d = " ORDER BY date DESC, id DESC"@;
    lemma_count_char_concat(a, b, '?');
    lemma_count_char_concat(a + b, c, '?');
    lemma_count_char_concat(a + b + c, d, '?');
}

} // verus!
