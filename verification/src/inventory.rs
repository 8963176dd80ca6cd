//! Merchandise: products, their variants and attributes, stock movements,
//! and the rules a variant must follow for its kind of product.
use vstd::prelude::*;
use crate::models::Amount;
use crate::text::{
    byte_len, decimal, is_blank, is_blank_spec, join, owned, push_decimal, push_joined,
    query_from_params, query_string, str_eq, views,
};

verus! {

/// The kinds of merchandise the band sells.
#[derive(Debug, Clone, Copy, PartialEq, Eq, Structural)]
pub enum ProductKind {
    Tshirt,
    Patch,
    Pin,
    Print,
    Album,
}

impl ProductKind {
    /// The name shown for the value.
    pub open spec fn label_spec(self) -> Seq<char> {
        match self {
            ProductKind::Tshirt => "T-shirt"@,
            ProductKind::Patch => "Patch"@,
            ProductKind::Pin => "Pin"@,
            ProductKind::Print => "Print"@,
            ProductKind::Album => "Album"@,
        }
    }

    /// The name shown for the kind.
    pub fn label(&self) -> (r: &'static str)
        ensures
            r@ == self.label_spec(),
    {
        match self {
            ProductKind::Tshirt => "T-shirt",
            ProductKind::Patch => "Patch",
            ProductKind::Pin => "Pin",
            ProductKind::Print => "Print",
            ProductKind::Album => "Album",
        }
    }

    /// The number that stands for the value in storage.
    pub open spec fn code_spec(self) -> i32 {
        match self {
            ProductKind::Tshirt => 0,
            ProductKind::Patch => 1,
            ProductKind::Pin => 2,
            ProductKind::Print => 3,
            ProductKind::Album => 4,
        }
    }

    /// The number that stands for the kind in storage.
    pub fn code(&self) -> (r: i32)
        ensures
            r == self.code_spec(),
    {
        match self {
            ProductKind::Tshirt => 0,
            ProductKind::Patch => 1,
            ProductKind::Pin => 2,
            ProductKind::Print => 3,
            ProductKind::Album => 4,
        }
    }
}

/// The attributes a variant can be described by.
#[derive(Debug, Clone, Copy, PartialEq, Eq, Structural)]
pub enum VariantOption {
    Color,
    Size,
    Format,
    VinylColor,
}

impl VariantOption {
    /// The name shown for the value.
    pub open spec fn label_spec(self) -> Seq<char> {
        match self {
            VariantOption::Color => "Couleur"@,
            VariantOption::Size => "Taille"@,
            VariantOption::Format => "Format"@,
            VariantOption::VinylColor => "Couleur vinyle"@,
        }
    }

    /// The name shown for the attribute.
    pub fn label(&self) -> (r: &'static str)
        ensures
            r@ == self.label_spec(),
    {
        match self {
            VariantOption::Color => "Couleur",
            VariantOption::Size => "Taille",
            VariantOption::Format => "Format",
            VariantOption::VinylColor => "Couleur vinyle",
        }
    }

    /// The number that stands for the value in storage.
    pub open spec fn code_spec(self) -> i32 {
        match self {
            VariantOption::Color => 0,
            VariantOption::Size => 1,
            VariantOption::Format => 2,
            VariantOption::VinylColor => 3,
        }
    }

    /// The number that stands for the attribute in storage.
    pub fn code(&self) -> (r: i32)
        ensures
            r == self.code_spec(),
    {
        match self {
            VariantOption::Color => 0,
            VariantOption::Size => 1,
            VariantOption::Format => 2,
            VariantOption::VinylColor => 3,
        }
    }
}

/// One attribute of a variant and its value.
#[derive(Debug, Clone, PartialEq)]
pub struct VariantAttribute {
    pub option: VariantOption,
    pub value: String,
}

/// A product of the catalogue.
#[derive(Debug, Clone, PartialEq)]
pub struct Product {
    pub id: i64,
    pub name: String,
    pub kind: ProductKind,
    pub description: String,
}

/// A product about to be added.
#[derive(Debug, Clone, PartialEq)]
pub struct NewProduct {
    pub name: String,
    pub kind: ProductKind,
    pub description: String,
}

impl NewProduct {
    /// The message of the first rule the value breaks, if any.
    pub open spec fn validation_error(self) -> Option<Seq<char>> {
        if is_blank_spec(self.name@) {
            Some("le nom du produit est obligatoire"@)
        } else {
            None
        }
    }

    /// A product needs a name that is not blank.
    pub fn validate(&self) -> (r: Result<(), String>)
        ensures
            match r {
                Ok(_) => self.validation_error() is None,
                Err(e) => self.validation_error() == Some(e@),
            },
    {
        if is_blank(self.name.as_str()) {
            return Err(owned("le nom du produit est obligatoire"));
        }
        Ok(())
    }
}

/// A stocked variant of a product.
#[derive(Debug, Clone, PartialEq)]
pub struct ProductVariant {
    pub id: i64,
    pub product_id: i64,
    pub sku: String,
    pub stock_quantity: i32,
    pub unit_price: Amount,
    pub attributes: Vec<VariantAttribute>,
}

/// A variant about to be added to a product.
#[derive(Debug, Clone, PartialEq)]
pub struct NewProductVariant {
    pub sku: String,
    pub stock_quantity: i32,
    pub unit_price: Amount,
    pub attributes: Vec<VariantAttribute>,
}

impl NewProductVariant {
    /// The message of the first rule the value breaks, if any.
    pub open spec fn validation_error(self, kind: ProductKind) -> Option<Seq<char>> {
        if self.stock_quantity < 0 {
            Some("le stock ne peut pas être négatif"@)
        } else {
            attributes_error(kind, self.attributes@)
        }
    }

    /// A variant starts with a stock that is not negative and carries the
    /// attributes its kind of product needs.
    pub fn validate(&self, kind: ProductKind) -> (r: Result<(), String>)
        ensures
            match r {
                Ok(_) => self.validation_error(kind) is None,
                Err(e) => self.validation_error(kind) == Some(e@),
            },
    {
        if self.stock_quantity < 0 {
            return Err(owned("le stock ne peut pas être négatif"));
        }
        validate_attributes_for_kind(kind, self.attributes.as_slice())
    }
}

/// A product of the catalogue with its number of variants and its stock.
#[derive(Debug, Clone, PartialEq)]
pub struct ProductSummary {
    pub id: i64,
    pub name: String,
    pub kind: ProductKind,
    pub description: String,
    pub variant_count: usize,
    pub total_stock: i32,
}

/// A product with all its variants and the stock they add up to.
#[derive(Debug, Clone, PartialEq)]
pub struct ProductDetail {
    pub product: Product,
    pub variants: Vec<ProductVariant>,
    pub total_stock: i32,
}

/// A change of stock asked for by hand.
#[derive(Debug, Clone, PartialEq)]
pub struct AdjustStock {
    pub quantity_delta: i32,
    pub note: String,
}

impl AdjustStock {
    /// The message of the first rule the value breaks, if any.
    pub open spec fn validation_error(self) -> Option<Seq<char>> {
        if self.quantity_delta == 0 {
            Some("la variation de stock doit être non nulle"@)
        } else {
            None
        }
    }

    /// A change of stock passes exactly when it is not zero, whether it
    /// adds stock or takes it away.
    pub proof fn lemma_valid_adjustment(self)
        ensures
            self.validation_error() is None <==> self.quantity_delta != 0,
            self.quantity_delta == 0 ==> self.validation_error() == Some(
                "la variation de stock doit être non nulle"@,
            ),
    {
    }

    /// A change of stock must change something.
    pub fn validate(&self) -> (r: Result<(), String>)
        ensures
            match r {
                Ok(_) => self.validation_error() is None,
                Err(e) => self.validation_error() == Some(e@),
            },
    {
        if self.quantity_delta == 0 {
            return Err(owned("la variation de stock doit être non nulle"));
        }
        Ok(())
    }
}

/// Why the stock of a variant moved.
#[derive(Debug, Clone, Copy, PartialEq, Eq, Structural)]
pub enum MovementType {
    Sale,
    Adjustment,
    Restock,
}

impl MovementType {
    /// The name shown for the value.
    pub open spec fn label_spec(self) -> Seq<char> {
        match self {
            MovementType::Sale => "Vente"@,
            MovementType::Adjustment => "Ajustement"@,
            MovementType::Restock => "Réappro"@,
        }
    }

    /// The name shown for the movement.
    pub fn label(&self) -> (r: &'static str)
        ensures
            r@ == self.label_spec(),
    {
        match self {
            MovementType::Sale => "Vente",
            MovementType::Adjustment => "Ajustement",
            MovementType::Restock => "Réappro",
        }
    }
}

/// A recorded change of the stock of a variant.
#[derive(Debug, Clone, PartialEq)]
pub struct StockMovement {
    pub id: i64,
    pub variant_id: i64,
    pub quantity_delta: i32,
    pub note: String,
    pub created_at: String,
    pub movement_type: MovementType,
    pub transaction_id: Option<i64>,
}

/// A stock movement with the product and variant it concerns.
#[derive(Debug, Clone, PartialEq)]
pub struct StockMovementDetail {
    pub id: i64,
    pub variant_id: i64,
    pub product_id: i64,
    pub product_name: String,
    pub variant_label: String,
    pub sku: String,
    pub quantity_delta: i32,
    pub note: String,
    pub created_at: String,
    pub movement_type: MovementType,
    pub transaction_id: Option<i64>,
}

/// Which stock movements to list.
#[derive(Debug, Clone, Default, PartialEq, Eq)]
pub struct StockMovementFilter {
    pub variant_id: Option<i64>,
    pub product_id: Option<i64>,
    pub limit: Option<u32>,
}

impl StockMovementFilter {
    /// The query parameters the filter puts in a URL.
    pub open spec fn query_params(self) -> Seq<Seq<char>> {
        (if self.variant_id is Some {
            seq!["variant_id="@ + decimal(self.variant_id->0 as int)]
        } else {
            Seq::empty()
        }) + (if self.product_id is Some {
            seq!["product_id="@ + decimal(self.product_id->0 as int)]
        } else {
            Seq::empty()
        }) + (if self.limit is Some {
            seq!["limit="@ + decimal(self.limit->0 as int)]
        } else {
            Seq::empty()
        })
    }

    /// `?variant_id=…&product_id=…&limit=…` with the criteria that are set.
    pub fn to_query_string(&self) -> (r: String)
        ensures
            r@ == query_string(self.query_params()),
    {
        let mut params: Vec<String> = Vec::new();
        if let Some(variant_id) = self.variant_id {
            let mut p = owned("variant_id=");
            push_decimal(&mut p, variant_id);
            params.push(p);
        }
        if let Some(product_id) = self.product_id {
            let mut p = owned("product_id=");
            push_decimal(&mut p, product_id);
            params.push(p);
        }
        if let Some(limit) = self.limit {
            let mut p = owned("limit=");
            push_decimal(&mut p, limit as i64);
            params.push(p);
        }
        assert(views(params@) =~= self.query_params());
        query_from_params(&params)
    }
}

/// A sale of merchandise, which becomes an income and a stock movement.
#[derive(Debug, Clone, PartialEq)]
pub struct MerchSale {
    pub variant_id: i64,
    pub quantity: i32,
    pub date: String,
    pub company: String,
    pub unit_price: Option<Amount>,
    pub tax_amount: Amount,
    pub executed: bool,
    pub invoice_path: String,
    pub note: String,
}

impl MerchSale {
    /// The message of the first rule the value breaks, if any.
    pub open spec fn validation_error(self) -> Option<Seq<char>> {
        if self.quantity <= 0 {
            Some("la quantité vendue doit être positive"@)
        } else if vstd::utf8::encode_utf8(self.date@).len() != 10 {
            Some("la date doit être au format AAAA-MM-JJ"@)
        } else if is_blank_spec(self.company@) {
            Some("la société / point de vente est obligatoire"@)
        } else if self.unit_price is Some && self.unit_price->0.at_most_zero() {
            Some("le prix unitaire doit être positif"@)
        } else {
            None
        }
    }

    /// A sale that passes the checks sells at least one item, on a date ten
    /// bytes long, to a buyer whose name is not blank, at a price above zero
    /// when a price is given; a sale of no item or fewer is refused for its
    /// quantity.
    pub proof fn lemma_valid_sale(self)
        ensures
            self.validation_error() is None ==> {
                &&& self.quantity > 0
                &&& vstd::utf8::encode_utf8(self.date@).len() == 10
                &&& !is_blank_spec(self.company@)
                &&& (self.unit_price matches Some(p) ==> !p.at_most_zero())
            },
            self.quantity <= 0 ==> self.validation_error() == Some(
                "la quantité vendue doit être positive"@,
            ),
    {
    }

    /// A sale sells at least one item, on a date ten bytes long, to a named
    /// buyer, at a price above zero when a price is given.
    pub fn validate(&self) -> (r: Result<(), String>)
        ensures
            match r {
                Ok(_) => self.validation_error() is None,
                Err(e) => self.validation_error() == Some(e@),
            },
    {
        if self.quantity <= 0 {
            return Err(owned("la quantité vendue doit être positive"));
        }
        if byte_len(self.date.as_str()) != 10 {
            return Err(owned("la date doit être au format AAAA-MM-JJ"));
        }
        if is_blank(self.company.as_str()) {
            return Err(owned("la société / point de vente est obligatoire"));
        }
        if let Some(price) = self.unit_price {
            if price.is_at_most_zero() {
                return Err(owned("le prix unitaire doit être positif"));
            }
        }
        Ok(())
    }
}

/// What a recorded merchandise sale produced.
#[derive(Debug, Clone, PartialEq)]
pub struct MerchSaleResult {
    pub transaction: crate::models::Transaction,
    pub variant: ProductVariant,
    pub movement: StockMovement,
}

/// Below this stock a variant is reported, unless another threshold is asked.
pub const DEFAULT_LOW_STOCK_THRESHOLD: i32 = 5;

/// A variant whose stock fell under the threshold.
#[derive(Debug, Clone, PartialEq)]
pub struct LowStockAlert {
    pub variant_id: i64,
    pub product_id: i64,
    pub product_name: String,
    pub variant_label: String,
    pub sku: String,
    pub stock_quantity: i32,
    pub threshold: i32,
    pub unit_price: Amount,
}

/// Which threshold the low-stock report uses.
#[derive(Debug, Clone, Default, PartialEq, Eq)]
pub struct LowStockFilter {
    pub threshold: Option<i32>,
}

impl LowStockFilter {
    /// The query the filter puts in a URL.
    pub open spec fn query_spec(self) -> Seq<char> {
        match self.threshold {
            Some(t) => "?threshold="@ + decimal(t as int),
            None => Seq::empty(),
        }
    }

    /// `?threshold=…` when a threshold is set, else nothing.
    pub fn to_query_string(&self) -> (r: String)
        ensures
            r@ == self.query_spec(),
    {
        match self.threshold {
            Some(threshold) => {
                let mut q = owned("?threshold=");
                push_decimal(&mut q, threshold as i64);
                q
            },
            None => String::new(),
        }
    }
}

/// The sizes a t-shirt comes in.
pub const SHIRT_SIZES: [&'static str; 7] = ["XS", "S", "M", "L", "XL", "2XL", "3XL"];

/// The formats an album comes in.
pub const ALBUM_FORMATS: [&'static str; 3] = ["CD", "Cassette", "Vinyle"];

/// Some attribute of the list is `opt` with a value that is not blank.
pub open spec fn has_filled(attrs: Seq<VariantAttribute>, opt: VariantOption) -> bool {
    exists|i: int| 0 <= i < attrs.len() && #[trigger] attrs[i].option == opt && !is_blank_spec(attrs[i].value@)
}

/// The value of the first attribute of the list that is `opt`, if any.
pub open spec fn first_value(attrs: Seq<VariantAttribute>, opt: VariantOption) -> Option<Seq<char>>
    decreases attrs.len(),
{
    if attrs.len() == 0 {
        None
    } else if attrs[0].option == opt {
        Some(attrs[0].value@)
    } else {
        first_value(attrs.drop_first(), opt)
    }
}

/// The message for the first attribute a kind of product needs and the
/// list lacks: colour and size for a t-shirt, a format for an album and a
/// print, and a vinyl colour when the album's first format is `Vinyle`.
pub open spec fn attributes_error(kind: ProductKind, attrs: Seq<VariantAttribute>) -> Option<Seq<char>> {
    match kind {
        ProductKind::Tshirt => if !has_filled(attrs, VariantOption::Color) {
            Some("couleur obligatoire pour un t-shirt"@)
        } else if !has_filled(attrs, VariantOption::Size) {
            Some("taille obligatoire pour un t-shirt"@)
        } else {
            None
        },
        ProductKind::Album => if !has_filled(attrs, VariantOption::Format) {
            Some("format obligatoire pour un album"@)
        } else if first_value(attrs, VariantOption::Format) == Some("Vinyle"@) && !has_filled(
            attrs,
            VariantOption::VinylColor,
        ) {
            Some("couleur vinyle obligatoire pour un vinyle"@)
        } else {
            None
        },
        ProductKind::Print => if !has_filled(attrs, VariantOption::Format) {
            Some("format obligatoire pour un print"@)
        } else {
            None
        },
        ProductKind::Patch | ProductKind::Pin => None,
    }
}

fn has_filled_exec(attributes: &[VariantAttribute], opt: VariantOption) -> (r: bool)
    ensures
        r == has_filled(attributes@, opt),
{
    let n = attributes.len();
    for i in 0..n
        invariant
            n == attributes@.len(),
            forall|j: int|
                0 <= j < i ==> !(#[trigger] attributes@[j].option == opt && !is_blank_spec(
                    attributes@[j].value@,
                )),
    {
        if attributes[i].option == opt && !is_blank(attributes[i].value.as_str()) {
            return true;
        }
    }
    false
}

fn first_value_exec(attributes: &[VariantAttribute], opt: VariantOption) -> (r: Option<&str>)
    ensures
        match r {
            Some(v) => first_value(attributes@, opt) == Some(v@),
            None => first_value(attributes@, opt) is None,
        },
{
    let n = attributes.len();
    assert(attributes@.skip(0) =~= attributes@);
    for i in 0..n
        invariant
            n == attributes@.len(),
            first_value(attributes@, opt) == first_value(attributes@.skip(i as int), opt),
    {
        assert(attributes@.skip(i as int).drop_first() =~= attributes@.skip(i + 1));
        if attributes[i].option == opt {
            return Some(attributes[i].value.as_str());
        }
    }
    None
}

/// Checks that the attributes give what a variant of the kind needs; the
/// error is the message of the first missing one.
pub fn validate_attributes_for_kind(kind: ProductKind, attributes: &[VariantAttribute]) -> (r:
    Result<(), String>)
    ensures
        match r {
            Ok(_) => attributes_error(kind, attributes@) is None,
            Err(e) => attributes_error(kind, attributes@) == Some(e@),
        },
{
    match kind {
        ProductKind::Tshirt => {
            if !has_filled_exec(attributes, VariantOption::Color) {
                return Err(owned("couleur obligatoire pour un t-shirt"));
            }
            if !has_filled_exec(attributes, VariantOption::Size) {
                return Err(owned("taille obligatoire pour un t-shirt"));
            }
        },
        ProductKind::Album => {
            if !has_filled_exec(attributes, VariantOption::Format) {
                return Err(owned("format obligatoire pour un album"));
            }
            let format = first_value_exec(attributes, VariantOption::Format);
            let is_vinyl = match format {
                Some(f) => str_eq(f, "Vinyle"),
                None => false,
            };
            if is_vinyl && !has_filled_exec(attributes, VariantOption::VinylColor) {
                return Err(owned("couleur vinyle obligatoire pour un vinyle"));
            }
        },
        ProductKind::Print => {
            if !has_filled_exec(attributes, VariantOption::Format) {
                return Err(owned("format obligatoire pour un print"));
            }
        },
        ProductKind::Patch | ProductKind::Pin => {},
    }
    Ok(())
}

/// The values of the attributes.
pub open spec fn attribute_values(attrs: Seq<VariantAttribute>) -> Seq<Seq<char>> {
    attrs.map_values(|a: VariantAttribute| a.value@)
}

/// How a variant is named: `Standard` without attributes, else the values
/// of its attributes joined by ` / `.
pub open spec fn variant_label_spec(attrs: Seq<VariantAttribute>) -> Seq<char> {
    if attrs.len() == 0 {
        "Standard"@
    } else {
        join(attribute_values(attrs), " / "@)
    }
}

/// Names a variant by its attributes.
pub fn variant_label(attributes: &[VariantAttribute]) -> (r: String)
    ensures
        r@ == variant_label_spec(attributes@),
{
    if attributes.len() == 0 {
        return owned("Standard");
    }
    let mut values: Vec<String> = Vec::new();
    let n = attributes.len();
    for i in 0..n
        invariant
            n == attributes@.len(),
            views(values@) =~= attribute_values(attributes@.take(i as int)),
    {
        values.push(attributes[i].value.clone());
        assert(attribute_values(attributes@.take(i + 1)) =~= attribute_values(
            attributes@.take(i as int),
        ).push(attributes@[i as int].value@));
    }
    assert(attributes@.take(n as int) =~= attributes@);
    let mut label = String::new();
    push_joined(&mut label, &values, " / ");
    assert(label@ =~= variant_label_spec(attributes@));
    label
}

} // verus!
