//! The decisions of the web interface's forms: what they start with, what
//! they send, and how they read the values of their selectors.
use vstd::prelude::*;
use crate::inventory::{
    attributes_error, has_filled, first_value, NewProductVariant, ProductKind, VariantAttribute,
    VariantOption,
};
use crate::models::{
    Amount, Contact, ContactKind, NewContact, NewTransaction, TransactionType,
};
use crate::text::{is_blank_spec, owned, parse_i32, parse_i32_spec, push_char, str_eq};

verus! {

/// The state of the form that enters a transaction; amounts are kept as typed.
#[derive(Debug, Clone, PartialEq)]
pub struct FormState {
    pub name: String,
    pub company: String,
    pub transaction_type: TransactionType,
    pub executed: bool,
    pub date: String,
    pub price_full_tax: String,
    pub tag: String,
    pub tax_amount: String,
    pub invoice_path: String,
    pub invoice_file_name: String,
    pub uploading_file: bool,
}

impl Default for FormState {
    /// An empty expense, with the usual tax rate of 20 %.
    fn default() -> (r: FormState)
        ensures
            r.name@ == Seq::<char>::empty(),
            r.company@ == Seq::<char>::empty(),
            r.transaction_type == TransactionType::Expense,
            !r.executed,
            r.date@ == Seq::<char>::empty(),
            r.price_full_tax@ == Seq::<char>::empty(),
            r.tag@ == Seq::<char>::empty(),
            r.tax_amount@ == "20"@,
            r.invoice_path@ == Seq::<char>::empty(),
            r.invoice_file_name@ == Seq::<char>::empty(),
            !r.uploading_file,
    {
        FormState {
            name: String::new(),
            company: String::new(),
            transaction_type: TransactionType::Expense,
            executed: false,
            date: String::new(),
            price_full_tax: String::new(),
            tag: String::new(),
            tax_amount: owned("20"),
            invoice_path: String::new(),
            invoice_file_name: String::new(),
            uploading_file: false,
        }
    }
}

/// A typed amount with the decimal comma turned into a point.
pub open spec fn decimal_point(s: Seq<char>) -> Seq<char> {
    s.map_values(|c: char| if c == ',' { '.' } else { c })
}

/// Turns every `,` of a typed amount into `.`, so that it reads as a number.
pub fn normalize_decimal(s: &str) -> (r: String)
    ensures
        r@ == decimal_point(s@),
{
    broadcast use vstd::string::group_string_axioms;
    let mut out = String::new();
    for c in it: s.chars()
        invariant
            it.seq() == s@,
            out@ == decimal_point(s@.take(it.index() as int)),
    {
        assert(s@.take(it.index() + 1) =~= s@.take(it.index() as int).push(c));
        if c == ',' {
            push_char(&mut out, '.');
        } else {
            push_char(&mut out, c);
        }
        assert(out@ =~= decimal_point(s@.take(it.index() + 1)));
    }
    assert(s@.take(s@.len() as int) =~= s@);
    out
}

/// What the form sends, or why it cannot: the amounts must have been read
/// as numbers, and the transaction must pass its checks.
pub open spec fn form_error(
    form: FormState,
    price_full_tax: Option<Amount>,
    tax_amount: Option<Amount>,
) -> Option<Seq<char>> {
    if price_full_tax is None {
        Some("montant TTC invalide"@)
    } else if tax_amount is None {
        Some("TVA invalide"@)
    } else {
        form_transaction(form, price_full_tax->0, tax_amount->0).validation_error()
    }
}

/// The transaction the form describes, with the amounts read from it.
pub open spec fn form_transaction(form: FormState, price_full_tax: Amount, tax_amount: Amount) -> NewTransaction {
    NewTransaction {
        name: form.name,
        company: form.company,
        transaction_type: form.transaction_type,
        executed: form.executed,
        date: form.date,
        price_full_tax,
        tag: form.tag,
        tax_amount,
        invoice_path: form.invoice_path,
    }
}

impl FormState {
    /// The transaction to send. `price_full_tax` and `tax_amount` are the
    /// typed amounts read as numbers after `normalize_decimal`, `None` when
    /// they do not read as numbers.
    pub fn to_new_transaction(&self, price_full_tax: Option<Amount>, tax_amount: Option<Amount>) -> (r:
        Result<NewTransaction, String>)
        ensures
            match r {
                Ok(t) => form_error(*self, price_full_tax, tax_amount) is None && t.name@
                    == self.name@ && t.company@ == self.company@ && t.transaction_type
                    == self.transaction_type && t.executed == self.executed && t.date@
                    == self.date@ && t.price_full_tax == price_full_tax->0 && t.tag@ == self.tag@
                    && t.tax_amount == tax_amount->0 && t.invoice_path@ == self.invoice_path@,
                Err(e) => form_error(*self, price_full_tax, tax_amount) == Some(e@),
            },
    {
        let price_full_tax = match price_full_tax {
            Some(p) => p,
            None => return Err(owned("montant TTC invalide")),
        };
        let tax_amount = match tax_amount {
            Some(t) => t,
            None => return Err(owned("TVA invalide")),
        };
        let transaction = NewTransaction {
            name: self.name.clone(),
            company: self.company.clone(),
            transaction_type: self.transaction_type,
            executed: self.executed,
            date: self.date.clone(),
            price_full_tax,
            tag: self.tag.clone(),
            tax_amount,
            invoice_path: self.invoice_path.clone(),
        };
        transaction.validate()?;
        Ok(transaction)
    }

    /// A document is attached once its path is known.
    pub fn has_justification(&self) -> (r: bool)
        ensures
            r == (self.invoice_path@.len() > 0),
    {
        !self.invoice_path.as_str().is_empty()
    }
}

/// What submitting the transaction form does.
#[derive(Debug, Clone, Copy, PartialEq, Eq, Structural)]
pub enum SubmitAction {
    /// A document is still uploading: nothing happens.
    Wait,
    /// The transaction is sent.
    Send,
    /// No document is attached: the user is asked to confirm first.
    Confirm,
}

/// Waits for an upload to finish, sends when a document is attached, and
/// asks to confirm otherwise.
pub fn submit_action(form: &FormState) -> (r: SubmitAction)
    ensures
        r == (if form.uploading_file {
            SubmitAction::Wait
        } else if form.invoice_path@.len() > 0 {
            SubmitAction::Send
        } else {
            SubmitAction::Confirm
        }),
{
    if form.uploading_file {
        SubmitAction::Wait
    } else if form.has_justification() {
        SubmitAction::Send
    } else {
        SubmitAction::Confirm
    }
}

/// The form that adds a company.
#[derive(Debug, Clone, PartialEq)]
pub struct ContactForm {
    pub name: String,
    pub kind: ContactKind,
    pub email: String,
    pub notes: String,
}

impl Default for ContactForm {
    /// An empty provider.
    fn default() -> (r: ContactForm)
        ensures
            r.name@ == Seq::<char>::empty(),
            r.kind == ContactKind::Provider,
            r.email@ == Seq::<char>::empty(),
            r.notes@ == Seq::<char>::empty(),
    {
        ContactForm {
            name: String::new(),
            kind: ContactKind::Provider,
            email: String::new(),
            notes: String::new(),
        }
    }
}

impl ContactForm {
    /// The company the form sends.
    pub fn to_new_contact(&self) -> (r: NewContact)
        ensures
            r.name@ == self.name@,
            r.kind == self.kind,
            r.email@ == self.email@,
            r.notes@ == self.notes@,
    {
        NewContact {
            name: self.name.clone(),
            kind: self.kind,
            email: self.email.clone(),
            notes: self.notes.clone(),
        }
    }
}

/// Reads the company-kind selector: `CLIENT`, `PROVIDER`, `BOTH`; anything
/// else is a provider.
pub open spec fn parse_contact_kind_spec(value: Seq<char>) -> ContactKind {
    if value == "CLIENT"@ {
        ContactKind::Client
    } else if value == "PROVIDER"@ {
        ContactKind::Provider
    } else if value == "BOTH"@ {
        ContactKind::Both
    } else {
        ContactKind::Provider
    }
}

/// Reads the company-kind selector; unknown values mean a provider.
pub fn parse_contact_kind(value: &str) -> (r: ContactKind)
    ensures
        r == parse_contact_kind_spec(value@),
{
    if str_eq(value, "CLIENT") {
        ContactKind::Client
    } else if str_eq(value, "PROVIDER") {
        ContactKind::Provider
    } else if str_eq(value, "BOTH") {
        ContactKind::Both
    } else {
        ContactKind::Provider
    }
}

/// Reading back the selector value of a company kind gives that kind.
pub proof fn lemma_contact_kind_round_trip(k: ContactKind)
    ensures
        parse_contact_kind_spec(k.name_spec()) == k,
{
    reveal_strlit("CLIENT");
    reveal_strlit("PROVIDER");
    reveal_strlit("BOTH");
    assert("CLIENT"@.len() == 6);
    assert("PROVIDER"@.len() == 8);
    assert("BOTH"@.len() == 4);
}

/// A company fits a choice of kinds when its kind is among them, and a
/// company of both kinds always fits.
pub open spec fn contact_kind_matches_spec(contact: Contact, kinds: Seq<ContactKind>) -> bool {
    kinds.contains(contact.kind) || contact.kind == ContactKind::Both
}

/// Whether the company fits the kinds asked for.
pub fn contact_kind_matches(contact: &Contact, kinds: &[ContactKind]) -> (r: bool)
    ensures
        r == contact_kind_matches_spec(*contact, kinds@),
{
    let n = kinds.len();
    for i in 0..n
        invariant
            n == kinds@.len(),
            forall|j: int| 0 <= j < i ==> kinds@[j] != contact.kind,
    {
        if kinds[i] == contact.kind {
            assert(kinds@[i as int] == contact.kind);
            return true;
        }
    }
    contact.kind == ContactKind::Both
}

/// The badge style of a company kind.
pub open spec fn kind_badge_class_spec(kind: ContactKind) -> Seq<char> {
    match kind {
        ContactKind::Client => "badge badge-income"@,
        ContactKind::Provider => "badge badge-expense"@,
        ContactKind::Both => "badge badge-ndf"@,
    }
}

/// The badge style of a company kind.
pub fn kind_badge_class(kind: ContactKind) -> (r: &'static str)
    ensures
        r@ == kind_badge_class_spec(kind),
{
    match kind {
        ContactKind::Client => "badge badge-income",
        ContactKind::Provider => "badge badge-expense",
        ContactKind::Both => "badge badge-ndf",
    }
}

/// The value the product-kind selector carries for a kind.
pub open spec fn product_kind_value_spec(kind: ProductKind) -> Seq<char> {
    match kind {
        ProductKind::Tshirt => "TSHIRT"@,
        ProductKind::Patch => "PATCH"@,
        ProductKind::Pin => "PIN"@,
        ProductKind::Print => "PRINT"@,
        ProductKind::Album => "ALBUM"@,
    }
}

/// The value the product-kind selector carries for a kind.
pub fn product_kind_value(kind: ProductKind) -> (r: &'static str)
    ensures
        r@ == product_kind_value_spec(kind),
{
    match kind {
        ProductKind::Tshirt => "TSHIRT",
        ProductKind::Patch => "PATCH",
        ProductKind::Pin => "PIN",
        ProductKind::Print => "PRINT",
        ProductKind::Album => "ALBUM",
    }
}

/// The form that adds a product.
#[derive(Debug, Clone, PartialEq)]
pub struct ProductForm {
    pub name: String,
    pub kind: ProductKind,
    pub description: String,
}

impl Default for ProductForm {
    /// An empty t-shirt.
    fn default() -> (r: ProductForm)
        ensures
            r.name@ == Seq::<char>::empty(),
            r.kind == ProductKind::Tshirt,
            r.description@ == Seq::<char>::empty(),
    {
        ProductForm { name: String::new(), kind: ProductKind::Tshirt, description: String::new() }
    }
}

/// The form that adds a variant; every field is kept as typed.
#[derive(Debug, Clone, Default, PartialEq)]
pub struct VariantForm {
    pub sku: String,
    pub stock_quantity: String,
    pub unit_price: String,
    pub color: String,
    pub size: String,
    pub format: String,
    pub vinyl_color: String,
}

/// The attributes the form gives a variant of the kind: colour and size
/// for a t-shirt, the format for an album (and the vinyl colour when the
/// format is `Vinyle`) and for a print, none otherwise.
pub open spec fn built_attributes(kind: ProductKind, form: VariantForm) -> Seq<(VariantOption, Seq<char>)> {
    match kind {
        ProductKind::Tshirt => seq![(VariantOption::Color, form.color@), (VariantOption::Size, form.size@)],
        ProductKind::Album => if form.format@ == "Vinyle"@ {
            seq![(VariantOption::Format, form.format@), (VariantOption::VinylColor, form.vinyl_color@)]
        } else {
            seq![(VariantOption::Format, form.format@)]
        },
        ProductKind::Print => seq![(VariantOption::Format, form.format@)],
        ProductKind::Patch | ProductKind::Pin => Seq::empty(),
    }
}

/// The attributes as pairs of option and value.
pub open spec fn attribute_pairs(attrs: Seq<VariantAttribute>) -> Seq<(VariantOption, Seq<char>)> {
    attrs.map_values(|a: VariantAttribute| (a.option, a.value@))
}

fn attribute(option: VariantOption, value: &String) -> (r: VariantAttribute)
    ensures
        r.option == option,
        r.value@ == value@,
{
    VariantAttribute { option, value: value.clone() }
}

/// The attributes the variant form gives a variant of the kind.
pub fn build_attributes(kind: ProductKind, form: &VariantForm) -> (r: Vec<VariantAttribute>)
    ensures
        attribute_pairs(r@) == built_attributes(kind, *form),
{
    let mut attrs: Vec<VariantAttribute> = Vec::new();
    match kind {
        ProductKind::Tshirt => {
            attrs.push(attribute(VariantOption::Color, &form.color));
            attrs.push(attribute(VariantOption::Size, &form.size));
        },
        ProductKind::Album => {
            attrs.push(attribute(VariantOption::Format, &form.format));
            if str_eq(form.format.as_str(), "Vinyle") {
                attrs.push(attribute(VariantOption::VinylColor, &form.vinyl_color));
            }
        },
        ProductKind::Print => {
            attrs.push(attribute(VariantOption::Format, &form.format));
        },
        ProductKind::Patch | ProductKind::Pin => {},
    }
    assert(attribute_pairs(attrs@) =~= built_attributes(kind, *form));
    attrs
}

/// The fields a variant form must fill for the kind: colour and size for a
/// t-shirt, a format for an album and a print, and a vinyl colour when the
/// album is a vinyl.
pub open spec fn variant_form_complete(kind: ProductKind, form: VariantForm) -> bool {
    match kind {
        ProductKind::Tshirt => !is_blank_spec(form.color@) && !is_blank_spec(form.size@),
        ProductKind::Album => !is_blank_spec(form.format@) && (form.format@ == "Vinyle"@
            ==> !is_blank_spec(form.vinyl_color@)),
        ProductKind::Print => !is_blank_spec(form.format@),
        ProductKind::Patch | ProductKind::Pin => true,
    }
}

/// The attributes the variant form builds pass the kind's checks exactly
/// when the form fills the fields the kind needs.
pub proof fn lemma_built_attributes_valid(kind: ProductKind, form: VariantForm, attrs: Seq<VariantAttribute>)
    requires
        attribute_pairs(attrs) == built_attributes(kind, form),
    ensures
        attributes_error(kind, attrs) is None <==> variant_form_complete(kind, form),
{
    assert(attrs.len() == built_attributes(kind, form).len());
    assert forall|i: int| 0 <= i < attrs.len() implies attrs[i].option == built_attributes(kind, form)[i].0
        && attrs[i].value@ == built_attributes(kind, form)[i].1 by {
        assert(attribute_pairs(attrs)[i] == (attrs[i].option, attrs[i].value@));
    }
    match kind {
        ProductKind::Tshirt => {
            if !is_blank_spec(form.color@) {
                assert(attrs[0].option == VariantOption::Color);
                assert(has_filled(attrs, VariantOption::Color));
            }
            if !is_blank_spec(form.size@) {
                assert(attrs[1].option == VariantOption::Size);
                assert(has_filled(attrs, VariantOption::Size));
            }
        },
        ProductKind::Album => {
            assert(attrs[0].option == VariantOption::Format);
            assert(first_value(attrs, VariantOption::Format) == Some(form.format@));
            if !is_blank_spec(form.format@) {
                assert(has_filled(attrs, VariantOption::Format));
            }
            if form.format@ == "Vinyle"@ {
                assert(attrs[1].option == VariantOption::VinylColor);
                if !is_blank_spec(form.vinyl_color@) {
                    assert(has_filled(attrs, VariantOption::VinylColor));
                }
            }
        },
        ProductKind::Print => {
            assert(attrs[0].option == VariantOption::Format);
            if !is_blank_spec(form.format@) {
                assert(has_filled(attrs, VariantOption::Format));
            }
        },
        ProductKind::Patch | ProductKind::Pin => {},
    }
}

/// The variant the form sends for a product of the kind: a stock that does
/// not read as a whole number counts as zero. `unit_price` is the typed
/// price read as a number (zero when it does not read as one).
pub fn variant_payload(kind: ProductKind, form: &VariantForm, unit_price: Amount) -> (r: NewProductVariant)
    ensures
        r.sku@ == form.sku@,
        r.stock_quantity == (match parse_i32_spec(vstd::utf8::encode_utf8(form.stock_quantity@)) {
            Some(n) => n,
            None => 0,
        }),
        r.unit_price == unit_price,
        attribute_pairs(r.attributes@) == built_attributes(kind, *form),
{
    let stock_quantity = match parse_i32(form.stock_quantity.as_str()) {
        Some(n) => n,
        None => 0,
    };
    NewProductVariant {
        sku: form.sku.clone(),
        stock_quantity,
        unit_price,
        attributes: build_attributes(kind, form),
    }
}

/// The form that changes the stock of a variant by hand.
#[derive(Debug, Clone, Default, PartialEq)]
pub struct StockAdjustForm {
    pub delta: String,
    pub note: String,
}

/// The change the form asks for: a whole number other than zero.
pub open spec fn stock_delta_spec(form: StockAdjustForm) -> Option<i32> {
    match parse_i32_spec(vstd::utf8::encode_utf8(form.delta@)) {
        Some(v) => if v != 0 {
            Some(v)
        } else {
            None
        },
        None => None,
    }
}

/// Reads the change of stock; asks again when it is not a whole number
/// other than zero.
pub fn stock_delta(form: &StockAdjustForm) -> (r: Result<i32, String>)
    ensures
        match r {
            Ok(v) => stock_delta_spec(*form) == Some(v),
            Err(e) => stock_delta_spec(*form) is None && e@ == "Indiquez une variation non nulle."@,
        },
{
    match parse_i32(form.delta.as_str()) {
        Some(v) => if v != 0 {
            Ok(v)
        } else {
            Err(owned("Indiquez une variation non nulle."))
        },
        None => Err(owned("Indiquez une variation non nulle.")),
    }
}

/// Where a page stands with data it asked the API for.
#[derive(Debug, Clone, PartialEq)]
pub enum LoadState<T> {
    Loading,
    Ready(T),
    Error(String),
}

impl<T> Default for LoadState<T> {
    /// A page starts out waiting for its data.
    fn default() -> (r: LoadState<T>)
        ensures
            r is Loading,
    {
        LoadState::Loading
    }
}

} // verus!
