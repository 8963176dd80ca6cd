//! Treasury records: transactions, their validation, date filters,
//! contacts and tags.
use vstd::prelude::*;
use vstd::std_specs::cmp::PartialEqSpecImpl;
use crate::text::{
    byte_len, is_blank, is_blank_spec, lex_less, owned, query_from_params, query_string, str_eq,
    str_less, views,
};

verus! {

/// A money amount, held as the bit pattern of the IEEE-754 single-precision
/// number that stores it (`f32::to_bits`); the conversion loses nothing.
/// Two amounts compare with `==` as the numbers do.
#[derive(Debug, Clone, Copy)]
pub struct Amount(pub u32);

impl Amount {
    /// The sign bit of the number.
    pub open spec fn sign_bit(self) -> bool {
        self.0 >= 0x8000_0000u32
    }

    /// The biased exponent field.
    pub open spec fn exponent_field(self) -> int {
        (self.0 / 0x80_0000u32) as int % 256
    }

    /// The fraction field.
    pub open spec fn fraction_field(self) -> int {
        (self.0 % 0x80_0000u32) as int
    }

    /// The number is a NaN.
    pub open spec fn is_nan(self) -> bool {
        self.exponent_field() == 255 && self.fraction_field() != 0
    }

    /// `value <= 0.0`: a zero of either sign or a negative number; a NaN
    /// compares false.
    pub open spec fn at_most_zero(self) -> bool {
        !self.is_nan() && (self.sign_bit() || self.0 == 0)
    }

    /// Whether the amount is zero or below (`value <= 0.0`).
    pub fn is_at_most_zero(&self) -> (r: bool)
        ensures
            r == self.at_most_zero(),
    {
        let bits = self.0;
        let exponent = (bits / 0x80_0000u32) % 256;
        let fraction = bits % 0x80_0000u32;
        let nan = exponent == 255 && fraction != 0;
        !nan && (bits >= 0x8000_0000u32 || bits == 0)
    }
}

impl Amount {
    /// The number is a zero, of either sign.
    pub open spec fn is_zero(self) -> bool {
        self.0 == 0 || self.0 == 0x8000_0000u32
    }

    /// `==` on the numbers: two zeros are equal whatever their signs, a NaN
    /// equals nothing, not even itself, and any other number equals exactly
    /// the one with the same bits.
    pub open spec fn same_number(self, other: Amount) -> bool {
        ||| self.is_zero() && other.is_zero()
        ||| self.0 == other.0 && !self.is_nan()
    }
}

impl PartialEq for Amount {
    fn eq(&self, other: &Amount) -> (r: bool) {
        let a = self.0;
        let b = other.0;
        let zeros = (a == 0 || a == 0x8000_0000u32) && (b == 0 || b == 0x8000_0000u32);
        let nan = (a / 0x80_0000u32) % 256 == 255 && a % 0x80_0000u32 != 0;
        zeros || (a == b && !nan)
    }
}

impl PartialEqSpecImpl for Amount {
    open spec fn obeys_eq_spec() -> bool {
        true
    }

    open spec fn eq_spec(&self, other: &Amount) -> bool {
        self.same_number(*other)
    }
}

/// The views of an optional owned text.
pub open spec fn opt_view(o: Option<String>) -> Option<Seq<char>> {
    match o {
        Some(s) => Some(s@),
        None => None,
    }
}

/// An optional text, with the empty text counted as absent.
pub open spec fn non_empty(o: Option<Seq<char>>) -> Option<Seq<char>> {
    match o {
        Some(s) => if s.len() > 0 {
            Some(s)
        } else {
            None
        },
        None => None,
    }
}

/// Whether a transaction brings money in, pays a supplier, or refunds an
/// expense report.
#[derive(Debug, Clone, Copy, PartialEq, Eq, Structural)]
pub enum TransactionType {
    Income,
    Expense,
    Ndf,
}

impl TransactionType {
    /// What the supporting document of such a transaction is called.
    pub open spec fn justification_label_spec(self) -> Seq<char> {
        match self {
            TransactionType::Income => "Justificatif de recette"@,
            TransactionType::Expense => "Facture"@,
            TransactionType::Ndf => "Justificatif"@,
        }
    }

    /// What the supporting document of such a transaction is called.
    pub fn justification_label(&self) -> (r: &'static str)
        ensures
            r@ == self.justification_label_spec(),
    {
        match self {
            TransactionType::Income => "Justificatif de recette",
            TransactionType::Expense => "Facture",
            TransactionType::Ndf => "Justificatif",
        }
    }
}

/// The value the transaction-type selector of the entry form carries for a type.
pub open spec fn transaction_type_value_spec(t: TransactionType) -> Seq<char> {
    match t {
        TransactionType::Income => "INCOME"@,
        TransactionType::Expense => "EXPENSE"@,
        TransactionType::Ndf => "NDF"@,
    }
}

/// The value the transaction-type selector of the entry form carries for a type.
pub fn transaction_type_value(t: TransactionType) -> (r: &'static str)
    ensures
        r@ == transaction_type_value_spec(t),
{
    match t {
        TransactionType::Income => "INCOME",
        TransactionType::Expense => "EXPENSE",
        TransactionType::Ndf => "NDF",
    }
}

/// Reads the selector value back: `INCOME`, `NDF`, anything else is an expense.
pub open spec fn parse_transaction_type_spec(value: Seq<char>) -> TransactionType {
    if value == "INCOME"@ {
        TransactionType::Income
    } else if value == "NDF"@ {
        TransactionType::Ndf
    } else {
        TransactionType::Expense
    }
}

/// Reads the transaction-type selector value; unknown values mean an expense.
pub fn parse_transaction_type(value: &str) -> (r: TransactionType)
    ensures
        r == parse_transaction_type_spec(value@),
{
    if str_eq(value, "INCOME") {
        TransactionType::Income
    } else if str_eq(value, "NDF") {
        TransactionType::Ndf
    } else {
        TransactionType::Expense
    }
}

/// Reading back the selector value of a type gives that type.
pub proof fn lemma_transaction_type_value_round_trip(t: TransactionType)
    ensures
        parse_transaction_type_spec(transaction_type_value_spec(t)) == t,
{
    reveal_strlit("INCOME");
    reveal_strlit("EXPENSE");
    reveal_strlit("NDF");
    assert("INCOME"@.len() == 6);
    assert("EXPENSE"@.len() == 7);
    assert("NDF"@.len() == 3);
}

/// How the interface shows a transaction type: a label and a badge style.
pub trait TransactionTypeUi {
    fn label(&self) -> &'static str;

    fn css_class(&self) -> &'static str;
}

impl TransactionType {
    /// The label the interface shows for the type.
    pub open spec fn ui_label(self) -> Seq<char> {
        match self {
            TransactionType::Income => "Recette"@,
            TransactionType::Expense => "Dépense"@,
            TransactionType::Ndf => "Note de frais"@,
        }
    }

    /// The badge style the interface gives the type.
    pub open spec fn ui_css_class(self) -> Seq<char> {
        match self {
            TransactionType::Income => "badge badge-income"@,
            TransactionType::Expense => "badge badge-expense"@,
            TransactionType::Ndf => "badge badge-ndf"@,
        }
    }
}

impl TransactionTypeUi for TransactionType {
    fn label(&self) -> (r: &'static str)
        ensures
            r@ == self.ui_label(),
    {
        match self {
            TransactionType::Income => "Recette",
            TransactionType::Expense => "Dépense",
            TransactionType::Ndf => "Note de frais",
        }
    }

    fn css_class(&self) -> (r: &'static str)
        ensures
            r@ == self.ui_css_class(),
    {
        match self {
            TransactionType::Income => "badge badge-income",
            TransactionType::Expense => "badge badge-expense",
            TransactionType::Ndf => "badge badge-ndf",
        }
    }
}

/// A recorded transaction.
#[derive(Debug, Clone, PartialEq)]
pub struct Transaction {
    pub id: i64,
    pub name: String,
    pub company: String,
    pub transaction_type: TransactionType,
    pub executed: bool,
    pub date: String,
    pub price_full_tax: Amount,
    pub tag: String,
    pub tax_amount: Amount,
    pub invoice_path: String,
}

/// A transaction about to be recorded.
#[derive(Debug, Clone, PartialEq)]
pub struct NewTransaction {
    pub name: String,
    pub company: String,
    pub transaction_type: TransactionType,
    pub executed: bool,
    pub date: String,
    pub price_full_tax: Amount,
    pub tag: String,
    pub tax_amount: Amount,
    pub invoice_path: String,
}

impl NewTransaction {
    /// The message of the first rule the transaction breaks, if any: a
    /// name, a company and a tag that are not blank, a date ten bytes
    /// long, an amount above zero.
    pub open spec fn validation_error(self) -> Option<Seq<char>> {
        if is_blank_spec(self.name@) {
            Some("le nom est obligatoire"@)
        } else if is_blank_spec(self.company@) {
            Some("la société est obligatoire"@)
        } else if vstd::utf8::encode_utf8(self.date@).len() != 10 {
            Some("la date doit être au format AAAA-MM-JJ"@)
        } else if self.price_full_tax.at_most_zero() {
            Some("le montant TTC doit être positif"@)
        } else if is_blank_spec(self.tag@) {
            Some("le tag est obligatoire"@)
        } else {
            None
        }
    }

    /// Checks the transaction; the error is the message of the first rule broken.
    pub fn validate(&self) -> (r: Result<(), String>)
        ensures
            match r {
                Ok(_) => self.validation_error() is None,
                Err(e) => self.validation_error() == Some(e@),
            },
    {
        if is_blank(self.name.as_str()) {
            return Err(owned("le nom est obligatoire"));
        }
        if is_blank(self.company.as_str()) {
            return Err(owned("la société est obligatoire"));
        }
        if byte_len(self.date.as_str()) != 10 {
            return Err(owned("la date doit être au format AAAA-MM-JJ"));
        }
        if self.price_full_tax.is_at_most_zero() {
            return Err(owned("le montant TTC doit être positif"));
        }
        if is_blank(self.tag.as_str()) {
            return Err(owned("le tag est obligatoire"));
        }
        Ok(())
    }

    /// A transaction that passes the checks has a name, a company and a
    /// tag that are not blank, a date ten bytes long and an amount above
    /// zero, whatever its type; one with a name and a blank company is
    /// refused for its company.
    pub proof fn lemma_valid_transaction(self)
        ensures
            self.validation_error() is None ==> {
                &&& !is_blank_spec(self.name@)
                &&& !is_blank_spec(self.company@)
                &&& !is_blank_spec(self.tag@)
                &&& vstd::utf8::encode_utf8(self.date@).len() == 10
                &&& !self.price_full_tax.at_most_zero()
            },
            is_blank_spec(self.company@) ==> self.validation_error() is Some,
            !is_blank_spec(self.name@) && is_blank_spec(self.company@) ==> self.validation_error()
                == Some("la société est obligatoire"@),
    {
    }

    /// A supporting document is attached when its path is not blank.
    pub fn has_justification(&self) -> (r: bool)
        ensures
            r == !is_blank_spec(self.invoice_path@),
    {
        !is_blank(self.invoice_path.as_str())
    }
}

impl From<NewTransaction> for Transaction {
    fn from(value: NewTransaction) -> (r: Transaction) {
        Transaction {
            id: 0,
            name: value.name,
            company: value.company,
            transaction_type: value.transaction_type,
            executed: value.executed,
            date: value.date,
            price_full_tax: value.price_full_tax,
            tag: value.tag,
            tax_amount: value.tax_amount,
            invoice_path: value.invoice_path,
        }
    }
}

impl vstd::std_specs::convert::FromSpecImpl<NewTransaction> for Transaction {
    open spec fn obeys_from_spec() -> bool {
        true
    }

    open spec fn from_spec(v: NewTransaction) -> Transaction {
        Transaction {
            id: 0,
            name: v.name,
            company: v.company,
            transaction_type: v.transaction_type,
            executed: v.executed,
            date: v.date,
            price_full_tax: v.price_full_tax,
            tag: v.tag,
            tax_amount: v.tax_amount,
            invoice_path: v.invoice_path,
        }
    }
}

/// Where an uploaded supporting document was stored.
#[derive(Debug, Clone, PartialEq)]
pub struct UploadResponse {
    pub path: String,
}


/// An `AAAA-MM-JJ` date as the filter accepts it: ten bytes, with `-` as
/// the fifth and the eighth.
pub open spec fn is_iso_date(s: Seq<char>) -> bool {
    let b = vstd::utf8::encode_utf8(s);
    b.len() == 10 && b[4] == 45u8 && b[7] == 45u8
}

fn is_iso_date_exec(s: &str) -> (r: bool)
    ensures
        r == is_iso_date(s@),
{
    let b = s.as_bytes();
    b.len() == 10 && b[4] == 45u8 && b[7] == 45u8
}

/// A date range; an absent or empty bound does not restrict.
#[derive(Debug, Clone, Default, PartialEq, Eq)]
pub struct DateFilter {
    pub from: Option<String>,
    pub to: Option<String>,
}

/// A bound is given: it is set and not empty.
pub open spec fn given(bound: Option<String>) -> bool {
    bound is Some && bound->0@.len() > 0
}

/// Each bound of the filter that is given is a date.
pub open spec fn dates_where_given(filter: DateFilter) -> bool {
    &&& given(filter.from) ==> is_iso_date(filter.from->0@)
    &&& given(filter.to) ==> is_iso_date(filter.to->0@)
}

impl DateFilter {
    /// The lower bound, when it is there and not empty.
    pub open spec fn from_bound(self) -> Option<Seq<char>> {
        non_empty(opt_view(self.from))
    }

    /// The upper bound, when it is there and not empty.
    pub open spec fn to_bound(self) -> Option<Seq<char>> {
        non_empty(opt_view(self.to))
    }

    /// The message for the first problem of the filter, if any: a bound
    /// that is not a date, then a lower bound that sorts after the upper one.
    pub open spec fn validation_error(self) -> Option<Seq<char>> {
        let from = self.from_bound();
        let to = self.to_bound();
        if from is Some && !is_iso_date(from->0) {
            Some("invalid 'from' date: "@ + from->0)
        } else if to is Some && !is_iso_date(to->0) {
            Some("invalid 'to' date: "@ + to->0)
        } else if from is Some && to is Some && lex_less(
            vstd::utf8::encode_utf8(to->0),
            vstd::utf8::encode_utf8(from->0),
        ) {
            Some("'from' ("@ + from->0 + ") must be before or equal to 'to' ("@ + to->0 + ")"@)
        } else {
            None
        }
    }

    /// Checks both bounds and their order.
    pub fn validate(&self) -> (r: Result<(), String>)
        ensures
            match r {
                Ok(_) => self.validation_error() is None,
                Err(e) => self.validation_error() == Some(e@),
            },
    {
        if let Some(from) = &self.from {
            if !from.as_str().is_empty() && !is_iso_date_exec(from.as_str()) {
                let mut e = owned("invalid 'from' date: ");
                e.append(from.as_str());
                return Err(e);
            }
        }
        if let Some(to) = &self.to {
            if !to.as_str().is_empty() && !is_iso_date_exec(to.as_str()) {
                let mut e = owned("invalid 'to' date: ");
                e.append(to.as_str());
                return Err(e);
            }
        }
        if let Some(from) = &self.from {
            if let Some(to) = &self.to {
                if !from.as_str().is_empty() && !to.as_str().is_empty() && str_less(
                    to.as_str(),
                    from.as_str(),
                ) {
                    let mut e = owned("'from' (");
                    e.append(from.as_str());
                    e.append(") must be before or equal to 'to' (");
                    e.append(to.as_str());
                    e.append(")");
                    return Err(e);
                }
            }
        }
        Ok(())
    }

    /// A filter whose bounds, where set and not empty, are dates passes when
    /// at most one bound is given; with both given it passes exactly when
    /// the lower one does not sort after the upper one. The order is only
    /// ever refused when both bounds are there.
    pub proof fn lemma_date_filter_bounds(self)
        ensures
            given(self.from) && !is_iso_date(self.from->0@) ==> self.validation_error() is Some,
            given(self.to) && !is_iso_date(self.to->0@) ==> self.validation_error() is Some,
            dates_where_given(self) && !(given(self.from) && given(self.to))
                ==> self.validation_error() is None,
            dates_where_given(self) && given(self.from) && given(self.to) ==> (
            self.validation_error() is None <==> !lex_less(
                vstd::utf8::encode_utf8(self.to->0@),
                vstd::utf8::encode_utf8(self.from->0@),
            )),
    {
    }

    /// The query parameters the filter puts in a URL.
    pub open spec fn query_params(self) -> Seq<Seq<char>> {
        (if self.from_bound() is Some {
            seq!["from="@ + self.from_bound()->0]
        } else {
            Seq::empty()
        }) + (if self.to_bound() is Some {
            seq!["to="@ + self.to_bound()->0]
        } else {
            Seq::empty()
        })
    }

    /// `?from=…&to=…` with the bounds that are set, or nothing.
    pub fn to_query_string(&self) -> (r: String)
        ensures
            r@ == query_string(self.query_params()),
    {
        let mut params: Vec<String> = Vec::new();
        if let Some(from) = &self.from {
            if !from.as_str().is_empty() {
                let mut p = owned("from=");
                p.append(from.as_str());
                params.push(p);
            }
        }
        if let Some(to) = &self.to {
            if !to.as_str().is_empty() {
                let mut p = owned("to=");
                p.append(to.as_str());
                params.push(p);
            }
        }
        assert(views(params@) =~= self.query_params());
        query_from_params(&params)
    }

    /// The lower bound as the date input shows it, empty when unset.
    pub fn from_input_value(&self) -> (r: &str)
        ensures
            r@ == input_text(self.from),
    {
        match &self.from {
            Some(s) => s.as_str(),
            None => {
                proof {
                    reveal_strlit("");
                }
                ""
            },
        }
    }

    /// The upper bound as the date input shows it, empty when unset.
    pub fn to_input_value(&self) -> (r: &str)
        ensures
            r@ == input_text(self.to),
    {
        match &self.to {
            Some(s) => s.as_str(),
            None => {
                proof {
                    reveal_strlit("");
                }
                ""
            },
        }
    }

    /// Sets the lower bound from the date input; an empty input clears it.
    pub fn set_from_input(&mut self, value: &str)
        ensures
            opt_view(final(self).from) == non_empty(Some(value@)),
            final(self).to == old(self).to,
    {
        self.from = non_empty_option(value);
    }

    /// Sets the upper bound from the date input; an empty input clears it.
    pub fn set_to_input(&mut self, value: &str)
        ensures
            opt_view(final(self).to) == non_empty(Some(value@)),
            final(self).from == old(self).from,
    {
        self.to = non_empty_option(value);
    }

    /// The sentence that describes the active range, if a bound is set.
    pub open spec fn active_label_spec(self) -> Option<Seq<char>> {
        match (self.from_bound(), self.to_bound()) {
            (Some(from), Some(to)) => Some("Période : "@ + from + " → "@ + to),
            (Some(from), None) => Some("À partir du "@ + from),
            (None, Some(to)) => Some("Jusqu'au "@ + to),
            (None, None) => None,
        }
    }

    /// Describes the active range in a sentence, or `None` when nothing is set.
    pub fn active_label(&self) -> (r: Option<String>)
        ensures
            opt_view(r) == self.active_label_spec(),
    {
        let from: Option<&str> = match &self.from {
            Some(s) => if s.as_str().is_empty() {
                None
            } else {
                Some(s.as_str())
            },
            None => None,
        };
        let to: Option<&str> = match &self.to {
            Some(s) => if s.as_str().is_empty() {
                None
            } else {
                Some(s.as_str())
            },
            None => None,
        };
        match (from, to) {
            (Some(from), Some(to)) => {
                let mut label = owned("Période : ");
                label.append(from);
                label.append(" → ");
                label.append(to);
                Some(label)
            },
            (Some(from), None) => {
                let mut label = owned("À partir du ");
                label.append(from);
                Some(label)
            },
            (None, Some(to)) => {
                let mut label = owned("Jusqu'au ");
                label.append(to);
                Some(label)
            },
            (None, None) => None,
        }
    }
}

/// `None` for the empty text, else an owned copy.
pub fn non_empty_option(value: &str) -> (r: Option<String>)
    ensures
        opt_view(r) == non_empty(Some(value@)),
{
    if value.is_empty() {
        None
    } else {
        Some(owned(value))
    }
}

/// What a date input shows for a bound: its text, or nothing when unset.
pub open spec fn input_text(o: Option<String>) -> Seq<char> {
    match o {
        Some(s) => s@,
        None => Seq::empty(),
    }
}

/// A date input shows back exactly what was typed into it: an empty input
/// clears the bound, and an unset bound shows as empty.
pub proof fn lemma_date_input_round_trip(bound: Option<String>, value: Seq<char>)
    requires
        opt_view(bound) == non_empty(Some(value)),
    ensures
        input_text(bound) == value,
{
}


/// Whether a company buys from the band, sells to it, or both.
#[derive(Debug, Clone, Copy, PartialEq, Eq, Structural)]
pub enum ContactKind {
    Client,
    Provider,
    Both,
}

impl ContactKind {
    /// The name that stands for the kind in URLs and forms.
    pub open spec fn name_spec(self) -> Seq<char> {
        match self {
            ContactKind::Client => "CLIENT"@,
            ContactKind::Provider => "PROVIDER"@,
            ContactKind::Both => "BOTH"@,
        }
    }

    /// The name that stands for the kind in URLs and forms.
    pub fn name(&self) -> (r: &'static str)
        ensures
            r@ == self.name_spec(),
    {
        match self {
            ContactKind::Client => "CLIENT",
            ContactKind::Provider => "PROVIDER",
            ContactKind::Both => "BOTH",
        }
    }
}

impl ContactKind {
    /// The number that stands for the value in storage.
    pub open spec fn code_spec(self) -> i64 {
        match self {
            ContactKind::Client => 0,
            ContactKind::Provider => 1,
            ContactKind::Both => 2,
        }
    }

    /// The number that stands for the kind in storage.
    pub fn code(&self) -> (r: i64)
        ensures
            r == self.code_spec(),
    {
        match self {
            ContactKind::Client => 0,
            ContactKind::Provider => 1,
            ContactKind::Both => 2,
        }
    }
}

impl ContactKind {
    /// The name shown for the kind.
    pub open spec fn label_spec(self) -> Seq<char> {
        match self {
            ContactKind::Client => "Client"@,
            ContactKind::Provider => "Prestataire"@,
            ContactKind::Both => "Client & prestataire"@,
        }
    }

    /// The name shown for the kind.
    pub fn label(&self) -> (r: &'static str)
        ensures
            r@ == self.label_spec(),
    {
        match self {
            ContactKind::Client => "Client",
            ContactKind::Provider => "Prestataire",
            ContactKind::Both => "Client & prestataire",
        }
    }
}

impl TransactionType {
    /// The kinds of company a transaction of this type is made with: money
    /// comes in from clients and goes out to providers.
    pub open spec fn preferred_contact_kinds_spec(self) -> Seq<ContactKind> {
        match self {
            TransactionType::Income => seq![ContactKind::Client],
            TransactionType::Expense => seq![ContactKind::Provider],
            TransactionType::Ndf => seq![ContactKind::Provider],
        }
    }

    /// The kinds of company the entry form offers for this type.
    pub fn preferred_contact_kinds(&self) -> (r: Vec<ContactKind>)
        ensures
            r@ == self.preferred_contact_kinds_spec(),
    {
        let mut kinds: Vec<ContactKind> = Vec::new();
        match self {
            TransactionType::Income => kinds.push(ContactKind::Client),
            TransactionType::Expense => kinds.push(ContactKind::Provider),
            TransactionType::Ndf => kinds.push(ContactKind::Provider),
        }
        assert(kinds@ =~= self.preferred_contact_kinds_spec());
        kinds
    }
}

/// The kind a stored number stands for, if any.
pub fn contact_kind_from_code(code: i64) -> (r: Option<ContactKind>)
    ensures
        match r {
            Some(k) => k.code_spec() == code,
            None => code < 0 || code > 2,
        },
{
    match code {
        0 => Some(ContactKind::Client),
        1 => Some(ContactKind::Provider),
        2 => Some(ContactKind::Both),
        _ => None,
    }
}

/// A company the band deals with.
#[derive(Debug, Clone, PartialEq)]
pub struct Contact {
    pub id: i64,
    pub name: String,
    pub kind: ContactKind,
    pub email: String,
    pub notes: String,
}

/// A company about to be added.
#[derive(Debug, Clone, PartialEq)]
pub struct NewContact {
    pub name: String,
    pub kind: ContactKind,
    pub email: String,
    pub notes: String,
}

impl NewContact {
    /// The message of the first rule the value breaks, if any.
    pub open spec fn validation_error(self) -> Option<Seq<char>> {
        if is_blank_spec(self.name@) {
            Some("le nom est obligatoire"@)
        } else {
            None
        }
    }

    /// A company needs a name that is not blank.
    pub fn validate(&self) -> (r: Result<(), String>)
        ensures
            match r {
                Ok(_) => self.validation_error() is None,
                Err(e) => self.validation_error() == Some(e@),
            },
    {
        if is_blank(self.name.as_str()) {
            return Err(owned("le nom est obligatoire"));
        }
        Ok(())
    }
}

/// Which companies to list: all of them, or those of one kind.
#[derive(Debug, Clone, Default, PartialEq, Eq)]
pub struct ContactFilter {
    pub kind: Option<ContactKind>,
}

impl ContactFilter {
    /// The query the filter puts in a URL.
    pub open spec fn query_spec(self) -> Seq<char> {
        match self.kind {
            Some(k) => "?kind="@ + k.name_spec(),
            None => Seq::empty(),
        }
    }

    /// `?kind=…` when a kind is asked for, else nothing.
    pub fn to_query_string(&self) -> (r: String)
        ensures
            r@ == self.query_spec(),
    {
        match self.kind {
            Some(k) => {
                let mut q = owned("?kind=");
                q.append(k.name());
                q
            },
            None => String::new(),
        }
    }
}

/// A label that transactions are filed under.
#[derive(Debug, Clone, PartialEq)]
pub struct Tag {
    pub id: i64,
    pub name: String,
}

/// A tag about to be added.
#[derive(Debug, Clone, PartialEq)]
pub struct NewTag {
    pub name: String,
}

impl NewTag {
    /// The message of the first rule the value breaks, if any.
    pub open spec fn validation_error(self) -> Option<Seq<char>> {
        if is_blank_spec(self.name@) {
            Some("le nom est obligatoire"@)
        } else {
            None
        }
    }

    /// A tag needs a name that is not blank.
    pub fn validate(&self) -> (r: Result<(), String>)
        ensures
            match r {
                Ok(_) => self.validation_error() is None,
                Err(e) => self.validation_error() == Some(e@),
            },
    {
        if is_blank(self.name.as_str()) {
            return Err(owned("le nom est obligatoire"));
        }
        Ok(())
    }
}

/// The tags a new ledger starts with.
pub const PREDEFINED_TAGS: [&'static str; 4] = ["Concert", "Transport", "Merch", "Restauration"];

} // verus!
