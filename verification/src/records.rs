//! Transaction rows of the older storage schema, where most columns may be
//! empty and the executed flag is a number.
use vstd::prelude::*;
use crate::models::Amount;
use crate::text::owned;

verus! {

/// The views of an optional text.
pub open spec fn opt_str_view(o: Option<&str>) -> Option<Seq<char>> {
    match o {
        Some(s) => Some(s@),
        None => None,
    }
}

/// A transaction row of the older schema.
#[derive(Debug, Clone, PartialEq)]
pub struct Transaction {
    pub id: i32,
    pub name: String,
    pub company: Option<String>,
    pub executed: i32,
    pub exec_date: Option<String>,
    pub price_full_tax: Amount,
    pub tax_amount: Option<Amount>,
    pub tag: Option<String>,
    pub invoice_path: Option<String>,
}

/// The stored executed flag: 1 when the transaction was said executed
/// with the value 1, else 0.
pub open spec fn executed_flag(execute: Option<i32>) -> i32 {
    match execute {
        Some(e) => if e == 1 {
            1
        } else {
            0
        },
        None => 0,
    }
}

fn owned_option(o: Option<&str>) -> (r: Option<String>)
    ensures
        crate::models::opt_view(r) == opt_str_view(o),
{
    match o {
        Some(s) => Some(owned(s)),
        None => None,
    }
}

impl Transaction {
    /// The row for a new transaction; the executed flag keeps only whether
    /// it was given as 1.
    pub fn new_transaction_struct(
        id: i32,
        name: &str,
        company: Option<&str>,
        execute: Option<i32>,
        exec_date: Option<&str>,
        price_full_tax: Amount,
        tax_amount: Option<Amount>,
        tag: Option<String>,
        invoice_path: Option<String>,
    ) -> (r: Transaction)
        ensures
            r.id == id,
            r.name@ == name@,
            crate::models::opt_view(r.company) == opt_str_view(company),
            r.executed == executed_flag(execute),
            crate::models::opt_view(r.exec_date) == opt_str_view(exec_date),
            r.price_full_tax == price_full_tax,
            r.tax_amount == tax_amount,
            r.tag == tag,
            r.invoice_path == invoice_path,
    {
        Transaction {
            id: id,
            name: owned(name),
            company: owned_option(company),
            executed: match execute {
                Some(e) => if e == 1 {
                    1
                } else {
                    0
                },
                None => 0,
            },
            exec_date: owned_option(exec_date),
            price_full_tax: price_full_tax,
            tax_amount: tax_amount,
            tag: tag,
            invoice_path: invoice_path,
        }
    }
}

} // verus!
