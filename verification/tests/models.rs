use bandcompta::models::{non_empty_option, transaction_type_value};
use bandcompta::{
    parse_transaction_type, Amount, ContactFilter, ContactKind, DateFilter, NewContact, NewTag,
    NewTransaction, Transaction, TransactionType, TransactionTypeUi,
};

fn amount(value: f32) -> Amount {
    Amount(value.to_bits())
}

fn sample() -> NewTransaction {
    NewTransaction {
        name: "Cachet festival".into(),
        company: "Les Nuits Sonores".into(),
        transaction_type: TransactionType::Income,
        executed: true,
        date: "2025-06-15".into(),
        price_full_tax: amount(2500.0),
        tag: "Concert".into(),
        tax_amount: amount(20.0),
        invoice_path: "/invoices/2025-06-festival.pdf".into(),
    }
}

fn filter(from: Option<&str>, to: Option<&str>) -> DateFilter {
    DateFilter {
        from: from.map(|s| s.to_string()),
        to: to.map(|s| s.to_string()),
    }
}

#[test]
fn justification_labels() {
    assert_eq!(TransactionType::Income.justification_label(), "Justificatif de recette");
    assert_eq!(TransactionType::Expense.justification_label(), "Facture");
    assert_eq!(TransactionType::Ndf.justification_label(), "Justificatif");
}

#[test]
fn transaction_type_ui_labels_and_badges() {
    assert_eq!(TransactionType::Income.label(), "Recette");
    assert_eq!(TransactionType::Expense.label(), "Dépense");
    assert_eq!(TransactionType::Ndf.label(), "Note de frais");
    assert_eq!(TransactionType::Income.css_class(), "badge badge-income");
    assert_eq!(TransactionType::Expense.css_class(), "badge badge-expense");
    assert_eq!(TransactionType::Ndf.css_class(), "badge badge-ndf");
}

#[test]
fn parse_transaction_type_reads_selector_values() {
    assert_eq!(parse_transaction_type("INCOME"), TransactionType::Income);
    assert_eq!(parse_transaction_type("NDF"), TransactionType::Ndf);
    assert_eq!(parse_transaction_type("EXPENSE"), TransactionType::Expense);
    assert_eq!(parse_transaction_type("income"), TransactionType::Expense);
    assert_eq!(parse_transaction_type(""), TransactionType::Expense);
}

#[test]
fn transaction_type_selector_round_trip() {
    for t in [TransactionType::Income, TransactionType::Expense, TransactionType::Ndf] {
        assert_eq!(parse_transaction_type(transaction_type_value(t)), t);
    }
}

#[test]
fn amount_sign_checks() {
    assert!(amount(0.0).is_at_most_zero());
    assert!(amount(-0.0).is_at_most_zero());
    assert!(amount(-3.5).is_at_most_zero());
    assert!(amount(f32::NEG_INFINITY).is_at_most_zero());
    assert!(!amount(0.01).is_at_most_zero());
    assert!(!amount(f32::INFINITY).is_at_most_zero());
    assert!(!amount(f32::NAN).is_at_most_zero());
    assert!(!Amount(0xFFC0_0000).is_at_most_zero());
}

#[test]
fn new_transaction_validates() {
    assert_eq!(sample().validate(), Ok(()));
}

#[test]
fn new_transaction_errors_in_order() {
    let mut t = sample();
    t.name = "  \t".into();
    t.company = "".into();
    assert_eq!(t.validate(), Err("le nom est obligatoire".to_string()));

    let mut t = sample();
    t.company = "\u{3000}".into();
    assert_eq!(t.validate(), Err("la société est obligatoire".to_string()));

    let mut t = sample();
    t.date = "2025-6-15".into();
    assert_eq!(t.validate(), Err("la date doit être au format AAAA-MM-JJ".to_string()));

    let mut t = sample();
    t.date = "2025-06-1é".into();
    assert_eq!(t.validate(), Err("la date doit être au format AAAA-MM-JJ".to_string()));

    let mut t = sample();
    t.price_full_tax = amount(0.0);
    assert_eq!(t.validate(), Err("le montant TTC doit être positif".to_string()));

    let mut t = sample();
    t.price_full_tax = amount(-12.0);
    assert_eq!(t.validate(), Err("le montant TTC doit être positif".to_string()));

    let mut t = sample();
    t.tag = " ".into();
    assert_eq!(t.validate(), Err("le tag est obligatoire".to_string()));
}

#[test]
fn new_transaction_nan_amount_passes_like_a_float_comparison() {
    let mut t = sample();
    t.price_full_tax = amount(f32::NAN);
    assert_eq!(t.validate(), Ok(()));
}

#[test]
fn new_transaction_justification() {
    assert!(sample().has_justification());
    let mut t = sample();
    t.invoice_path = "   ".into();
    assert!(!t.has_justification());
}

#[test]
fn transaction_from_new_transaction() {
    let n = sample();
    let t: Transaction = Transaction::from(n.clone());
    assert_eq!(t.id, 0);
    assert_eq!(t.name, n.name);
    assert_eq!(t.company, n.company);
    assert_eq!(t.transaction_type, n.transaction_type);
    assert_eq!(t.executed, n.executed);
    assert_eq!(t.date, n.date);
    assert_eq!(t.price_full_tax, n.price_full_tax);
    assert_eq!(t.tag, n.tag);
    assert_eq!(t.tax_amount, n.tax_amount);
    assert_eq!(t.invoice_path, n.invoice_path);
}

#[test]
fn date_filter_validation() {
    assert_eq!(filter(None, None).validate(), Ok(()));
    assert_eq!(filter(Some(""), Some("")).validate(), Ok(()));
    assert_eq!(filter(Some("2025-06-01"), Some("2025-06-30")).validate(), Ok(()));
    assert_eq!(filter(Some("2025-06-30"), Some("2025-06-30")).validate(), Ok(()));
    assert_eq!(
        filter(Some("2025/06/01"), None).validate(),
        Err("invalid 'from' date: 2025/06/01".to_string())
    );
    assert_eq!(
        filter(Some("2025-06-01"), Some("june")).validate(),
        Err("invalid 'to' date: june".to_string())
    );
    assert_eq!(
        filter(Some("bad"), Some("worse")).validate(),
        Err("invalid 'from' date: bad".to_string())
    );
    assert_eq!(
        filter(Some("2025-06-30"), Some("2025-06-01")).validate(),
        Err("'from' (2025-06-30) must be before or equal to 'to' (2025-06-01)".to_string())
    );
}

#[test]
fn date_filter_query_string() {
    assert_eq!(filter(None, None).to_query_string(), "");
    assert_eq!(filter(Some(""), Some("")).to_query_string(), "");
    assert_eq!(filter(Some("2025-01-01"), None).to_query_string(), "?from=2025-01-01");
    assert_eq!(filter(None, Some("2025-12-31")).to_query_string(), "?to=2025-12-31");
    assert_eq!(
        filter(Some("2025-01-01"), Some("2025-12-31")).to_query_string(),
        "?from=2025-01-01&to=2025-12-31"
    );
}

#[test]
fn date_filter_inputs() {
    let mut f = DateFilter::default();
    assert_eq!(f.from_input_value(), "");
    assert_eq!(f.to_input_value(), "");
    f.set_from_input("2025-01-01");
    f.set_to_input("2025-02-01");
    assert_eq!(f.from_input_value(), "2025-01-01");
    assert_eq!(f.to_input_value(), "2025-02-01");
    assert_eq!(f.from, Some("2025-01-01".to_string()));
    f.set_from_input("");
    assert_eq!(f.from, None);
    assert_eq!(f.from_input_value(), "");
    assert_eq!(f.to, Some("2025-02-01".to_string()));
}

#[test]
fn date_input_shows_back_what_was_typed() {
    for value in ["", "2025-03-04", "  "] {
        let mut f = filter(Some("2024-01-01"), Some("2024-12-31"));
        f.set_from_input(value);
        assert_eq!(f.from_input_value(), value);
        f.set_to_input(value);
        assert_eq!(f.to_input_value(), value);
    }
}

#[test]
fn date_filter_active_label() {
    assert_eq!(filter(None, None).active_label(), None);
    assert_eq!(filter(Some(""), Some("")).active_label(), None);
    assert_eq!(
        filter(Some("2025-01-01"), Some("2025-02-01")).active_label(),
        Some("Période : 2025-01-01 → 2025-02-01".to_string())
    );
    assert_eq!(
        filter(Some("2025-01-01"), None).active_label(),
        Some("À partir du 2025-01-01".to_string())
    );
    assert_eq!(
        filter(Some(""), Some("2025-02-01")).active_label(),
        Some("Jusqu'au 2025-02-01".to_string())
    );
}

#[test]
fn non_empty_option_values() {
    assert_eq!(non_empty_option(""), None);
    assert_eq!(non_empty_option(" "), Some(" ".to_string()));
}

#[test]
fn contact_filter_query_string() {
    assert_eq!(ContactFilter::default().to_query_string(), "");
    assert_eq!(ContactFilter { kind: Some(ContactKind::Client) }.to_query_string(), "?kind=CLIENT");
    assert_eq!(ContactFilter { kind: Some(ContactKind::Provider) }.to_query_string(), "?kind=PROVIDER");
    assert_eq!(ContactFilter { kind: Some(ContactKind::Both) }.to_query_string(), "?kind=BOTH");
}

#[test]
fn contact_and_tag_validation() {
    let contact = NewContact {
        name: "Europcar".into(),
        kind: ContactKind::Provider,
        email: "".into(),
        notes: "".into(),
    };
    assert_eq!(contact.validate(), Ok(()));
    let blank = NewContact { name: " ".into(), ..contact };
    assert_eq!(blank.validate(), Err("le nom est obligatoire".to_string()));
    assert_eq!(NewTag { name: "Merch".into() }.validate(), Ok(()));
    assert_eq!(NewTag { name: "".into() }.validate(), Err("le nom est obligatoire".to_string()));
}

#[test]
fn input_text_of_bounds() {
    assert_eq!(input_text_value(None), "");
    assert_eq!(input_text_value(Some("x")), "x");
}

fn input_text_value(bound: Option<&str>) -> String {
    let f = filter(bound, None);
    f.from_input_value().to_string()
}

#[test]
fn amounts_compare_as_numbers() {
    let zero = Amount(0.0f32.to_bits());
    let minus_zero = Amount((-0.0f32).to_bits());
    let nan = Amount(f32::NAN.to_bits());
    let price = Amount(25.0f32.to_bits());
    assert!(zero == minus_zero);
    assert!(nan != nan);
    assert!(price == Amount(25.0f32.to_bits()));
    assert!(price != Amount(25.5f32.to_bits()));
    for (a, b) in [(0.0f32, -0.0f32), (f32::NAN, f32::NAN), (1.5, 1.5), (1.5, -1.5), (f32::INFINITY, f32::INFINITY), (0.0, f32::MIN_POSITIVE)] {
        assert_eq!(Amount(a.to_bits()) == Amount(b.to_bits()), a == b);
    }
}
