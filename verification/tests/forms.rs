use bandcompta::forms::{
    LoadState,
    build_attributes, contact_kind_matches, kind_badge_class, normalize_decimal,
    parse_contact_kind, product_kind_value, stock_delta, submit_action, variant_payload,
    ContactForm, FormState, ProductForm, StockAdjustForm, SubmitAction, VariantForm,
};
use bandcompta::{
    validate_attributes_for_kind, Amount, Contact, ContactKind, ProductKind, TransactionType,
    VariantOption,
};

fn amount(value: f32) -> Amount {
    Amount(value.to_bits())
}

fn filled_form() -> FormState {
    FormState {
        name: "Location van".into(),
        company: "Europcar".into(),
        date: "2025-06-10".into(),
        price_full_tax: "420,50".into(),
        tag: "Transport".into(),
        ..FormState::default()
    }
}

fn contact(kind: ContactKind) -> Contact {
    Contact { id: 1, name: "X".into(), kind, email: "".into(), notes: "".into() }
}

#[test]
fn form_defaults() {
    let f = FormState::default();
    assert_eq!(f.transaction_type, TransactionType::Expense);
    assert_eq!(f.tax_amount, "20");
    assert!(!f.executed && !f.uploading_file);
    assert!(f.name.is_empty() && f.invoice_path.is_empty());
    let c = ContactForm::default();
    assert_eq!(c.kind, ContactKind::Provider);
    assert!(c.name.is_empty());
    let p = ProductForm::default();
    assert_eq!(p.kind, ProductKind::Tshirt);
    assert_eq!(VariantForm::default().sku, "");
}

#[test]
fn amounts_take_a_decimal_point() {
    assert_eq!(normalize_decimal("420,50"), "420.50");
    assert_eq!(normalize_decimal("1,2,3"), "1.2.3");
    assert_eq!(normalize_decimal("12.5"), "12.5");
    assert_eq!(normalize_decimal(""), "");
}

#[test]
fn form_to_transaction() {
    let f = filled_form();
    let t = f.to_new_transaction(Some(amount(420.5)), Some(amount(20.0))).unwrap();
    assert_eq!(t.name, "Location van");
    assert_eq!(t.company, "Europcar");
    assert_eq!(t.price_full_tax, amount(420.5));
    assert_eq!(t.tax_amount, amount(20.0));
    assert_eq!(t.transaction_type, TransactionType::Expense);
    assert_eq!(f.to_new_transaction(None, Some(amount(20.0))), Err("montant TTC invalide".to_string()));
    assert_eq!(f.to_new_transaction(Some(amount(1.0)), None), Err("TVA invalide".to_string()));
    assert_eq!(f.to_new_transaction(None, None), Err("montant TTC invalide".to_string()));
    assert_eq!(
        f.to_new_transaction(Some(amount(-1.0)), Some(amount(20.0))),
        Err("le montant TTC doit être positif".to_string())
    );
    let unnamed = FormState { name: "".into(), ..filled_form() };
    assert_eq!(
        unnamed.to_new_transaction(Some(amount(1.0)), Some(amount(20.0))),
        Err("le nom est obligatoire".to_string())
    );
}

#[test]
fn submitting_the_form() {
    let f = filled_form();
    assert_eq!(submit_action(&f), SubmitAction::Confirm);
    assert!(!f.has_justification());
    let attached = FormState { invoice_path: "/invoices/a.pdf".into(), ..filled_form() };
    assert!(attached.has_justification());
    assert_eq!(submit_action(&attached), SubmitAction::Send);
    let uploading = FormState { uploading_file: true, ..attached };
    assert_eq!(submit_action(&uploading), SubmitAction::Wait);
    let spaces = FormState { invoice_path: " ".into(), ..filled_form() };
    assert_eq!(submit_action(&spaces), SubmitAction::Send);
}

#[test]
fn contact_kinds() {
    assert_eq!(parse_contact_kind("CLIENT"), ContactKind::Client);
    assert_eq!(parse_contact_kind("PROVIDER"), ContactKind::Provider);
    assert_eq!(parse_contact_kind("BOTH"), ContactKind::Both);
    assert_eq!(parse_contact_kind("client"), ContactKind::Provider);
    for k in [ContactKind::Client, ContactKind::Provider, ContactKind::Both] {
        assert_eq!(parse_contact_kind(k.name()), k);
    }
    assert_eq!(kind_badge_class(ContactKind::Client), "badge badge-income");
    assert_eq!(kind_badge_class(ContactKind::Provider), "badge badge-expense");
    assert_eq!(kind_badge_class(ContactKind::Both), "badge badge-ndf");
}

#[test]
fn contact_kind_matching() {
    assert!(contact_kind_matches(&contact(ContactKind::Client), &[ContactKind::Client]));
    assert!(!contact_kind_matches(&contact(ContactKind::Client), &[ContactKind::Provider]));
    assert!(!contact_kind_matches(&contact(ContactKind::Provider), &[]));
    assert!(contact_kind_matches(&contact(ContactKind::Both), &[]));
    assert!(contact_kind_matches(&contact(ContactKind::Both), &[ContactKind::Client]));
}

#[test]
fn contact_form_payload() {
    let f = ContactForm { name: "Sanef".into(), ..ContactForm::default() };
    let c = f.to_new_contact();
    assert_eq!(c.name, "Sanef");
    assert_eq!(c.kind, ContactKind::Provider);
}

#[test]
fn product_kind_values() {
    assert_eq!(product_kind_value(ProductKind::Tshirt), "TSHIRT");
    assert_eq!(product_kind_value(ProductKind::Patch), "PATCH");
    assert_eq!(product_kind_value(ProductKind::Pin), "PIN");
    assert_eq!(product_kind_value(ProductKind::Print), "PRINT");
    assert_eq!(product_kind_value(ProductKind::Album), "ALBUM");
}

#[test]
fn attributes_built_from_the_variant_form() {
    let form = VariantForm {
        color: "Noir".into(),
        size: "M".into(),
        format: "Vinyle".into(),
        vinyl_color: "Rouge".into(),
        ..VariantForm::default()
    };
    let t = build_attributes(ProductKind::Tshirt, &form);
    assert_eq!(t.len(), 2);
    assert_eq!((t[0].option, t[0].value.as_str()), (VariantOption::Color, "Noir"));
    assert_eq!((t[1].option, t[1].value.as_str()), (VariantOption::Size, "M"));
    let a = build_attributes(ProductKind::Album, &form);
    assert_eq!(a.len(), 2);
    assert_eq!((a[1].option, a[1].value.as_str()), (VariantOption::VinylColor, "Rouge"));
    let cd = VariantForm { format: "CD".into(), ..form.clone() };
    assert_eq!(build_attributes(ProductKind::Album, &cd).len(), 1);
    let p = build_attributes(ProductKind::Print, &cd);
    assert_eq!((p[0].option, p[0].value.as_str()), (VariantOption::Format, "CD"));
    assert!(build_attributes(ProductKind::Pin, &form).is_empty());
    assert!(build_attributes(ProductKind::Patch, &form).is_empty());
}

#[test]
fn built_attributes_pass_exactly_when_the_form_is_filled() {
    let full = VariantForm {
        color: "Noir".into(),
        size: "M".into(),
        format: "Vinyle".into(),
        vinyl_color: "Rouge".into(),
        ..VariantForm::default()
    };
    for kind in [ProductKind::Tshirt, ProductKind::Album, ProductKind::Print, ProductKind::Pin, ProductKind::Patch] {
        assert_eq!(validate_attributes_for_kind(kind, &build_attributes(kind, &full)), Ok(()));
    }
    let no_vinyl_color = VariantForm { vinyl_color: " ".into(), ..full.clone() };
    assert!(validate_attributes_for_kind(ProductKind::Album, &build_attributes(ProductKind::Album, &no_vinyl_color)).is_err());
    let no_size = VariantForm { size: "".into(), ..full.clone() };
    assert!(validate_attributes_for_kind(ProductKind::Tshirt, &build_attributes(ProductKind::Tshirt, &no_size)).is_err());
}

#[test]
fn variant_payloads() {
    let form = VariantForm {
        sku: "TSH-Noir-M".into(),
        stock_quantity: "12".into(),
        color: "Noir".into(),
        size: "M".into(),
        ..VariantForm::default()
    };
    let v = variant_payload(ProductKind::Tshirt, &form, amount(25.0));
    assert_eq!(v.sku, "TSH-Noir-M");
    assert_eq!(v.stock_quantity, 12);
    assert_eq!(v.unit_price, amount(25.0));
    assert_eq!(v.attributes.len(), 2);
    let bad = VariantForm { stock_quantity: "douze".into(), ..form };
    assert_eq!(variant_payload(ProductKind::Tshirt, &bad, Amount(0)).stock_quantity, 0);
}

#[test]
fn stock_deltas_from_the_form() {
    let f = |s: &str| StockAdjustForm { delta: s.into(), note: "".into() };
    assert_eq!(stock_delta(&f("-3")), Ok(-3));
    assert_eq!(stock_delta(&f("10")), Ok(10));
    assert_eq!(stock_delta(&f("0")), Err("Indiquez une variation non nulle.".to_string()));
    assert_eq!(stock_delta(&f("")), Err("Indiquez une variation non nulle.".to_string()));
    assert_eq!(stock_delta(&f("2.5")), Err("Indiquez une variation non nulle.".to_string()));
}

#[test]
fn pages_start_loading() {
    let state: LoadState<Vec<i64>> = LoadState::default();
    assert_eq!(state, LoadState::Loading);
    assert_ne!(LoadState::Ready(vec![1i64]), LoadState::Loading);
    assert_ne!(LoadState::<i64>::Error("x".into()), LoadState::Loading);
}
