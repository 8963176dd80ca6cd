use bandcompta::invoices::{is_upload_field, missing_file_error, upload_file_name};
use bandcompta::models::contact_kind_from_code;
use bandcompta::records::Transaction as Record;
use bandcompta::store::{error_response, product_detail, ApiError};
use bandcompta::{Amount, ContactKind, Product, ProductKind, ProductVariant};

#[test]
fn legacy_rows() {
    let r = Record::new_transaction_struct(
        7,
        "testname",
        Some("TestCo"),
        None,
        None,
        Amount(20.0f32.to_bits()),
        None,
        None,
        None,
    );
    assert_eq!(r.id, 7);
    assert_eq!(r.name, "testname");
    assert_eq!(r.company.as_deref(), Some("TestCo"));
    assert_eq!(r.executed, 0);
    assert_eq!(r.exec_date, None);
    assert_eq!(r.price_full_tax, Amount(20.0f32.to_bits()));
    let executed = Record::new_transaction_struct(1, "a", None, Some(1), Some("2025-01-01"), Amount(0), None, Some("Merch".into()), None);
    assert_eq!(executed.executed, 1);
    assert_eq!(executed.exec_date.as_deref(), Some("2025-01-01"));
    assert_eq!(executed.tag.as_deref(), Some("Merch"));
    let other = Record::new_transaction_struct(1, "a", None, Some(2), None, Amount(0), None, None, None);
    assert_eq!(other.executed, 0);
}

#[test]
fn error_responses() {
    assert_eq!(error_response(ApiError::NotFound), (404, "not found".to_string()));
    assert_eq!(error_response(ApiError::Internal), (500, "internal error".to_string()));
    assert_eq!(error_response(ApiError::BadRequest("x".into())), (400, "x".to_string()));
    assert_eq!(
        error_response(ApiError::Database { invalid_input: Some("stock insuffisant".into()), message: "m".into() }),
        (400, "stock insuffisant".to_string())
    );
    assert_eq!(
        error_response(ApiError::Database { invalid_input: None, message: "disk full".into() }),
        (500, "disk full".to_string())
    );
}

#[test]
fn product_details_add_up_the_stock() {
    let product = Product { id: 2, name: "Pin logo".into(), kind: ProductKind::Pin, description: "".into() };
    let variant = |stock| ProductVariant {
        id: 1,
        product_id: 2,
        sku: "PIN".into(),
        stock_quantity: stock,
        unit_price: Amount(8.0f32.to_bits()),
        attributes: vec![],
    };
    let d = product_detail(product.clone(), vec![variant(150), variant(3)]);
    assert_eq!(d.total_stock, 153);
    assert_eq!(d.variants.len(), 2);
    assert_eq!(d.product, product);
    assert_eq!(product_detail(product, vec![]).total_stock, 0);
}

#[test]
fn upload_fields() {
    assert!(is_upload_field(Some("file")));
    assert!(!is_upload_field(Some("files")));
    assert!(!is_upload_field(None));
    assert_eq!(upload_file_name(Some("a.pdf")), "a.pdf");
    assert_eq!(upload_file_name(None), "upload.bin");
    assert_eq!(missing_file_error(), "fichier manquant");
}

#[test]
fn contact_kind_codes() {
    for k in [ContactKind::Client, ContactKind::Provider, ContactKind::Both] {
        assert_eq!(contact_kind_from_code(k.code()), Some(k));
    }
    assert_eq!(ContactKind::Both.code(), 2);
    assert_eq!(contact_kind_from_code(3), None);
    assert_eq!(contact_kind_from_code(-1), None);
}

#[test]
fn contact_kind_labels_and_preferred_kinds() {
    use_labels();
}

fn use_labels() {
    assert_eq!(ContactKind::Client.label(), "Client");
    assert_eq!(ContactKind::Provider.label(), "Prestataire");
    assert_eq!(ContactKind::Both.label(), "Client & prestataire");
    assert_eq!(bandcompta::TransactionType::Income.preferred_contact_kinds(), vec![ContactKind::Client]);
    assert_eq!(bandcompta::TransactionType::Expense.preferred_contact_kinds(), vec![ContactKind::Provider]);
    assert_eq!(bandcompta::TransactionType::Ndf.preferred_contact_kinds(), vec![ContactKind::Provider]);
}
