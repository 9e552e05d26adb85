use css_server::stripe_sink::{checkout_session, default_currency, portal_session, Invoice, InvoiceStore};

fn invoice(id: &str, amount: i64) -> Invoice {
    Invoice { id: id.to_string(), amount_paid: amount, currency: default_currency() }
}

#[test]
fn invoices_are_listed_per_customer_in_order() {
    let mut s = InvoiceStore::new();
    assert!(s.invoices_for("cus_1").is_empty());
    s.add_paid_invoice("cus_1".to_string(), invoice("in_1", 1000));
    s.add_paid_invoice("cus_2".to_string(), invoice("in_2", 500));
    s.add_paid_invoice("cus_1".to_string(), invoice("in_3", 250));
    let ids: Vec<String> = s.invoices_for("cus_1").iter().map(|i| i.id.clone()).collect();
    assert_eq!(ids, vec!["in_1".to_string(), "in_3".to_string()]);
    let two = s.invoices_for("cus_2");
    assert_eq!(two.len(), 1);
    assert_eq!(two[0].amount_paid, 500);
    assert_eq!(two[0].currency, "usd");
    s.reset();
    assert!(s.invoices_for("cus_1").is_empty());
    assert!(s.invoices_for("cus_2").is_empty());
}

#[test]
fn sessions_are_numbered() {
    let (id, url, customer) = checkout_session(7);
    assert_eq!(id, "cs_test_7");
    assert_eq!(url, "https://stripe.test/checkout/cs_test_7");
    assert_eq!(customer, "cus_test_7");
    let (pid, purl) = portal_session(8);
    assert_eq!(pid, "bps_test_8");
    assert_eq!(purl, "https://stripe.test/portal/8");
}
