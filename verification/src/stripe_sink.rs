//! The state of a fake of the slice of the Stripe API the membership module
//! calls: paid invoices per customer, and the ids of the sessions it hands
//! out.
//!
//! Each customer's paid invoices are listed in the order they were added; a
//! reset forgets them all.

use vstd::prelude::*;
use vstd::string::*;
use crate::text::{append_str, dec_digits, push_decimal, string_from_chars};

verus! {

/// A paid invoice.
#[derive(Debug)]
pub struct Invoice {
    pub id: String,
    pub amount_paid: i64,
    pub currency: String,
}

/// An invoice as plain values.
pub struct InvoiceView {
    pub id: Seq<char>,
    pub amount_paid: i64,
    pub currency: Seq<char>,
}

impl View for Invoice {
    type V = InvoiceView;

    open spec fn view(&self) -> InvoiceView {
        InvoiceView { id: self.id@, amount_paid: self.amount_paid, currency: self.currency@ }
    }
}

impl Invoice {
    /// A copy of this invoice.
    pub fn duplicate(&self) -> (r: Invoice)
        ensures
            r@ == self@,
    {
        Invoice { id: self.id.clone(), amount_paid: self.amount_paid, currency: self.currency.clone() }
    }
}

/// The currency of an invoice that names none.
pub fn default_currency() -> (c: String)
    ensures
        c@ == "usd"@,
{
    "usd".to_string()
}

/// The paid invoices, each with its customer, in the order they were added.
pub struct InvoiceStore {
    entries: Vec<(String, Invoice)>,
}

/// The store as plain values.
pub open spec fn entry_views(entries: Seq<(String, Invoice)>) -> Seq<(Seq<char>, InvoiceView)> {
    entries.map_values(|e: (String, Invoice)| (e.0@, e.1@))
}

/// The invoices of `customer`, in the order they were added.
pub open spec fn invoices_of(entries: Seq<(Seq<char>, InvoiceView)>, customer: Seq<char>) -> Seq<InvoiceView>
    decreases entries.len(),
{
    if entries.len() == 0 {
        Seq::<InvoiceView>::empty()
    } else if entries.last().0 == customer {
        invoices_of(entries.drop_last(), customer).push(entries.last().1)
    } else {
        invoices_of(entries.drop_last(), customer)
    }
}

impl View for InvoiceStore {
    type V = Seq<(Seq<char>, InvoiceView)>;

    closed spec fn view(&self) -> Seq<(Seq<char>, InvoiceView)> {
        entry_views(self.entries@)
    }
}

impl InvoiceStore {
    /// An empty store.
    pub fn new() -> (s: InvoiceStore)
        ensures
            s@ == Seq::<(Seq<char>, InvoiceView)>::empty(),
    {
        let s = InvoiceStore { entries: Vec::new() };
        assert(s@ =~= Seq::<(Seq<char>, InvoiceView)>::empty());
        s
    }

    /// Add a paid invoice to a customer's list.
    pub fn add_paid_invoice(&mut self, customer: String, invoice: Invoice)
        ensures
            final(self)@ == old(self)@.push((customer@, invoice@)),
    {
        let ghost before = self@;
        self.entries.push((customer, invoice));
        assert(self@ =~= before.push((customer@, invoice@)));
    }

    /// A customer's paid invoices, in the order they were added.
    pub fn invoices_for(&self, customer: &str) -> (r: Vec<Invoice>)
        ensures
            r@.map_values(|i: Invoice| i@) == invoices_of(self@, customer@),
    {
        let ghost es = self@;
        let mut out: Vec<Invoice> = Vec::new();
        let mut i: usize = 0;
        while i < self.entries.len()
            invariant
                i <= self.entries@.len(),
                es == entry_views(self.entries@),
                out@.map_values(|x: Invoice| x@) == invoices_of(es.subrange(0, i as int), customer@),
            decreases self.entries@.len() - i,
        {
            proof {
                assert(es.subrange(0, i as int + 1).drop_last() =~= es.subrange(0, i as int));
            }
            let c = crate::text::chars_of(self.entries[i].0.as_str());
            let want = crate::text::chars_of(customer);
            if crate::text::chars_eq(c.as_slice(), want.as_slice()) {
                let ghost before = out@.map_values(|x: Invoice| x@);
                let inv = self.entries[i].1.duplicate();
                out.push(inv);
                assert(out@.map_values(|x: Invoice| x@) =~= before.push(es[i as int].1));
            }
            i = i + 1;
        }
        assert(es.subrange(0, es.len() as int) =~= es);
        out
    }

    /// Forget every invoice.
    pub fn reset(&mut self)
        ensures
            final(self)@ == Seq::<(Seq<char>, InvoiceView)>::empty(),
    {
        self.entries = Vec::new();
        assert(self@ =~= Seq::<(Seq<char>, InvoiceView)>::empty());
    }
}

/// Adding an invoice for a customer appends it to that customer's list and
/// leaves every other customer's list as it was.
pub proof fn law_add_appends_to_one_customer(
    entries: Seq<(Seq<char>, InvoiceView)>,
    customer: Seq<char>,
    invoice: InvoiceView,
    other: Seq<char>,
)
    requires
        other != customer,
    ensures
        invoices_of(entries.push((customer, invoice)), customer) == invoices_of(entries, customer).push(invoice),
        invoices_of(entries.push((customer, invoice)), other) == invoices_of(entries, other),
{
    assert(entries.push((customer, invoice)).drop_last() =~= entries);
}

/// A reset leaves no invoice for any customer.
pub proof fn law_reset_forgets_everyone(customer: Seq<char>)
    ensures
        invoices_of(Seq::<(Seq<char>, InvoiceView)>::empty(), customer).len() == 0,
{
}

/// A hosted checkout session numbered `n`: its id, its URL, and the
/// customer it invents.
pub fn checkout_session(n: u64) -> (r: (String, String, String))
    ensures
        r.0@ == "cs_test_"@ + dec_digits(n as nat),
        r.1@ == "https://stripe.test/checkout/cs_test_"@ + dec_digits(n as nat),
        r.2@ == "cus_test_"@ + dec_digits(n as nat),
{
    let mut id: Vec<char> = Vec::new();
    append_str(&mut id, "cs_test_");
    push_decimal(&mut id, n);
    let mut url: Vec<char> = Vec::new();
    append_str(&mut url, "https://stripe.test/checkout/cs_test_");
    push_decimal(&mut url, n);
    let mut customer: Vec<char> = Vec::new();
    append_str(&mut customer, "cus_test_");
    push_decimal(&mut customer, n);
    (string_from_chars(id.as_slice()), string_from_chars(url.as_slice()), string_from_chars(customer.as_slice()))
}

/// A billing portal session numbered `n`: its id and its URL.
pub fn portal_session(n: u64) -> (r: (String, String))
    ensures
        r.0@ == "bps_test_"@ + dec_digits(n as nat),
        r.1@ == "https://stripe.test/portal/"@ + dec_digits(n as nat),
{
    let mut id: Vec<char> = Vec::new();
    append_str(&mut id, "bps_test_");
    push_decimal(&mut id, n);
    let mut url: Vec<char> = Vec::new();
    append_str(&mut url, "https://stripe.test/portal/");
    push_decimal(&mut url, n);
    (string_from_chars(id.as_slice()), string_from_chars(url.as_slice()))
}

} // verus!
