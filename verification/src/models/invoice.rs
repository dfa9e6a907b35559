//! Invoices and their line items. All amounts and rates of an invoice are
//! kept as the text that the client sent.

use vstd::prelude::*;

verus! {

/// Central GST of a line item.
#[derive(Debug)]
pub struct CGST {
    pub cgst_percent: String,
    pub cgst_amount: String,
}

/// State GST of a line item.
#[derive(Debug)]
pub struct SGST {
    pub sgst_percent: String,
    pub sgst_amount: String,
}

/// Integrated GST of a line item.
#[derive(Debug)]
pub struct IGST {
    pub igst_percent: String,
    pub igst_amount: String,
}

impl Default for CGST {
    fn default() -> (tax: Self)
        ensures
            tax.cgst_percent@.len() == 0,
            tax.cgst_amount@.len() == 0,
    {
        CGST { cgst_percent: String::new(), cgst_amount: String::new() }
    }
}

impl Default for SGST {
    fn default() -> (tax: Self)
        ensures
            tax.sgst_percent@.len() == 0,
            tax.sgst_amount@.len() == 0,
    {
        SGST { sgst_percent: String::new(), sgst_amount: String::new() }
    }
}

impl Default for IGST {
    fn default() -> (tax: Self)
        ensures
            tax.igst_percent@.len() == 0,
            tax.igst_amount@.len() == 0,
    {
        IGST { igst_percent: String::new(), igst_amount: String::new() }
    }
}

/// A line item of an invoice.
#[derive(Debug)]
pub struct InvoiceItem {
    pub description: String,
    pub hours: String,
    pub rate: String,
    pub cgst: CGST,
    pub sgst: SGST,
    pub igst: IGST,
    pub item_total: String,
}

impl InvoiceItem {
    /// Every text of the item is empty.
    pub open spec fn is_blank(self) -> bool {
        &&& self.description@.len() == 0
        &&& self.hours@.len() == 0
        &&& self.rate@.len() == 0
        &&& self.cgst.cgst_percent@.len() == 0
        &&& self.cgst.cgst_amount@.len() == 0
        &&& self.sgst.sgst_percent@.len() == 0
        &&& self.sgst.sgst_amount@.len() == 0
        &&& self.igst.igst_percent@.len() == 0
        &&& self.igst.igst_amount@.len() == 0
        &&& self.item_total@.len() == 0
    }
}

impl Default for InvoiceItem {
    fn default() -> (item: Self)
        ensures
            item.is_blank(),
    {
        InvoiceItem {
            description: String::new(),
            hours: String::new(),
            rate: String::new(),
            cgst: CGST::default(),
            sgst: SGST::default(),
            igst: IGST::default(),
            item_total: String::new(),
        }
    }
}

/// An invoice as it is stored.
#[derive(Debug)]
pub struct Invoice {
    /// Key in the document store; absent until the invoice is first stored.
    pub id: Option<mongodb::bson::oid::ObjectId>,
    /// Domestic or international.
    pub invoice_type: String,
    pub company_name: String,
    pub gst_in: String,
    pub company_address: String,
    pub company_phone: String,
    pub company_email: String,
    pub lut_no: String,
    pub iec_no: String,
    pub invoice_number: String,
    pub invoice_date: String,
    pub invoice_due_date: String,
    pub invoice_terms: String,
    pub po_number: String,
    pub po_date: String,
    pub place_of_supply: String,
    pub billcustomer_name: String,
    pub billcustomer_address: String,
    pub billcustomer_gstin: String,
    pub shipcustomer_name: String,
    pub shipcustomer_address: String,
    pub shipcustomer_gstin: String,
    pub subject: String,
    pub items: Vec<InvoiceItem>,
    pub sub_total: String,
    pub totalcgst: String,
    pub totalsgst: String,
    pub totaligst: String,
    pub total: String,
    pub notes: String,
    pub status: String,
}

/// What a new invoice is created from.
pub type CreateInvoiceRequest = Invoice;

/// What replaces a stored invoice.
pub type UpdateInvoiceRequest = Invoice;

} // verus!
