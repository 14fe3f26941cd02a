//! The nesting controller: a two-level state machine that consumes one
//! event at a time and delivers a finished record exactly when its closing
//! tag is processed.
//!
//! The controller tracks where it stands — at top level, inside a
//! `product`, or inside a `sale` — and which field element, if any, is
//! open inside the current record. Character data of an open field is
//! accumulated and decoded when the field closes, so a payload split over
//! several character events decodes as one text.
//!
//! Everything the controller does is stated by the specification
//! functions [`step_start`], [`step_chars`], [`step_end`] and [`step`];
//! the executable methods are proved to follow them exactly.

use vstd::prelude::*;

use crate::decode::{dec_val, float_text_ok, i64_text_ok, i64_text_val, u32_text_ok};
use crate::decode::{is_float_text, parse_i64, parse_u32};
use crate::events::{ErrorModel, Event, EventModel, FaultModel, ParseError, SourceFault};
use crate::records::{product_init, sale_init};
use crate::records::{Product, ProductModel, Rec, RecModel, Sale, SaleModel};

verus! {

/// Which field element of a product is open, if any.
#[derive(Clone, Copy)]
pub enum ProductField {
    NoField,
    Id,
    Category,
    Name,
}

/// Which field element of a sale is open, if any.
#[derive(Clone, Copy)]
pub enum SaleField {
    NoField,
    Id,
    ProductId,
    Date,
    Quantity,
    Unit,
}

/// Where the controller stands in the document. The open field lives
/// inside the record variant, so a field can only be open while its
/// record is.
#[derive(Clone, Copy)]
pub enum Nesting {
    Top,
    InProduct(ProductField),
    InSale(SaleField),
}

/// Model of an [`Extractor`]: the nesting position, the two scratch
/// records, and the text accumulated for the open field.
pub struct StateModel {
    pub nesting: Nesting,
    pub product: ProductModel,
    pub sale: SaleModel,
    pub text: Seq<char>,
}

/// The state a fresh extractor starts in.
pub open spec fn state_init() -> StateModel {
    StateModel {
        nesting: Nesting::Top,
        product: product_init(),
        sale: sale_init(),
        text: Seq::empty(),
    }
}

/// What one step yields: the successor state and an optional delivered
/// record, or the error that aborts the run.
pub enum StepModel {
    Next(StateModel, Option<RecModel>),
    Stop(ErrorModel),
}

/// The successor state for an element opening. An opening never delivers
/// a record and never fails.
pub open spec fn step_start(s: StateModel, n: Seq<char>) -> StateModel {
    match s.nesting {
        Nesting::Top => {
            if n == "product"@ {
                StateModel {
                    nesting: Nesting::InProduct(ProductField::NoField),
                    product: product_init(),
                    text: Seq::empty(),
                    ..s
                }
            } else if n == "sale"@ {
                StateModel {
                    nesting: Nesting::InSale(SaleField::NoField),
                    sale: sale_init(),
                    text: Seq::empty(),
                    ..s
                }
            } else {
                s
            }
        },
        Nesting::InProduct(ProductField::NoField) => {
            if n == "id"@ {
                StateModel { nesting: Nesting::InProduct(ProductField::Id), text: Seq::empty(), ..s }
            } else if n == "category"@ {
                StateModel {
                    nesting: Nesting::InProduct(ProductField::Category),
                    text: Seq::empty(),
                    ..s
                }
            } else if n == "name"@ {
                StateModel {
                    nesting: Nesting::InProduct(ProductField::Name),
                    text: Seq::empty(),
                    ..s
                }
            } else {
                s
            }
        },
        Nesting::InProduct(_) => s,
        Nesting::InSale(SaleField::NoField) => {
            if n == "id"@ {
                StateModel { nesting: Nesting::InSale(SaleField::Id), text: Seq::empty(), ..s }
            } else if n == "product-id"@ {
                StateModel {
                    nesting: Nesting::InSale(SaleField::ProductId),
                    text: Seq::empty(),
                    ..s
                }
            } else if n == "date"@ {
                StateModel { nesting: Nesting::InSale(SaleField::Date), text: Seq::empty(), ..s }
            } else if n == "quantity"@ {
                StateModel {
                    nesting: Nesting::InSale(SaleField::Quantity),
                    text: Seq::empty(),
                    ..s
                }
            } else if n == "unit"@ {
                StateModel { nesting: Nesting::InSale(SaleField::Unit), text: Seq::empty(), ..s }
            } else {
                s
            }
        },
        Nesting::InSale(_) => s,
    }
}

/// The successor state for character data: appended to the accumulated
/// text while a field is open, ignored otherwise.
pub open spec fn step_chars(s: StateModel, t: Seq<char>) -> StateModel {
    match s.nesting {
        Nesting::Top => s,
        Nesting::InProduct(ProductField::NoField) => s,
        Nesting::InProduct(_) => StateModel { text: s.text + t, ..s },
        Nesting::InSale(SaleField::NoField) => s,
        Nesting::InSale(_) => StateModel { text: s.text + t, ..s },
    }
}

/// What an element closing yields. With no field open, the record's own
/// closing tag delivers the scratch record and returns to top level, and
/// any other closing — that of an unknown child — is ignored. With a
/// field open, the accumulated text is decoded into the field's slot;
/// a payload that the field's type refuses aborts the run.
pub open spec fn step_end(s: StateModel, n: Seq<char>) -> StepModel {
    match s.nesting {
        Nesting::Top => StepModel::Next(s, None),
        Nesting::InProduct(ProductField::NoField) => {
            if n == "product"@ {
                StepModel::Next(
                    StateModel { nesting: Nesting::Top, ..s },
                    Some(RecModel::Product(s.product)),
                )
            } else {
                StepModel::Next(s, None)
            }
        },
        Nesting::InProduct(ProductField::Id) => {
            if u32_text_ok(s.text) {
                StepModel::Next(
                    StateModel {
                        nesting: Nesting::InProduct(ProductField::NoField),
                        product: ProductModel { id: dec_val(s.text) as u32, ..s.product },
                        text: Seq::empty(),
                        ..s
                    },
                    None,
                )
            } else {
                StepModel::Stop(
                    ErrorModel::FieldDecode { record: "product"@, field: "id"@, raw: s.text },
                )
            }
        },
        Nesting::InProduct(ProductField::Category) => StepModel::Next(
            StateModel {
                nesting: Nesting::InProduct(ProductField::NoField),
                product: ProductModel { category: s.text, ..s.product },
                text: Seq::empty(),
                ..s
            },
            None,
        ),
        Nesting::InProduct(ProductField::Name) => StepModel::Next(
            StateModel {
                nesting: Nesting::InProduct(ProductField::NoField),
                product: ProductModel { name: s.text, ..s.product },
                text: Seq::empty(),
                ..s
            },
            None,
        ),
        Nesting::InSale(SaleField::NoField) => {
            if n == "sale"@ {
                StepModel::Next(
                    StateModel { nesting: Nesting::Top, ..s },
                    Some(RecModel::Sale(s.sale)),
                )
            } else {
                StepModel::Next(s, None)
            }
        },
        Nesting::InSale(SaleField::Id) => StepModel::Next(
            StateModel {
                nesting: Nesting::InSale(SaleField::NoField),
                sale: SaleModel { id: s.text, ..s.sale },
                text: Seq::empty(),
                ..s
            },
            None,
        ),
        Nesting::InSale(SaleField::ProductId) => {
            if u32_text_ok(s.text) {
                StepModel::Next(
                    StateModel {
                        nesting: Nesting::InSale(SaleField::NoField),
                        sale: SaleModel { product_id: dec_val(s.text) as u32, ..s.sale },
                        text: Seq::empty(),
                        ..s
                    },
                    None,
                )
            } else {
                StepModel::Stop(
                    ErrorModel::FieldDecode { record: "sale"@, field: "product-id"@, raw: s.text },
                )
            }
        },
        Nesting::InSale(SaleField::Date) => {
            if i64_text_ok(s.text) {
                StepModel::Next(
                    StateModel {
                        nesting: Nesting::InSale(SaleField::NoField),
                        sale: SaleModel { date: i64_text_val(s.text) as i64, ..s.sale },
                        text: Seq::empty(),
                        ..s
                    },
                    None,
                )
            } else {
                StepModel::Stop(
                    ErrorModel::FieldDecode { record: "sale"@, field: "date"@, raw: s.text },
                )
            }
        },
        Nesting::InSale(SaleField::Quantity) => {
            if float_text_ok(s.text) {
                StepModel::Next(
                    StateModel {
                        nesting: Nesting::InSale(SaleField::NoField),
                        sale: SaleModel { quantity: s.text, ..s.sale },
                        text: Seq::empty(),
                        ..s
                    },
                    None,
                )
            } else {
                StepModel::Stop(
                    ErrorModel::FieldDecode { record: "sale"@, field: "quantity"@, raw: s.text },
                )
            }
        },
        Nesting::InSale(SaleField::Unit) => StepModel::Next(
            StateModel {
                nesting: Nesting::InSale(SaleField::NoField),
                sale: SaleModel { unit: s.text, ..s.sale },
                text: Seq::empty(),
                ..s
            },
            None,
        ),
    }
}

/// What processing one event yields.
pub open spec fn step(s: StateModel, ev: EventModel) -> StepModel {
    match ev {
        EventModel::Start(n) => StepModel::Next(step_start(s, n), None),
        EventModel::End(n) => step_end(s, n),
        EventModel::Chars(t) => StepModel::Next(step_chars(s, t), None),
        EventModel::Fault(FaultModel::Io(c)) => StepModel::Stop(ErrorModel::Io(c)),
        EventModel::Fault(FaultModel::Framing(c)) => StepModel::Stop(ErrorModel::Framing(c)),
    }
}

/// The delivered record agrees with what the step says: one record of the
/// stated value, or none.
pub open spec fn emission_matches(r: Option<Rec>, m: Option<RecModel>) -> bool {
    match (r, m) {
        (Some(rec), Some(mm)) => rec@ == mm,
        (None, None) => true,
        _ => false,
    }
}

/// The nesting controller with its scratch records.
pub struct Extractor {
    nesting: Nesting,
    product: Product,
    sale: Sale,
    text: String,
}

impl View for Extractor {
    type V = StateModel;

    closed spec fn view(&self) -> StateModel {
        StateModel {
            nesting: self.nesting,
            product: self.product@,
            sale: self.sale@,
            text: self.text@,
        }
    }
}

/// `n` holds exactly the characters of `lit`.
fn name_is(n: &String, lit: &str) -> (r: bool)
    ensures
        r == (n@ == lit@),
{
    let t: String = lit.to_owned();
    *n == t
}

impl Extractor {
    /// A fresh controller: at top level, both scratch records defaulted,
    /// no text accumulated.
    pub fn new() -> (r: Extractor)
        ensures
            r@ == state_init(),
    {
        Extractor {
            nesting: Nesting::Top,
            product: Product::default(),
            sale: Sale::default(),
            text: String::new(),
        }
    }

    fn handle_start(&mut self, n: &String)
        ensures
            final(self)@ == step_start(old(self)@, n@),
    {
        match self.nesting {
            Nesting::Top => {
                if name_is(n, "product") {
                    self.nesting = Nesting::InProduct(ProductField::NoField);
                    self.product = Product::default();
                    self.text = String::new();
                } else if name_is(n, "sale") {
                    self.nesting = Nesting::InSale(SaleField::NoField);
                    self.sale = Sale::default();
                    self.text = String::new();
                }
            },
            Nesting::InProduct(ProductField::NoField) => {
                if name_is(n, "id") {
                    self.nesting = Nesting::InProduct(ProductField::Id);
                    self.text = String::new();
                } else if name_is(n, "category") {
                    self.nesting = Nesting::InProduct(ProductField::Category);
                    self.text = String::new();
                } else if name_is(n, "name") {
                    self.nesting = Nesting::InProduct(ProductField::Name);
                    self.text = String::new();
                }
            },
            Nesting::InProduct(_) => {},
            Nesting::InSale(SaleField::NoField) => {
                if name_is(n, "id") {
                    self.nesting = Nesting::InSale(SaleField::Id);
                    self.text = String::new();
                } else if name_is(n, "product-id") {
                    self.nesting = Nesting::InSale(SaleField::ProductId);
                    self.text = String::new();
                } else if name_is(n, "date") {
                    self.nesting = Nesting::InSale(SaleField::Date);
                    self.text = String::new();
                } else if name_is(n, "quantity") {
                    self.nesting = Nesting::InSale(SaleField::Quantity);
                    self.text = String::new();
                } else if name_is(n, "unit") {
                    self.nesting = Nesting::InSale(SaleField::Unit);
                    self.text = String::new();
                }
            },
            Nesting::InSale(_) => {},
        }
    }

    fn handle_chars(&mut self, t: &String)
        ensures
            final(self)@ == step_chars(old(self)@, t@),
    {
        let field_open = match self.nesting {
            Nesting::Top => false,
            Nesting::InProduct(ProductField::NoField) => false,
            Nesting::InProduct(_) => true,
            Nesting::InSale(SaleField::NoField) => false,
            Nesting::InSale(_) => true,
        };
        if field_open {
            self.text.append(t.as_str());
        }
    }

    fn handle_end(&mut self, n: &String) -> (r: Result<Option<Rec>, ParseError>)
        ensures
            match step_end(old(self)@, n@) {
                StepModel::Next(s2, emit) => final(self)@ == s2 && (r matches Ok(rr)
                    && emission_matches(rr, emit)),
                StepModel::Stop(e) => final(self)@ == old(self)@ && (r matches Err(pe) && pe@
                    == e),
            },
    {
        match self.nesting {
            Nesting::Top => Ok(None),
            Nesting::InProduct(ProductField::NoField) => {
                if name_is(n, "product") {
                    self.nesting = Nesting::Top;
                    let rec = Rec::Product(
                        Product {
                            id: self.product.id,
                            category: self.product.category.clone(),
                            name: self.product.name.clone(),
                        },
                    );
                    Ok(Some(rec))
                } else {
                    Ok(None)
                }
            },
            Nesting::InProduct(ProductField::Id) => {
                match parse_u32(self.text.as_str()) {
                    Some(v) => {
                        self.product.id = v;
                        self.nesting = Nesting::InProduct(ProductField::NoField);
                        self.text = String::new();
                        Ok(None)
                    },
                    None => Err(
                        ParseError::FieldDecodeError {
                            record: "product".to_owned(),
                            field: "id".to_owned(),
                            raw: self.text.clone(),
                        },
                    ),
                }
            },
            Nesting::InProduct(ProductField::Category) => {
                self.product.category = self.text.clone();
                self.nesting = Nesting::InProduct(ProductField::NoField);
                self.text = String::new();
                Ok(None)
            },
            Nesting::InProduct(ProductField::Name) => {
                self.product.name = self.text.clone();
                self.nesting = Nesting::InProduct(ProductField::NoField);
                self.text = String::new();
                Ok(None)
            },
            Nesting::InSale(SaleField::NoField) => {
                if name_is(n, "sale") {
                    self.nesting = Nesting::Top;
                    let rec = Rec::Sale(
                        Sale {
                            id: self.sale.id.clone(),
                            product_id: self.sale.product_id,
                            date: self.sale.date,
                            quantity: self.sale.quantity.clone(),
                            unit: self.sale.unit.clone(),
                        },
                    );
                    Ok(Some(rec))
                } else {
                    Ok(None)
                }
            },
            Nesting::InSale(SaleField::Id) => {
                self.sale.id = self.text.clone();
                self.nesting = Nesting::InSale(SaleField::NoField);
                self.text = String::new();
                Ok(None)
            },
            Nesting::InSale(SaleField::ProductId) => {
                match parse_u32(self.text.as_str()) {
                    Some(v) => {
                        self.sale.product_id = v;
                        self.nesting = Nesting::InSale(SaleField::NoField);
                        self.text = String::new();
                        Ok(None)
                    },
                    None => Err(
                        ParseError::FieldDecodeError {
                            record: "sale".to_owned(),
                            field: "product-id".to_owned(),
                            raw: self.text.clone(),
                        },
                    ),
                }
            },
            Nesting::InSale(SaleField::Date) => {
                match parse_i64(self.text.as_str()) {
                    Some(v) => {
                        self.sale.date = v;
                        self.nesting = Nesting::InSale(SaleField::NoField);
                        self.text = String::new();
                        Ok(None)
                    },
                    None => Err(
                        ParseError::FieldDecodeError {
                            record: "sale".to_owned(),
                            field: "date".to_owned(),
                            raw: self.text.clone(),
                        },
                    ),
                }
            },
            Nesting::InSale(SaleField::Quantity) => {
                if is_float_text(self.text.as_str()) {
                    self.sale.quantity = self.text.clone();
                    self.nesting = Nesting::InSale(SaleField::NoField);
                    self.text = String::new();
                    Ok(None)
                } else {
                    Err(
                        ParseError::FieldDecodeError {
                            record: "sale".to_owned(),
                            field: "quantity".to_owned(),
                            raw: self.text.clone(),
                        },
                    )
                }
            },
            Nesting::InSale(SaleField::Unit) => {
                self.sale.unit = self.text.clone();
                self.nesting = Nesting::InSale(SaleField::NoField);
                self.text = String::new();
                Ok(None)
            },
        }
    }

    /// Process one event: update the state as [`step`] says, hand back
    /// the record the step delivers, or abort with the step's error,
    /// leaving the state as it was.
    pub fn push(&mut self, ev: &Event) -> (r: Result<Option<Rec>, ParseError>)
        ensures
            match step(old(self)@, ev@) {
                StepModel::Next(s2, emit) => final(self)@ == s2 && (r matches Ok(rr)
                    && emission_matches(rr, emit)),
                StepModel::Stop(e) => final(self)@ == old(self)@ && (r matches Err(pe) && pe@
                    == e),
            },
    {
        match ev {
            Event::StartElement(n) => {
                self.handle_start(n);
                Ok(None)
            },
            Event::EndElement(n) => self.handle_end(n),
            Event::Characters(t) => {
                self.handle_chars(t);
                Ok(None)
            },
            Event::SourceError(SourceFault::Io(c)) => Err(ParseError::IoError(c.clone())),
            Event::SourceError(SourceFault::Framing(c)) => Err(
                ParseError::XmlFramingError(c.clone()),
            ),
        }
    }

    /// After the source is exhausted the controller must stand at top
    /// level; a record still open is reported.
    pub fn finish(&self) -> (r: Result<(), ParseError>)
        ensures
            match r {
                Ok(_) => self@.nesting is Top,
                Err(e) => !(self@.nesting is Top) && e@ == ErrorModel::Unterminated,
            },
    {
        match self.nesting {
            Nesting::Top => Ok(()),
            _ => Err(ParseError::UnterminatedRecord),
        }
    }
}

} // verus!
