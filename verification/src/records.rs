//! The two record kinds that the extractor materialises, together with the
//! mathematical models that the contracts speak of.
//!
//! A `quantity` is carried as its source text, validated against the
//! standard textual grammar of a 64-bit binary floating-point number; the
//! textual zero `"0"` stands for the unset value, so a caller that wants the
//! numeric value parses the text itself.

use vstd::prelude::*;

verus! {

/// Model of a [`Product`]: its fields as mathematical values.
pub struct ProductModel {
    pub id: u32,
    pub category: Seq<char>,
    pub name: Seq<char>,
}

/// Model of a [`Sale`]: its fields as mathematical values.
pub struct SaleModel {
    pub id: Seq<char>,
    pub product_id: u32,
    pub date: i64,
    pub quantity: Seq<char>,
    pub unit: Seq<char>,
}

/// Model of a [`Rec`]: one delivered record of either kind.
pub enum RecModel {
    Product(ProductModel),
    Sale(SaleModel),
}

/// The model of a product whose fields were never written.
pub open spec fn product_init() -> ProductModel {
    ProductModel { id: 0, category: Seq::empty(), name: Seq::empty() }
}

/// The model of a sale whose fields were never written. The unset quantity
/// is the textual zero.
pub open spec fn sale_init() -> SaleModel {
    SaleModel {
        id: Seq::empty(),
        product_id: 0,
        date: 0,
        quantity: "0"@,
        unit: Seq::empty(),
    }
}

/// A product record: an identifier, a category and a name.
#[derive(Debug)]
pub struct Product {
    pub id: u32,
    pub category: String,
    pub name: String,
}

/// A sale record: an identifier, the identifier of the product sold, a
/// date as seconds of the epoch, a quantity as validated numeric text, and
/// a measurement unit.
#[derive(Debug)]
pub struct Sale {
    pub id: String,
    pub product_id: u32,
    pub date: i64,
    pub quantity: String,
    pub unit: String,
}

/// A delivered record of either kind.
#[derive(Debug)]
pub enum Rec {
    Product(Product),
    Sale(Sale),
}

impl View for Product {
    type V = ProductModel;

    open spec fn view(&self) -> ProductModel {
        ProductModel { id: self.id, category: self.category@, name: self.name@ }
    }
}

impl View for Sale {
    type V = SaleModel;

    open spec fn view(&self) -> SaleModel {
        SaleModel {
            id: self.id@,
            product_id: self.product_id,
            date: self.date,
            quantity: self.quantity@,
            unit: self.unit@,
        }
    }
}

impl View for Rec {
    type V = RecModel;

    open spec fn view(&self) -> RecModel {
        match self {
            Rec::Product(p) => RecModel::Product(p@),
            Rec::Sale(s) => RecModel::Sale(s@),
        }
    }
}

impl Default for Product {
    /// The product whose fields all hold their type's zero value.
    fn default() -> (r: Product)
        ensures
            r@ == product_init(),
    {
        Product { id: 0, category: String::new(), name: String::new() }
    }
}

impl Default for Sale {
    /// The sale whose fields all hold their type's zero value.
    fn default() -> (r: Sale)
        ensures
            r@ == sale_init(),
    {
        Sale {
            id: String::new(),
            product_id: 0,
            date: 0,
            quantity: zero_text(),
            unit: String::new(),
        }
    }
}

/// The textual zero that an unset quantity carries.
fn zero_text() -> (r: String)
    ensures
        r@ == "0"@,
{
    "0".to_owned()
}

} // verus!
