//! A streaming extractor of typed records from XML events.
//!
//! An event source (outside this crate) turns an XML document into a flat
//! sequence of tokens: element openings, element closings, character data,
//! and source faults. This library consumes those tokens one at a time with
//! a two-level state machine and materialises two kinds of records,
//! [`Product`] and [`Sale`], delivering each one exactly when its closing
//! tag is processed.

use vstd::prelude::*;

mod decode;
mod document;
mod events;
mod laws;
mod machine;
mod records;
mod runner;

pub use decode::{is_float_text, parse_i64, parse_u32};
pub use decode::{
    all_digits, dec_val, digit_val, either_case, exp_ok, float_text_ok, i64_text_ok, i64_text_val,
    is_digit, number_ok, signed_body, signed_neg, skip_digits, spells_inf, spells_infinity,
    spells_nan, u32_text_ok,
};
pub use machine::{Extractor, Nesting, ProductField, SaleField, StateModel, StepModel};
pub use machine::{emission_matches, state_init, step, step_chars, step_end, step_start};
pub use laws::{
    close_kinds, kinds_of, lemma_close_delivers, lemma_close_delivers_in_run, lemma_delivery_order,
    lemma_emission_needs_close,
    lemma_isolation, lemma_no_partial_emission, lemma_product_field_defaulting,
    lemma_reset_on_open, lemma_sale_field_defaulting, no_opener, opens, product_default_at,
    product_guard, product_slot_default, product_tag, rec_kind, sale_default_at, sale_guard,
    sale_slot_default, sale_tag, subsequence_of,
};
pub use events::{Event, EventModel, ErrorModel, FaultModel, ParseError, SourceFault};
pub use records::{Product, ProductModel, Rec, RecModel, Sale, SaleModel};
pub use records::{product_init, sale_init};
pub use runner::{emitted, event_views, rec_views, run, run_model};
pub use document::{extract_from_bytes, tokens_of};

