//! A periodic table of the chemical elements that answers queries in sentences.
//!
//! The table is loaded once from a data source ([`element::create_periodic_table`]). A query
//! names an element by its atomic symbol and says which attributes it asks for; the answer
//! ([`element::exec`]) is one sentence for each of them. A second kind of question asks for
//! the elements of a series ([`element::get_members`]).

pub mod attribute;
pub mod cli;
pub mod element;
pub mod error;
pub mod json;
pub mod sentence;
pub mod source;
pub mod table;
pub mod text;
