//! What holds of the data of the overview table, proved record by record.

pub mod names;
pub mod order;
pub mod three_letter;
pub mod two_letter;
