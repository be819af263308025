//! Named values for display: what a field is called, what it holds, and what
//! kind of field it is.

pub mod info_item;
pub mod skchar13;
pub mod skui_value;
pub mod skuint32;
pub mod types;
pub mod wstring;
