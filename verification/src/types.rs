pub mod array;
pub mod datetime;
pub mod datetime_order;
pub mod number;
pub mod number_from;
pub mod number_order;
pub mod number_text;
pub mod object;
pub mod sorted_text_map;
pub mod stringb;
pub mod text_map;
pub mod value_key;
