//! The names that most callers need, in one place.

pub use crate::error::Error;
pub use crate::float::Float32;
pub use crate::float::Float64;
pub use crate::rendering::JsonMode;
pub use crate::rendering::Rendering;
pub use crate::traits::FromValueBehavior;
pub use crate::traits::PrimitiveType;
pub use crate::traits::ToJsonBehavior;
pub use crate::traits::ToValueBehavior;
pub use crate::types::array::Array;
pub use crate::types::datetime::Date;
pub use crate::types::datetime::DateTime;
pub use crate::types::datetime::DateTimeBehavior;
pub use crate::types::datetime::Duration;
pub use crate::types::datetime::Time;
pub use crate::types::datetime::UtcDateTime;
pub use crate::types::number::Number;
pub use crate::types::number::NumberBehavior;
pub use crate::types::number::NumberType;
pub use crate::types::object::Object;
pub use crate::types::sorted_text_map::SortedTextMap;
pub use crate::types::stringb::StringB;
pub use crate::types::text_map::TextMap;
pub use crate::types::value_key::ValueKey;
pub use crate::types::value_key::ValueKeyBehavior;
pub use crate::value::Value;
