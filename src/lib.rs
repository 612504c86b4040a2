//! Unit conversion between temperature and length units, with a log of
//! past conversions.

pub mod commands;
pub mod converter;
pub mod history;
pub mod text;
pub mod units;

pub use commands::{handle_convert, run, AppError, Command, Reply};
pub use converter::{conversion_plan, validate, ConvertError, Formula, Plan, Ratio};
pub use history::{EmptyHistory, History, HistoryRecord};
pub use text::{decimal_text, normalize_decimal};
pub use units::{get_enum, unit_from_lowered, Unit, UnitDimension, UnitError, UnitType};
