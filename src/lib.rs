//! Builds plotting scripts: figure-wide directives and drawable elements each append
//! statements to a script, and a figure collects its elements' scripts in call order.

pub mod buffer;
pub mod contour;
pub mod decimal;
pub mod plot;
pub mod serialize;

pub use buffer::ScriptBuffer;
pub use contour::Contour;
pub use decimal::Decimal;
pub use plot::{judge_renderer_output, GraphMaker, Plot, RenderOutcome, SaveError};
