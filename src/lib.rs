pub mod sequence;
pub mod dispenser;
pub mod telemetry;
pub mod text;
pub mod html;
