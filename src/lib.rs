// Classification of the lines that a test runner prints, and the layering
// of the settings of the application that shows them.

pub mod analysis;
pub mod laws;
pub mod nextest;
pub mod settings;
pub mod styled;
pub mod text;
