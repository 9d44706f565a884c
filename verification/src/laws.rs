//! What holds of the classifier and of the correlator whatever the lines are.

pub mod accounting;
pub mod classifier;
pub mod content;
pub mod order;
pub mod parents;
pub mod prompt;
pub mod tool;
