//! Decision logic of a radio link-budget calculator: power units, the
//! single-target budget cycle, and metric-prefixed magnitude entry.
pub mod prefix;
pub mod solver;
pub mod units;
