pub mod face;
pub mod text;
pub mod facelet;
pub mod palette;
pub mod solver;
pub mod session;
