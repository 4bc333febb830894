pub mod element;
pub mod group;
pub mod laws;
pub mod polynomial;
mod random;

pub use element::{TorusElement, EPSILON, TORUS_MODULUS};
pub use group::{Torus, TorusGroup};
pub use polynomial::TorusPolynominal;
