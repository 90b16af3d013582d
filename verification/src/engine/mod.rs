pub mod hittables;
pub mod materials;
pub mod ray;
pub mod tracer;

pub use ray::Ray;
