pub mod dielectric;
pub mod lambertian;
pub mod material;
pub mod metal;

pub use dielectric::Dielectric;
pub use lambertian::Lambertian;
pub use material::Material;
pub use material::ScatterResult;
pub use metal::Metal;
