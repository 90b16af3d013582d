pub mod hittable;
pub mod hittable_collection;
pub mod sphere;

pub use hittable::HitRecord;
pub use hittable::Hittable;
pub use hittable_collection::HittableCollection;
pub use sphere::Sphere;
