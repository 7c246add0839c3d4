pub mod hit_record;
pub mod hittable;
pub mod hittable_list;
pub mod ray;
pub mod sphere;

pub use hit_record::HitRecord;
pub use hittable::Hittable;
pub use hittable_list::HittableList;
pub use ray::Ray;
pub use sphere::{Crossing, Probe, Sphere};
