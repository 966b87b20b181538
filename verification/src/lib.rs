//! Verified decision kernels for real-time geometry: bounding volumes, ray
//! queries, ordering of candidates and table lookups for gradient noise.
//!
//! Real numbers are IEEE 754 binary32 values carried by their bit pattern
//! (see [`Scalar`]). Everything in this crate compares, selects, orders and
//! indexes such values, and each function says in its contract exactly what it
//! returns. Sums, products, quotients and roots are left to the caller, who
//! hands their results in.
//!
//! - [`scalar`]: the values and their comparisons.
//! - [`vectors`], [`matrices`]: fixed-size vectors and matrices as data, with
//!   what rearranges their elements.
//! - [`colliders`]: boxes, spheres, planes, triangles and meshes, containment
//!   and overlap, and the decisions of ray queries.
//! - [`sorting`]: the stable sort by which candidates are ordered.
//! - [`quadratic`]: how many real roots a quadratic has.
//! - [`simplex`], [`noise`]: shuffle and gradient tables and the lattice walks
//!   of simplex noise.
//! - [`camera`]: the switches of a camera.

pub mod camera;
pub mod colliders;
pub mod matrices;
pub mod noise;
pub mod quadratic;
pub mod scalar;
pub mod simplex;
pub mod sorting;
pub mod vectors;

pub use camera::Camera;
pub use camera::CameraDirections;
pub use colliders::AABoundingBox;
pub use colliders::BoundingSphere;
pub use colliders::MeshCollider;
pub use colliders::PlaneCollider;
pub use colliders::RayHitInfo;
pub use colliders::TriangleCollider;
pub use matrices::Matrix2;
pub use matrices::Matrix3;
pub use matrices::Matrix4;
pub use matrices::MatrixArithmeticError;
pub use matrices::MatrixIndexError;
pub use matrices::MaxtrixNM;
pub use quadratic::root_count;
pub use scalar::Scalar;
pub use simplex::grad3;
pub use sorting::quicksort;
pub use vectors::Vector2;
pub use vectors::Vector3;
pub use vectors::Vector4;
pub use vectors::Vector3Int;

pub use rand::Rng;
pub use rand_chacha::rand_core::SeedableRng;
pub use rand_chacha::ChaChaRng;
