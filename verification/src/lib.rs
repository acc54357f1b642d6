//! A signed-distance-field ray-marching renderer with an offline
//! multi-bounce radiosity lightmap bake, built on saturating fixed-point
//! arithmetic so that every stage of the numeric pipeline carries an exact
//! contract.

pub mod colour;
pub mod engine;
pub mod fixed;
pub mod laws;
pub mod material;
pub mod objects;
pub mod radiosity;
pub mod ray;
pub mod texture;
pub mod trig;
pub mod vector;
