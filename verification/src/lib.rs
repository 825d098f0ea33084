//! A verified description of a small 2D scene: one background image, one
//! knight sprite and an orthographic camera, together with the render
//! settings and asset locations that a game engine needs to bring it to the
//! screen. The library states exactly which entities the scene holds and
//! where each one stands; an unverified front end feeds the description to
//! the engine.

pub mod assets;
pub mod camera;
pub mod paths;
pub mod pipeline;
pub mod scene;
pub mod transform;
