//! A verified character-locomotion core.
//!
//! The library turns per-step movement intent into physically plausible
//! commands for a rigid body: a pluggable movement resolver, a ray-cast
//! spring-damper suspension, a yaw turn controller and a trailing camera.
//! The host (game engine, physics integrator, input devices) stays outside;
//! it hands the library plain values each simulation step and applies the
//! force, velocity and translation commands the library hands back.
//!
//! All quantities are fixed-point integers. A length, speed or velocity is
//! carried in thousandths of a world unit (`math::SCALE` subunits per unit);
//! a force is carried in millionths, the scale that the product of two
//! thousandths quantities naturally has. Contracts state results exactly,
//! over mathematical integers.

pub mod camera;
pub mod controller;
pub mod input;
pub mod integrate;
pub mod laws;
pub mod loading;
pub mod math;
pub mod movement;
pub mod suspension;
pub mod transform;
pub mod turning;
