//! Simulation core of a self-running asteroids screensaver, in fixed-point
//! arithmetic: lengths in millionths of a playfield unit, times in
//! microseconds, energy in millionths of a full charge and angles in
//! microradians.
pub mod fixed;
pub mod physics;
pub mod color;
mod random;
pub mod ship;
pub mod bullet;
pub mod asteroid;
pub mod saucer;
pub mod ai;
pub mod game;
pub mod macos;

pub use asteroid::Asteroid;
pub use bullet::Bullet;
pub use color::Color;
pub use game::GameState;
pub use macos::ScreenSaverBridge;
pub use saucer::{Saucer, SaucerSize};
pub use ship::Ship;
