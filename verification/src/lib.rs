//! The simulation core of a small falling-balls scene.
//!
//! A host calls three functions once per frame, each with the pool of
//! entities: [`spawn_ball`] advances a repeating timer and, whenever it
//! completes a period, creates one ball at every spawn point;
//! [`apply_physics`] takes every ball through one Euler step under gravity;
//! [`check_out_of_bounds`] removes the balls that have fallen below the
//! floor. Nothing here draws, logs or reads a clock: the host passes the
//! frame's elapsed time in and acts on the identifiers that come back.
//!
//! All quantities are integers; [`kinematics`] explains the units.
pub mod bounds;
pub mod kinematics;
pub mod physics;
pub mod pool;
pub mod spawner;
pub mod timer;

pub use bounds::check_out_of_bounds;
pub use kinematics::Position;
pub use kinematics::Velocity;
pub use physics::apply_physics;
pub use pool::Entity;
pub use pool::Kind;
pub use pool::Pool;
pub use spawner::count_spawn_points;
pub use spawner::spawn_ball;
pub use timer::SpawnTimer;
