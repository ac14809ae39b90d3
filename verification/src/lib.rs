//! Core of a 2D arcade game in which the player emits expanding circular
//! waves of two polarities. The library models world geometry in integer
//! milliunits (one world unit = 1000 milliunits) and permille fractions, so
//! that every rule of the game — wave growth and expiry, circle-circle
//! interference detection, polarity classification, interference strength,
//! volume materialization, and the collision-effect resolvers — is an exact,
//! verified function of its inputs. The host engine (rendering, physics
//! broad-phase, audio, windowing) stays outside; it hands the library plain
//! values and receives plain values back.

pub mod director;
pub mod effects;
pub mod enemy;
pub mod geom;
pub mod interference;
pub mod health;
pub mod num;
pub mod pipeline;
pub mod player;
pub mod session;
pub mod timer;
pub mod volume;
pub mod wave;
