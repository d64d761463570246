//! A fractal clock engine: three analog clock hands whose tips recursively
//! spawn scaled, rotated copies of the hand vectors, producing a self-similar
//! branching pattern.
//!
//! All geometry is carried in fixed-point integers (`fixed::FX_ONE` is 1.0),
//! angles are binary fractions of a turn (`trig::TURN` is a full circle), and
//! colors live on a decimal scale (`color::COLOR_SCALE` is 1.0). The engine
//! emits a list of colored line segments per frame; the host owns the window,
//! the widgets and the persistence of the configuration.

pub mod clock;
pub mod color;
pub mod config;
pub mod fixed;
pub mod fractal_clock;
pub mod geom;
pub mod render;
pub mod schedule;
pub mod trig;
