//! Turns the motion of a two-axis analog stick into the angle of a steering
//! wheel.
//!
//! A [`session::Session`] takes the events of the stick as they are decoded
//! by [`codec::decode`]. While the stick is deflected far enough to count as
//! gripped, the wheel turns by as much as the stick rotates between two
//! reports ([`wheel::wheel_behaviour`]); once the stick is let go, the wheel
//! eases back to its centre. At each report the angle of the wheel becomes a
//! value of one output axis ([`wheel::quantize_wheel_angle`]), encoded as
//! two records ([`codec::encode_absolute_and_sync`]).
//!
//! Every quantity is an integer in fixed point: angles are microradians,
//! blend factors and magnitudes are parts per million, and time is
//! microseconds. The one quantity that the crate cannot compute in integers,
//! the polar angle of the stick, is measured by the caller.

pub mod angle;
pub mod bytes;
pub mod codec;
pub mod evdev;
pub mod fixed;
pub mod frame;
pub mod record;
pub mod session;
pub mod text;
pub mod wheel;
