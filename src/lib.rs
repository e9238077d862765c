//! Control core of a small quadcopter flight controller: the arming state
//! machine that decides when the motors may spin, the inhibit mask it is gated
//! on, and the decisions of the cascaded attitude control loop.

pub mod arm_blocker;
pub mod governor;
pub mod governor_laws;
pub mod attitude;
