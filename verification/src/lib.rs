//! Fixed-point vehicle-dynamics core for a top-down driving simulation.
//!
//! All physical quantities are integers in fixed scales (millimetres
//! per second for velocity, milli-newtons for force, milli-RPM for
//! engine speed, levels scaled by 3000, angles in 1/60000 of a
//! revolution), so every step of the simulation is exact,
//! deterministic, and verified free of overflow and panics.
//!
//! The drivetrain lives in [`parts`]: a torque curve fitted through
//! three calibration points with exact rational coefficients, an
//! engine with an extrapolation policy outside its speed range, and a
//! gear table.  The per-frame integrator is [`car::Car::update`],
//! whose contract pins every field of the successor state to the step
//! function [`car::step_spec`].  The laws the model obeys are proved
//! in [`laws`].

pub mod angle;
pub mod car;
pub mod ext;
pub mod fixed;
pub mod laws;
pub mod parts;
