//! Signal acquisition and vital-sign extraction for a wrist-worn pulse oximeter.
//!
//! Every quantity is held as an integer count of a small physical unit, so that
//! each decision of the pipeline is an exact statement over integers.

pub mod quantity;
pub mod timer;
pub mod histogram;
pub mod standard_deviation;
pub mod rolling_median;
pub mod filters;
pub mod signal_processing;
pub mod calibration;
pub mod offset_measuring;
pub mod dc_calibration;
pub mod heart_rate;
pub mod oxygen_saturation;
pub mod data_reading;
pub mod data_sending;
pub mod vital_signs;
pub mod bluetooth;
