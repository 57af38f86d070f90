//! Core of a dashboard that samples probe results on a fixed cadence and
//! renders them as line charts: unit selection and labelling, the
//! Catmull-Rom smoothing windows, chart layout, the chart store and the
//! scheduler's timing decisions.

pub mod units;
pub mod smooth;
pub mod chart;
pub mod store;
pub mod schedule;
pub mod web;
