pub mod config;
pub mod consensus;
pub mod cycle;
pub mod leadtime;
pub mod sales_forecast;
pub mod schedule;
pub mod snapshot;
pub mod stocking;
