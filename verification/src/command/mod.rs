pub mod dispatch;
pub mod tactical_report;
