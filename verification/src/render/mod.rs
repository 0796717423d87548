pub mod chrome;
pub mod page;
pub mod report;
