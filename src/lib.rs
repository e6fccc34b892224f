//! View state of a spreadsheet grid: lettered column names (`A`, ..., `Z`,
//! `AA`, ...), the configuration of each sheet, a registry that creates
//! sheets on first access, and what each header and body cell shows.


pub mod column_name;
pub mod registry;
pub mod sheet;

