pub mod trade;
