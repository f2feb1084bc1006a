pub mod field;
pub mod gclk;
pub mod mclk;
pub mod nvmctrl;
pub mod oscctrl;
pub mod port;
pub mod scb;
pub mod systick;
