//! CAN identifiers ordered by bus arbitration, and the decision logic of
//! devices that share one SPI bus.

pub mod id;
pub mod spi;
