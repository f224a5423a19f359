//! Transport configuration: the fixed pin assignment and bus parameters of
//! the SPI link to the sensor module.

use vstd::prelude::*;

verus! {

/// SPI bus the sensor is wired to.
pub const SPI_BUS_ID: u32 = 2;

/// Chip-select pin.
pub const CS_PIN: u32 = 45;

/// Master-in slave-out pin.
pub const MISO_PIN: u32 = 37;

/// Master-out slave-in pin.
pub const MOSI_PIN: u32 = 35;

/// SPI clock pin.
pub const CLK_PIN: u32 = 36;

/// Sensor reset line (active low).
pub const RST_PIN: u32 = 48;

/// Sensor interrupt line (active high).
pub const IRQ_PIN: u32 = 16;

/// SPI clock rate in hertz.
pub const BAUD_RATE: u32 = 5_000_000;

/// Transport-level byte timeout in milliseconds.
pub const TRANSPORT_TIMEOUT_MS: u32 = 3000;

/// Physical pin assignment and bus parameters of the sensor link.
///
/// Pure data, constructed once per session and immutable afterwards.
#[derive(Clone, Copy, Debug, PartialEq, Eq, Structural)]
pub struct TransportConfig {
    /// SPI bus identifier.
    pub bus_id: u32,
    /// Chip-select pin identifier.
    pub cs_pin: u32,
    /// MISO pin identifier.
    pub miso_pin: u32,
    /// MOSI pin identifier.
    pub mosi_pin: u32,
    /// Clock pin identifier.
    pub clk_pin: u32,
    /// Reset line pin identifier.
    pub rst_pin: u32,
    /// Interrupt line pin identifier.
    pub irq_pin: u32,
    /// Bus clock rate in hertz.
    pub baudrate: u32,
    /// Byte timeout in milliseconds.
    pub timeout_ms: u32,
}

impl TransportConfig {
    /// The six pins drive distinct lines, so no two may share an identifier.
    pub open spec fn pins_distinct(self) -> bool {
        &&& self.cs_pin != self.miso_pin
        &&& self.cs_pin != self.mosi_pin
        &&& self.cs_pin != self.clk_pin
        &&& self.cs_pin != self.rst_pin
        &&& self.cs_pin != self.irq_pin
        &&& self.miso_pin != self.mosi_pin
        &&& self.miso_pin != self.clk_pin
        &&& self.miso_pin != self.rst_pin
        &&& self.miso_pin != self.irq_pin
        &&& self.mosi_pin != self.clk_pin
        &&& self.mosi_pin != self.rst_pin
        &&& self.mosi_pin != self.irq_pin
        &&& self.clk_pin != self.rst_pin
        &&& self.clk_pin != self.irq_pin
        &&& self.rst_pin != self.irq_pin
    }

    /// Well-formedness of a transport configuration.
    pub open spec fn wf(self) -> bool {
        self.pins_distinct()
    }

    /// The one pin assignment used by the target board.
    pub open spec fn is_default_board(self) -> bool {
        &&& self.bus_id == SPI_BUS_ID
        &&& self.cs_pin == CS_PIN
        &&& self.miso_pin == MISO_PIN
        &&& self.mosi_pin == MOSI_PIN
        &&& self.clk_pin == CLK_PIN
        &&& self.rst_pin == RST_PIN
        &&& self.irq_pin == IRQ_PIN
        &&& self.baudrate == BAUD_RATE
        &&& self.timeout_ms == TRANSPORT_TIMEOUT_MS
    }

    /// Builds the configuration for the target board's wiring.
    pub fn default_board() -> (c: TransportConfig)
        ensures
            c.is_default_board(),
            c.wf(),
    {
        TransportConfig {
            bus_id: SPI_BUS_ID,
            cs_pin: CS_PIN,
            miso_pin: MISO_PIN,
            mosi_pin: MOSI_PIN,
            clk_pin: CLK_PIN,
            rst_pin: RST_PIN,
            irq_pin: IRQ_PIN,
            baudrate: BAUD_RATE,
            timeout_ms: TRANSPORT_TIMEOUT_MS,
        }
    }
}

} // verus!
