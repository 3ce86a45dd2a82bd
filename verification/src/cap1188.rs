//! SPI commands of the CAP1188 capacitive touch controller.

use vstd::prelude::*;

verus! {

/// Sensor input status: a set bit means the input is touched.
pub const SENSOR_INPUT_STATUS: u8 = 0x03;
/// Multiple touch configuration.
pub const MULTIPLE_TOUCH_CONFIG: u8 = 0x2A;
/// Sensor input LED linking.
pub const LED_LINK: u8 = 0x72;
/// Product id.
pub const PRODUCT_ID: u8 = 0xFD;
/// Manufacturer id.
pub const MANUFACTURER_ID: u8 = 0xFE;
/// Standby configuration.
pub const STANDBY_CONFIG: u8 = 0x41;
/// Revision.
pub const REVISION: u8 = 0xFF;
/// Main control.
pub const MAIN: u8 = 0x00;
/// The interrupt bit of the main control register.
pub const MAIN_INT: u8 = 0x01;
/// LED polarity.
pub const LED_POLARITY: u8 = 0x73;

/// The reset command.
pub fn reset_command() -> (r: [u8; 2])
    ensures
        r@ == seq![0x7Au8, 0x7Au8],
{
    let r = [0x7A, 0x7A];
    assert(r@ =~= seq![0x7Au8, 0x7Au8]);
    r
}

/// The command that reads from register `reg`; the read bytes are clocked
/// out after it.
pub fn read_register_command(reg: u8) -> (r: [u8; 3])
    ensures
        r@ == seq![0x7Du8, reg, 0x7Fu8],
{
    let r = [0x7D, reg, 0x7F];
    assert(r@ =~= seq![0x7Du8, reg, 0x7Fu8]);
    r
}

/// The command that writes `value` to register `reg`.
pub fn write_register_command(reg: u8, value: u8) -> (r: [u8; 4])
    ensures
        r@ == seq![0x7Du8, reg, 0x7Eu8, value],
{
    let r = [0x7D, reg, 0x7E, value];
    assert(r@ =~= seq![0x7Du8, reg, 0x7Eu8, value]);
    r
}

/// Which of the three identification bytes is not the expected one.
#[derive(Clone, Copy, Debug, PartialEq, Eq, Structural)]
pub enum IdentityError {
    ProductId,
    Manufacturer,
    Revision,
}

/// Checks the product id (0x50), manufacturer id (0x5D) and revision (0x83)
/// read from the product-id register on, in that order.
pub fn check_identity(ids: [u8; 3]) -> (r: Option<IdentityError>)
    ensures
        r == if ids@[0] != 0x50 {
            Some(IdentityError::ProductId)
        } else if ids@[1] != 0x5D {
            Some(IdentityError::Manufacturer)
        } else if ids@[2] != 0x83 {
            Some(IdentityError::Revision)
        } else {
            None
        },
{
    if ids[0] != 0x50 {
        Some(IdentityError::ProductId)
    } else if ids[1] != 0x5D {
        Some(IdentityError::Manufacturer)
    } else if ids[2] != 0x83 {
        Some(IdentityError::Revision)
    } else {
        None
    }
}

/// The register writes of the initialisation, in order: allow multiple
/// touches, link the LEDs to the inputs, shorten the standby cycle.
pub fn init_writes() -> (r: [(u8, u8); 3])
    ensures
        r@ == seq![(MULTIPLE_TOUCH_CONFIG, 0u8), (LED_LINK, 0xFFu8), (STANDBY_CONFIG, 0x30u8)],
{
    let r = [(MULTIPLE_TOUCH_CONFIG, 0u8), (LED_LINK, 0xFFu8), (STANDBY_CONFIG, 0x30u8)];
    assert(r@ =~= seq![(MULTIPLE_TOUCH_CONFIG, 0u8), (LED_LINK, 0xFFu8), (STANDBY_CONFIG, 0x30u8)]);
    r
}

/// The main control value that acknowledges a touch: `main` with the
/// interrupt bit cleared.
pub fn main_without_interrupt(main: u8) -> (r: u8)
    ensures
        r == main & !MAIN_INT,
        r & MAIN_INT == 0,
        r | (main & MAIN_INT) == main,
{
    assert((main & !0x01u8) & 0x01u8 == 0u8) by (bit_vector);
    assert(((main & !0x01u8) | (main & 0x01u8)) == main) by (bit_vector);
    main & !MAIN_INT
}

} // verus!
