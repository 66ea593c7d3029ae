//! The measurement configuration block sent to start every ranging cycle.

use vstd::prelude::*;

verus! {

/// Length of the configuration block.
pub const CONFIG_LEN: usize = 135;

/// Number of leading bytes replaced by the device's own trim values.
pub const TRIM_LEN: usize = 36;

/// The built-in configuration block, before the trim values are loaded.
pub open spec fn default_config() -> Seq<u8> {
    seq![
        0x29, 0x02, 0x10, 0x00, 0x28, 0xBC, 0x7A, 0x81,
        0x80, 0x07, 0x95, 0x00, 0xED, 0xFF, 0xF7, 0xFD,
        0x9E, 0x0E, 0x00, 0x10, 0x01, 0x00, 0x00, 0x00,
        0x00, 0x00, 0x00, 0x00, 0x00, 0x00, 0x34, 0x00,
        0x28, 0x00, 0x0D, 0x0A, 0x00, 0x00, 0x00, 0x00,
        0x00, 0x00, 0x00, 0x00, 0x00, 0x00, 0x00, 0x11,
        0x02, 0x00, 0x02, 0x08, 0x00, 0x08, 0x10, 0x01,
        0x01, 0x00, 0x00, 0x00, 0x00, 0xFF, 0x00, 0x02,
        0x00, 0x00, 0x00, 0x00, 0x00, 0x20, 0x0B, 0x00,
        0x00, 0x02, 0x0A, 0x21, 0x00, 0x00, 0x02, 0x00,
        0x00, 0x00, 0x00, 0xC8, 0x00, 0x00, 0x38, 0xFF,
        0x01, 0x00, 0x00, 0x00, 0x00, 0x00, 0x91, 0x0F,
        0x00, 0xA5, 0x0D, 0x00, 0x80, 0x00, 0x0C, 0x08,
        0xB8, 0x00, 0x00, 0x00, 0x00, 0x0E, 0x10, 0x00,
        0x01, 0x00, 0x00, 0x00, 0x00, 0x00, 0x01, 0x0F,
        0x0D, 0x0E, 0x0E, 0x01, 0x00, 0x02, 0xC7, 0xFF,
        0x8B, 0x00, 0x00, 0x00, 0x01, 0x01, 0x40,
    ]
}

/// A fresh copy of the built-in configuration block.
pub fn default_config_bytes() -> (r: Vec<u8>)
    ensures
        r@ == default_config(),
        r@.len() == CONFIG_LEN,
{
    let v: Vec<u8> = vec![
        0x29, 0x02, 0x10, 0x00, 0x28, 0xBC, 0x7A, 0x81,
        0x80, 0x07, 0x95, 0x00, 0xED, 0xFF, 0xF7, 0xFD,
        0x9E, 0x0E, 0x00, 0x10, 0x01, 0x00, 0x00, 0x00,
        0x00, 0x00, 0x00, 0x00, 0x00, 0x00, 0x34, 0x00,
        0x28, 0x00, 0x0D, 0x0A, 0x00, 0x00, 0x00, 0x00,
        0x00, 0x00, 0x00, 0x00, 0x00, 0x00, 0x00, 0x11,
        0x02, 0x00, 0x02, 0x08, 0x00, 0x08, 0x10, 0x01,
        0x01, 0x00, 0x00, 0x00, 0x00, 0xFF, 0x00, 0x02,
        0x00, 0x00, 0x00, 0x00, 0x00, 0x20, 0x0B, 0x00,
        0x00, 0x02, 0x0A, 0x21, 0x00, 0x00, 0x02, 0x00,
        0x00, 0x00, 0x00, 0xC8, 0x00, 0x00, 0x38, 0xFF,
        0x01, 0x00, 0x00, 0x00, 0x00, 0x00, 0x91, 0x0F,
        0x00, 0xA5, 0x0D, 0x00, 0x80, 0x00, 0x0C, 0x08,
        0xB8, 0x00, 0x00, 0x00, 0x00, 0x0E, 0x10, 0x00,
        0x01, 0x00, 0x00, 0x00, 0x00, 0x00, 0x01, 0x0F,
        0x0D, 0x0E, 0x0E, 0x01, 0x00, 0x02, 0xC7, 0xFF,
        0x8B, 0x00, 0x00, 0x00, 0x01, 0x01, 0x40,
    ];
    assert(v@ =~= default_config());
    v
}

} // verus!
