use crate::rs485::{ControlMode, ControlPin};
use vstd::prelude::*;

verus! {

/// Parity of a serial frame.
#[derive(Clone, Copy, Debug, PartialEq, Eq, Structural)]
pub enum Parity {
    Off,
    Odd,
    Even,
}

/// Flow control of a serial link.
#[derive(Clone, Copy, Debug, PartialEq, Eq, Structural)]
pub enum FlowControl {
    Off,
    /// XON/XOFF.
    Software,
    /// RTS/CTS.
    Hardware,
}

/// Frame layout and flow control of a serial link.
#[derive(Clone, Copy, Debug, PartialEq, Eq, Structural)]
pub struct LineSettings {
    /// 5, 6, 7 or 8.
    pub data_bits: u8,
    /// 1 or 2.
    pub stop_bits: u8,
    pub parity: Parity,
    pub flow_control: FlowControl,
}

/// Mode codes: 1 automatic, 2 manual, anything else disabled.
pub open spec fn mode_of_code(code: i32) -> ControlMode {
    if code == 1 {
        ControlMode::Automatic
    } else if code == 2 {
        ControlMode::Manual
    } else {
        ControlMode::Disabled
    }
}

/// Pin codes: 1 DTR, anything else RTS.
pub open spec fn pin_of_code(code: i32) -> ControlPin {
    if code == 1 {
        ControlPin::Dtr
    } else {
        ControlPin::Rts
    }
}

/// Line codes: data bits 5 to 8 (else 8), stop bits 1 or 2 (else 1), parity
/// 1 odd, 2 even (else none), flow control 1 software, 2 hardware (else none).
pub open spec fn line_of_codes(
    data_bits: i32,
    stop_bits: i32,
    parity: i32,
    flow_control: i32,
) -> LineSettings {
    LineSettings {
        data_bits: if 5 <= data_bits <= 8 {
            data_bits as u8
        } else {
            8
        },
        stop_bits: if stop_bits == 2 {
            2
        } else {
            1
        },
        parity: if parity == 1 {
            Parity::Odd
        } else if parity == 2 {
            Parity::Even
        } else {
            Parity::Off
        },
        flow_control: if flow_control == 1 {
            FlowControl::Software
        } else if flow_control == 2 {
            FlowControl::Hardware
        } else {
            FlowControl::Off
        },
    }
}

impl ControlMode {
    /// The mode that a boundary code stands for.
    pub fn from_code(code: i32) -> (r: ControlMode)
        ensures
            r == mode_of_code(code),
    {
        if code == 1 {
            ControlMode::Automatic
        } else if code == 2 {
            ControlMode::Manual
        } else {
            ControlMode::Disabled
        }
    }
}

impl ControlPin {
    /// The pin that a boundary code stands for.
    pub fn from_code(code: i32) -> (r: ControlPin)
        ensures
            r == pin_of_code(code),
    {
        if code == 1 {
            ControlPin::Dtr
        } else {
            ControlPin::Rts
        }
    }
}

impl LineSettings {
    /// The line settings that boundary codes stand for.
    pub fn from_codes(data_bits: i32, stop_bits: i32, parity: i32, flow_control: i32) -> (r:
        LineSettings)
        ensures
            r == line_of_codes(data_bits, stop_bits, parity, flow_control),
    {
        LineSettings {
            data_bits: if 5 <= data_bits && data_bits <= 8 {
                data_bits as u8
            } else {
                8
            },
            stop_bits: if stop_bits == 2 {
                2
            } else {
                1
            },
            parity: if parity == 1 {
                Parity::Odd
            } else if parity == 2 {
                Parity::Even
            } else {
                Parity::Off
            },
            flow_control: if flow_control == 1 {
                FlowControl::Software
            } else if flow_control == 2 {
                FlowControl::Hardware
            } else {
                FlowControl::Off
            },
        }
    }
}

} // verus!
