//! Line parameters of a serial connection.
use std::sync::Arc;
use std::time::Duration;
use vstd::prelude::*;

verus! {

/// Number of data bits in each character.
#[derive(Clone, Copy, Debug, PartialEq, Eq, Structural)]
pub enum DataBits {
    Five,
    Six,
    Seven,
    Eight,
}

/// Number of stop bits after each character.
#[derive(Clone, Copy, Debug, PartialEq, Eq, Structural)]
pub enum StopBits {
    One,
    Two,
}

/// Parity checking mode; `Off` sends no parity bit.
#[derive(Clone, Copy, Debug, PartialEq, Eq, Structural)]
pub enum Parity {
    Off,
    Odd,
    Even,
}

/// Flow control mode; `Off` uses none.
#[derive(Clone, Copy, Debug, PartialEq, Eq, Structural)]
pub enum FlowControl {
    Off,
    Software,
    Hardware,
}

/// The parameters a line is opened with. A session never changes them: to
/// use other parameters, build a new session.
#[derive(Debug)]
pub struct SerialCom {
    /// Device name of the line, shared cheaply between threads.
    pub port: Arc<String>,
    /// Baud rate; the caller keeps it positive.
    pub baud: u32,
    pub data_bits: DataBits,
    pub stop_bits: StopBits,
    pub parity: Parity,
    pub flow_control: FlowControl,
    /// Applied to every read and write on the line.
    pub timeout: Duration,
}

} // verus!
