//! Parameters: page-scoped values exchanged with the hub through the
//! request/acknowledge handshake (see `Bhi160::read_param`).

pub mod sensors;
pub mod system;

use vstd::prelude::*;

verus! {

/// Parameters are grouped in pages.
#[derive(Debug, Clone, Copy, PartialEq, Eq, Structural)]
pub enum ParameterPage {
    /// Written after finishing an access on the algorithm page, to let the
    /// hub copy back its algorithm data structures.
    Page0,
    /// Meta event enables, sensor status, FIFO control and the like.
    System,
    /// Algorithm coefficients and knobs.
    Algorithm,
    /// Information and configuration of the individual sensors.
    Sensors,
    Custom12,
    Custom13,
    Custom14,
}

impl ParameterPage {
    /// The 4-bit code of the page in the page-select register.
    pub open spec fn spec_code(self) -> u8 {
        match self {
            ParameterPage::Page0 => 0,
            ParameterPage::System => 1,
            ParameterPage::Algorithm => 2,
            ParameterPage::Sensors => 3,
            ParameterPage::Custom12 => 12,
            ParameterPage::Custom13 => 13,
            ParameterPage::Custom14 => 14,
        }
    }

    /// The 4-bit code of the page in the page-select register.
    #[verifier::when_used_as_spec(spec_code)]
    pub fn code(self) -> (r: u8)
        ensures
            r == self.spec_code(),
            r < 16,
    {
        match self {
            ParameterPage::Page0 => 0,
            ParameterPage::System => 1,
            ParameterPage::Algorithm => 2,
            ParameterPage::Sensors => 3,
            ParameterPage::Custom12 => 12,
            ParameterPage::Custom13 => 13,
            ParameterPage::Custom14 => 14,
        }
    }
}

/// The address of a parameter: its page, its number within the page, and its
/// width in bytes.
///
/// A parameter is well formed when its number fits in seven bits and its width
/// is between 1 and 16 bytes; it can be written only when the width is at most 8.
#[derive(Debug, Clone, Copy, PartialEq, Eq, Structural)]
pub struct Parameter {
    pub page: ParameterPage,
    pub param: u8,
    pub size: u8,
}

impl Parameter {
    pub open spec fn wf(self) -> bool {
        &&& self.param < 128
        &&& 1 <= self.size <= 16
    }

    pub open spec fn writable(self) -> bool {
        self.wf() && self.size <= 8
    }
}

} // verus!
