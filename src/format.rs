//! Return modes, beam counts and the four firing formats.
use vstd::prelude::*;

use crate::error::Error;
use crate::packet::DataPacket;

verus! {

/// Which echo a packet reports.
#[derive(Clone, Copy, Debug, PartialEq, Eq, Structural)]
pub enum ReturnMode {
    Strongest,
    Last,
    Dual,
}

/// The four shapes of firing: single or dual return, sixteen or thirty-two beams.
#[derive(Clone, Copy, Debug, PartialEq, Eq, Structural)]
pub enum FiringFormat {
    Single16,
    Single32,
    Dual16,
    Dual32,
}

/// The return mode that a tail byte names.
pub open spec fn return_mode_of(b: u8) -> Option<ReturnMode> {
    if b == 0x37 {
        Some(ReturnMode::Strongest)
    } else if b == 0x38 {
        Some(ReturnMode::Last)
    } else if b == 0x39 {
        Some(ReturnMode::Dual)
    } else {
        None
    }
}

/// The beam count of the device that a product id names.
pub open spec fn beam_count_of(b: u8) -> Option<usize> {
    if b == 0x21 || b == 0x28 {
        Some(32)
    } else if b == 0x22 || b == 0x24 {
        Some(16)
    } else {
        None
    }
}

/// The firing format of a return mode and a beam count of 16 or 32.
pub open spec fn format_of(mode: ReturnMode, beams: usize) -> FiringFormat {
    match mode {
        ReturnMode::Dual => if beams == 16 {
            FiringFormat::Dual16
        } else {
            FiringFormat::Dual32
        },
        _ => if beams == 16 {
            FiringFormat::Single16
        } else {
            FiringFormat::Single32
        },
    }
}

/// The firing format that a packet tail names, if both bytes are known.
pub open spec fn packet_format(return_mode: u8, product_id: u8) -> Option<FiringFormat> {
    match (return_mode_of(return_mode), beam_count_of(product_id)) {
        (Some(m), Some(n)) => Some(format_of(m, n)),
        _ => None,
    }
}

impl FiringFormat {
    pub open spec fn beams(self) -> usize {
        match self {
            FiringFormat::Single16 | FiringFormat::Dual16 => 16,
            _ => 32,
        }
    }

    pub open spec fn dual(self) -> bool {
        self is Dual16 || self is Dual32
    }

    /// Number of lasers in one firing of this format.
    pub fn beam_count(&self) -> (r: usize)
        ensures
            r == self.beams(),
    {
        match self {
            FiringFormat::Single16 | FiringFormat::Dual16 => 16,
            _ => 32,
        }
    }

    /// Whether firings of this format carry both the strongest and the last return.
    pub fn is_dual(&self) -> (r: bool)
        ensures
            r == self.dual(),
    {
        match self {
            FiringFormat::Dual16 | FiringFormat::Dual32 => true,
            _ => false,
        }
    }

    /// The format of a return mode and a beam count.
    pub fn from_parts(mode: ReturnMode, beams: usize) -> (r: FiringFormat)
        requires
            beams == 16 || beams == 32,
        ensures
            r == format_of(mode, beams),
    {
        match mode {
            ReturnMode::Dual => if beams == 16 {
                FiringFormat::Dual16
            } else {
                FiringFormat::Dual32
            },
            _ => if beams == 16 {
                FiringFormat::Single16
            } else {
                FiringFormat::Single32
            },
        }
    }
}

impl DataPacket {
    /// The return mode in the tail; `PacketMalformed` for an unknown tag.
    pub fn return_mode(&self) -> (r: Result<ReturnMode, Error>)
        ensures
            match return_mode_of(self.return_mode) {
                Some(m) => r == Ok::<ReturnMode, Error>(m),
                None => r == Err::<ReturnMode, Error>(Error::PacketMalformed),
            },
    {
        if self.return_mode == 0x37 {
            Ok(ReturnMode::Strongest)
        } else if self.return_mode == 0x38 {
            Ok(ReturnMode::Last)
        } else if self.return_mode == 0x39 {
            Ok(ReturnMode::Dual)
        } else {
            Err(Error::PacketMalformed)
        }
    }

    /// The beam count of the device named in the tail; `PacketMalformed` for an
    /// unknown product id.
    pub fn beam_count(&self) -> (r: Result<usize, Error>)
        ensures
            match beam_count_of(self.product_id) {
                Some(n) => r == Ok::<usize, Error>(n),
                None => r == Err::<usize, Error>(Error::PacketMalformed),
            },
    {
        let id = self.product_id;
        if id == 0x21 || id == 0x28 {
            Ok(32)
        } else if id == 0x22 || id == 0x24 {
            Ok(16)
        } else {
            Err(Error::PacketMalformed)
        }
    }

    /// The firing format of the packet; `PacketMalformed` when the return mode or
    /// the product id is unknown.
    pub fn firing_format(&self) -> (r: Result<FiringFormat, Error>)
        ensures
            match packet_format(self.return_mode, self.product_id) {
                Some(f) => r == Ok::<FiringFormat, Error>(f),
                None => r == Err::<FiringFormat, Error>(Error::PacketMalformed),
            },
    {
        let mode = match self.return_mode() {
            Ok(m) => m,
            Err(e) => return Err(e),
        };
        let beams = match self.beam_count() {
            Ok(n) => n,
            Err(e) => return Err(e),
        };
        Ok(FiringFormat::from_parts(mode, beams))
    }
}

} // verus!
