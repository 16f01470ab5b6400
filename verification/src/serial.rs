//! The serial port registers SB and SC.  Storage only: no link cable is
//! emulated, but test ROMs report their verdict through SB/SC writes.

use vstd::prelude::*;
use crate::ioregister::IORegister;

verus! {

/// Serial transfer data (SB, 0xFF01) and control (SC, 0xFF02).
pub struct SerialRegisters {
    pub data: IORegister,
    pub control: IORegister,
}

impl Default for SerialRegisters {
    /// SB is fully writable; only SC bits 7, 1 and 0 exist.
    fn default() -> (r: SerialRegisters)
        ensures
            r.data == (IORegister { data: 0, wmask: 0xff, rmask: 0xff }),
            r.control == (IORegister { data: 0, wmask: 0x83, rmask: 0xff }),
    {
        SerialRegisters { data: IORegister::new(), control: IORegister::new().write_mask(0x83) }
    }
}

} // verus!
