//! Display Serial Interface (DSI) commands and the host controller contract.
use vstd::prelude::*;

verus! {

/// A DSI host controller that performs command transactions on the bus.
///
/// `write` sends one command, as `[code, arguments.., data..]`, in a single
/// transaction. `read` fills `buf` with the bytes that the command returns;
/// `buf` must have the length that the command implies.
pub trait DsiHostCtrlIo {
    type Error;

    fn write(&mut self, command: DsiWriteCommand<'_>) -> Result<(), Self::Error>;

    fn read(&mut self, command: DsiReadCommand, buf: &mut [u8]) -> Result<(), Self::Error>;
}

/// Read commands.
#[derive(Debug)]
pub enum DsiReadCommand {
    DcsShort { arg: u8 },
    GenericShortP0,
    GenericShortP1 { arg0: u8 },
    GenericShortP2 { arg0: u8, arg1: u8 },
}

impl DsiReadCommand {
    /// The protocol code of the command's kind.
    pub open spec fn spec_discriminant(self) -> u8 {
        match self {
            DsiReadCommand::DcsShort { .. } => 0x06,
            DsiReadCommand::GenericShortP0 => 0x04,
            DsiReadCommand::GenericShortP1 { .. } => 0x14,
            DsiReadCommand::GenericShortP2 { .. } => 0x24,
        }
    }

    /// Whether two commands are of the same kind, whatever their arguments.
    pub open spec fn same_kind(self, other: DsiReadCommand) -> bool {
        match (self, other) {
            (DsiReadCommand::DcsShort { .. }, DsiReadCommand::DcsShort { .. }) => true,
            (DsiReadCommand::GenericShortP0, DsiReadCommand::GenericShortP0) => true,
            (DsiReadCommand::GenericShortP1 { .. }, DsiReadCommand::GenericShortP1 { .. }) => true,
            (DsiReadCommand::GenericShortP2 { .. }, DsiReadCommand::GenericShortP2 { .. }) => true,
            _ => false,
        }
    }

    /// The bytes sent for the command: its code, then its arguments.
    pub open spec fn spec_packet(self) -> Seq<u8> {
        match self {
            DsiReadCommand::DcsShort { arg } => seq![0x06u8, arg],
            DsiReadCommand::GenericShortP0 => seq![0x04u8],
            DsiReadCommand::GenericShortP1 { arg0 } => seq![0x14u8, arg0],
            DsiReadCommand::GenericShortP2 { arg0, arg1 } => seq![0x24u8, arg0, arg1],
        }
    }

    /// Returns the protocol code of the command's kind.
    pub fn discriminant(&self) -> (r: u8)
        ensures
            r == self.spec_discriminant(),
    {
        match self {
            DsiReadCommand::DcsShort { .. } => 0x06,
            DsiReadCommand::GenericShortP0 => 0x04,
            DsiReadCommand::GenericShortP1 { .. } => 0x14,
            DsiReadCommand::GenericShortP2 { .. } => 0x24,
        }
    }

    /// Returns the bytes sent for the command: its code, then its arguments.
    pub fn packet(&self) -> (r: Vec<u8>)
        ensures
            r@ == self.spec_packet(),
    {
        let code = self.discriminant();
        match self {
            DsiReadCommand::DcsShort { arg } => vec![code, *arg],
            DsiReadCommand::GenericShortP0 => vec![code],
            DsiReadCommand::GenericShortP1 { arg0 } => vec![code, *arg0],
            DsiReadCommand::GenericShortP2 { arg0, arg1 } => vec![code, *arg0, *arg1],
        }
    }
}

/// Write commands. Long writes borrow their data from the caller.
#[derive(Debug)]
#[allow(inconsistent_fields)]
pub enum DsiWriteCommand<'i> {
    DcsShortP0 { arg: u8 },
    DcsShortP1 { arg: u8, data: u8 },
    DcsLongWrite { arg: u8, data: &'i [u8] },
    GenericShortP0,
    GenericShortP1,
    GenericShortP2,
    GenericLongWrite { arg: u8, data: &'i [u8] },
    SetMaximumReturnPacketSize(u16),
}

impl<'i> DsiWriteCommand<'i> {
    /// The protocol code of the command's kind.
    pub open spec fn spec_discriminant(self) -> u8 {
        match self {
            DsiWriteCommand::DcsShortP0 { .. } => 0x05,
            DsiWriteCommand::DcsShortP1 { .. } => 0x15,
            DsiWriteCommand::DcsLongWrite { .. } => 0x39,
            DsiWriteCommand::GenericShortP0 => 0x03,
            DsiWriteCommand::GenericShortP1 => 0x13,
            DsiWriteCommand::GenericShortP2 => 0x23,
            DsiWriteCommand::GenericLongWrite { .. } => 0x29,
            DsiWriteCommand::SetMaximumReturnPacketSize(_) => 0x37,
        }
    }

    /// Whether two commands are of the same kind, whatever their arguments.
    pub open spec fn same_kind(self, other: DsiWriteCommand<'_>) -> bool {
        match (self, other) {
            (DsiWriteCommand::DcsShortP0 { .. }, DsiWriteCommand::DcsShortP0 { .. }) => true,
            (DsiWriteCommand::DcsShortP1 { .. }, DsiWriteCommand::DcsShortP1 { .. }) => true,
            (DsiWriteCommand::DcsLongWrite { .. }, DsiWriteCommand::DcsLongWrite { .. }) => true,
            (DsiWriteCommand::GenericShortP0, DsiWriteCommand::GenericShortP0) => true,
            (DsiWriteCommand::GenericShortP1, DsiWriteCommand::GenericShortP1) => true,
            (DsiWriteCommand::GenericShortP2, DsiWriteCommand::GenericShortP2) => true,
            (
                DsiWriteCommand::GenericLongWrite { .. },
                DsiWriteCommand::GenericLongWrite { .. },
            ) => true,
            (
                DsiWriteCommand::SetMaximumReturnPacketSize(_),
                DsiWriteCommand::SetMaximumReturnPacketSize(_),
            ) => true,
            _ => false,
        }
    }

    /// The bytes sent for the command: its code, its argument, then its data.
    /// A packet size goes least significant byte first.
    pub open spec fn spec_packet(self) -> Seq<u8> {
        match self {
            DsiWriteCommand::DcsShortP0 { arg } => seq![0x05u8, arg],
            DsiWriteCommand::DcsShortP1 { arg, data } => seq![0x15u8, arg, data],
            DsiWriteCommand::DcsLongWrite { arg, data } => seq![0x39u8, arg] + data@,
            DsiWriteCommand::GenericShortP0 => seq![0x03u8],
            DsiWriteCommand::GenericShortP1 => seq![0x13u8],
            DsiWriteCommand::GenericShortP2 => seq![0x23u8],
            DsiWriteCommand::GenericLongWrite { arg, data } => seq![0x29u8, arg] + data@,
            DsiWriteCommand::SetMaximumReturnPacketSize(size) => seq![
                0x37u8,
                (size % 256) as u8,
                (size / 256) as u8,
            ],
        }
    }

    /// Returns the protocol code of the command's kind.
    pub fn discriminant(&self) -> (r: u8)
        ensures
            r == self.spec_discriminant(),
    {
        match self {
            DsiWriteCommand::DcsShortP0 { .. } => 0x05,
            DsiWriteCommand::DcsShortP1 { .. } => 0x15,
            DsiWriteCommand::DcsLongWrite { .. } => 0x39,
            DsiWriteCommand::GenericShortP0 => 0x03,
            DsiWriteCommand::GenericShortP1 => 0x13,
            DsiWriteCommand::GenericShortP2 => 0x23,
            DsiWriteCommand::GenericLongWrite { .. } => 0x29,
            DsiWriteCommand::SetMaximumReturnPacketSize(_) => 0x37,
        }
    }

    /// Returns the bytes sent for the command: its code, its argument, then
    /// its data.
    pub fn packet(&self) -> (r: Vec<u8>)
        ensures
            r@ == self.spec_packet(),
    {
        let code = self.discriminant();
        match self {
            DsiWriteCommand::DcsShortP0 { arg } => vec![code, *arg],
            DsiWriteCommand::DcsShortP1 { arg, data } => vec![code, *arg, *data],
            DsiWriteCommand::DcsLongWrite { arg, data } => long_packet(code, *arg, data),
            DsiWriteCommand::GenericShortP0 => vec![code],
            DsiWriteCommand::GenericShortP1 => vec![code],
            DsiWriteCommand::GenericShortP2 => vec![code],
            DsiWriteCommand::GenericLongWrite { arg, data } => long_packet(code, *arg, data),
            DsiWriteCommand::SetMaximumReturnPacketSize(size) => vec![
                code,
                (*size % 256) as u8,
                (*size / 256) as u8,
            ],
        }
    }
}

/// `[code, arg, data..]`.
fn long_packet(code: u8, arg: u8, data: &[u8]) -> (r: Vec<u8>)
    ensures
        r@ == seq![code, arg] + data@,
{
    let mut r: Vec<u8> = vec![code, arg];
    let mut i: usize = 0;
    while i < data.len()
        invariant
            i <= data@.len(),
            r@ == seq![code, arg] + data@.subrange(0, i as int),
        decreases data@.len() - i,
    {
        r.push(data[i]);
        i += 1;
        assert(data@.subrange(0, i as int) == data@.subrange(0, i - 1) + seq![data@[i - 1]]);
    }
    assert(data@.subrange(0, data@.len() as int) == data@);
    r
}

/// A read command's code depends on its kind alone, and kinds differ in code.
pub proof fn read_code_identifies_kind(a: DsiReadCommand, b: DsiReadCommand)
    ensures
        (a.spec_discriminant() == b.spec_discriminant()) == a.same_kind(b),
{
}

/// A write command's code depends on its kind alone, and kinds differ in code.
pub proof fn write_code_identifies_kind(a: DsiWriteCommand<'_>, b: DsiWriteCommand<'_>)
    ensures
        (a.spec_discriminant() == b.spec_discriminant()) == a.same_kind(b),
{
}

/// Encoding is a function of the command alone: equal commands give equal
/// codes and equal packets, and every packet starts with the code.
pub proof fn write_encoding_is_pure(a: DsiWriteCommand<'_>, b: DsiWriteCommand<'_>)
    requires
        a == b,
    ensures
        a.spec_discriminant() == b.spec_discriminant(),
        a.spec_packet() == b.spec_packet(),
        a.spec_packet().len() >= 1,
        a.spec_packet()[0] == a.spec_discriminant(),
{
}

/// Encoding is a function of the command alone: equal commands give equal
/// codes and equal packets, and every packet starts with the code.
pub proof fn read_encoding_is_pure(a: DsiReadCommand, b: DsiReadCommand)
    requires
        a == b,
    ensures
        a.spec_discriminant() == b.spec_discriminant(),
        a.spec_packet() == b.spec_packet(),
        a.spec_packet().len() >= 1,
        a.spec_packet()[0] == a.spec_discriminant(),
{
}

} // verus!
