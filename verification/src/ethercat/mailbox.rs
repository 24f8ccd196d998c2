use vstd::prelude::*;

verus! {

// The mailbox header is 6 bytes long: the data size in bytes 0-1 and the frame type in
// byte 5 (3 for CoE, 4 for FoE); the data follows.

/// Protocol carried by a mailbox frame.
#[derive(Debug, Clone, Copy, PartialEq, Eq, Structural)]
pub enum MailboxType {
    CoE,
    FoE,
}

/// Decoded mailbox header.
#[derive(Debug, Clone, Copy, PartialEq, Eq, Structural)]
pub struct MailboxFrameHeader {
    pub data_size: u16,
    pub frame_type: MailboxType,
}

/// A mailbox frame, seen through its header.
#[derive(Debug, Clone, Copy, PartialEq, Eq, Structural)]
pub struct MailboxFrame {
    pub header: MailboxFrameHeader,
}

/// The protocol named by a frame type byte, if it is a supported one.
pub open spec fn mailbox_type_of(b: u8) -> Option<MailboxType> {
    if b == 3 {
        Some(MailboxType::CoE)
    } else if b == 4 {
        Some(MailboxType::FoE)
    } else {
        None
    }
}

impl MailboxFrame {
    /// Decodes the mailbox header: the size is read with the first byte as the high
    /// byte; an unsupported frame type is an error.
    pub fn new(data: &[u8]) -> (res: Result<Self, ()>)
        requires
            data@.len() >= 6,
        ensures
            mailbox_type_of(data@[5]) is None ==> res is Err,
            mailbox_type_of(data@[5]) matches Some(t) ==> res matches Ok(f) && f.header
                == (MailboxFrameHeader {
                data_size: (data@[0] * 256 + data@[1]) as u16,
                frame_type: t,
            }),
    {
        let frame_type = match data[5] {
            0x3 => MailboxType::CoE,
            0x4 => MailboxType::FoE,
            _ => {
                return Err(());
            },
        };
        Ok(
            MailboxFrame {
                header: MailboxFrameHeader {
                    data_size: (data[0] as u16) * 256 + data[1] as u16,
                    frame_type,
                },
            },
        )
    }

    /// Protocol of the frame.
    pub fn get_mailbox_type(&self) -> (r: MailboxType)
        ensures
            r == self.header.frame_type,
    {
        self.header.frame_type
    }
}

} // verus!
