//! Command Block Wrapper (CBW) and Command Status Wrapper (CSW)

use crate::endian::{u32_from_le, u32_to_le};
use crate::transport::CommandStatus;
use vstd::prelude::*;

verus! {

/// Size of a CBW, signature included
pub const CBW_LEN: usize = 31;

/// Size of a CBW without its signature
pub const CBW_BODY_LEN: usize = 27;

/// Size of a CSW
pub const CSW_LEN: usize = 13;

/// Signature that a CBW starts with, as a little-endian number
pub const CBW_SIGNATURE: u32 = 0x43425355;

/// Signature that a CSW starts with, as a little-endian number
pub const CSW_SIGNATURE: u32 = 0x53425355;

/// A CBW that is not valid
#[derive(Copy, Clone, Debug, PartialEq, Eq, Structural)]
pub struct InvalidCbwError;

/// Direction of the data phase of a command
#[derive(Copy, Clone, Debug, PartialEq, Eq, Structural)]
pub enum DataDirection {
    /// Host to device
    Out,
    /// Device to host
    In,
    /// There is no data phase
    NotExpected,
}

/// What a CBW says
#[verifier::ext_equal]
pub struct CbwView {
    pub tag: u32,
    /// Bytes that the host still expects to transfer
    pub data_transfer_len: u32,
    pub direction: DataDirection,
    pub lun: u8,
    /// The command block, without padding
    pub block: Seq<u8>,
}

impl CbwView {
    /// The wrapper that stands for no command
    pub open spec fn none() -> CbwView {
        CbwView {
            tag: 0,
            data_transfer_len: 0,
            direction: DataDirection::NotExpected,
            lun: 0,
            block: Seq::empty(),
        }
    }
}

/// The CBW whose bytes behind the signature are `body`, if that is a valid one:
/// it has the fixed length and a command block of 1 to 16 bytes
pub open spec fn parsed_body(body: Seq<u8>) -> Option<CbwView> {
    if body.len() == CBW_BODY_LEN && 1 <= body[10] <= 16 {
        let len = crate::endian::le32(body[4], body[5], body[6], body[7]);
        Some(
            CbwView {
                tag: crate::endian::le32(body[0], body[1], body[2], body[3]),
                data_transfer_len: len,
                direction: if len == 0 {
                    DataDirection::NotExpected
                } else if body[8] >= 0x80 {
                    DataDirection::In
                } else {
                    DataDirection::Out
                },
                lun: body[9] % 16,
                block: body.subrange(11, 11 + body[10]),
            },
        )
    } else {
        None
    }
}

/// The CBW whose bytes are `raw`, if that is a valid one
pub open spec fn parsed_cbw(raw: Seq<u8>) -> Option<CbwView> {
    if raw.len() == CBW_LEN && raw.take(4) == crate::endian::le32_bytes(CBW_SIGNATURE) {
        parsed_body(raw.skip(4))
    } else {
        None
    }
}

/// The bytes of the CBW with these fields: `flags` carries the direction of the data
/// phase in its top bit, and the command block is padded to 16 bytes with `padding`
pub open spec fn cbw_bytes(
    tag: u32,
    data_transfer_len: u32,
    flags: u8,
    lun: u8,
    block: Seq<u8>,
    padding: Seq<u8>,
) -> Seq<u8> {
    crate::endian::le32_bytes(CBW_SIGNATURE) + crate::endian::le32_bytes(tag)
        + crate::endian::le32_bytes(data_transfer_len) + seq![flags, lun, block.len() as u8] + block
        + padding
}

/// Parsing a CBW gives back the fields that it was made of. Without data the
/// direction does not count.
pub proof fn cbw_round_trip(
    tag: u32,
    data_transfer_len: u32,
    flags: u8,
    lun: u8,
    block: Seq<u8>,
    padding: Seq<u8>,
)
    requires
        1 <= block.len() <= 16,
        block.len() + padding.len() == 16,
        lun <= 0x0F,
    ensures
        parsed_cbw(cbw_bytes(tag, data_transfer_len, flags, lun, block, padding)) == Some(
            CbwView {
                tag,
                data_transfer_len,
                direction: if data_transfer_len == 0 {
                    DataDirection::NotExpected
                } else if flags >= 0x80 {
                    DataDirection::In
                } else {
                    DataDirection::Out
                },
                lun,
                block,
            },
        ),
{
    let raw = cbw_bytes(tag, data_transfer_len, flags, lun, block, padding);
    let body = raw.skip(4);
    crate::endian::le32_round_trip(tag);
    crate::endian::le32_round_trip(data_transfer_len);
    assert(raw.take(4) =~= crate::endian::le32_bytes(CBW_SIGNATURE));
    assert(body.subrange(0, 4) =~= crate::endian::le32_bytes(tag));
    assert(body.subrange(4, 8) =~= crate::endian::le32_bytes(data_transfer_len));
    assert(body[0] == body.subrange(0, 4)[0]);
    assert(body[1] == body.subrange(0, 4)[1]);
    assert(body[2] == body.subrange(0, 4)[2]);
    assert(body[3] == body.subrange(0, 4)[3]);
    assert(body[4] == body.subrange(4, 8)[0]);
    assert(body[5] == body.subrange(4, 8)[1]);
    assert(body[6] == body.subrange(4, 8)[2]);
    assert(body[7] == body.subrange(4, 8)[3]);
    assert(body[8] == flags && body[9] == lun && body[10] == block.len());
    assert(body.subrange(11, 11 + body[10]) =~= block);
}

/// The CSW for the command `tag` that leaves `residue` bytes untransferred
pub open spec fn csw_bytes(tag: u32, residue: u32, status: CommandStatus) -> Seq<u8> {
    crate::endian::le32_bytes(CSW_SIGNATURE) + crate::endian::le32_bytes(tag)
        + crate::endian::le32_bytes(residue) + seq![status.spec_code()]
}

/// A CSW is 13 bytes, and the host reads from it the signature, the tag of the
/// command, its residue and its status.
pub proof fn csw_carries_tag_residue_and_status(tag: u32, residue: u32, status: CommandStatus)
    ensures
        ({
            let csw = csw_bytes(tag, residue, status);
            &&& csw.len() == CSW_LEN
            &&& crate::endian::le32(csw[0], csw[1], csw[2], csw[3]) == CSW_SIGNATURE
            &&& crate::endian::le32(csw[4], csw[5], csw[6], csw[7]) == tag
            &&& crate::endian::le32(csw[8], csw[9], csw[10], csw[11]) == residue
            &&& csw[12] == status.spec_code()
        }),
{
    crate::endian::le32_round_trip(CSW_SIGNATURE);
    crate::endian::le32_round_trip(tag);
    crate::endian::le32_round_trip(residue);
}

/// A parsed Command Block Wrapper
#[derive(Copy, Clone, Debug)]
pub struct CommandBlockWrapper {
    pub tag: u32,
    pub data_transfer_len: u32,
    pub direction: DataDirection,
    pub lun: u8,
    /// Length of the command block
    pub block_len: usize,
    /// The command block, padded to 16 bytes
    pub block: [u8; 16],
}

impl View for CommandBlockWrapper {
    type V = CbwView;

    open spec fn view(&self) -> CbwView {
        CbwView {
            tag: self.tag,
            data_transfer_len: self.data_transfer_len,
            direction: self.direction,
            lun: self.lun,
            block: self.block@.take(self.block_len as int),
        }
    }
}

impl CommandBlockWrapper {
    pub open spec fn wf(self) -> bool {
        self.block_len <= 16
    }

    /// The wrapper that stands for no command
    pub fn none() -> (cbw: CommandBlockWrapper)
        ensures
            cbw.wf(),
            cbw@ == CbwView::none(),
    {
        let cbw = CommandBlockWrapper {
            tag: 0,
            data_transfer_len: 0,
            direction: DataDirection::NotExpected,
            lun: 0,
            block_len: 0,
            block: [0u8; 16],
        };
        assert(cbw@ =~= CbwView::none());
        cbw
    }

    /// Parses the bytes of a CBW behind its signature
    pub fn from_le_bytes(value: &[u8]) -> (r: Result<CommandBlockWrapper, InvalidCbwError>)
        requires
            value@.len() > 10,
        ensures
            match r {
                Ok(cbw) => {
                    &&& cbw.wf()
                    &&& parsed_body(value@) == Some(cbw@)
                    &&& cbw.block_len == value@[10]
                    &&& cbw.block@ == value@.subrange(11, 27)
                },
                Err(_) => parsed_body(value@) is None,
            },
    {
        let block_len: u8 = value[10];
        if block_len < 1 || block_len > 16 {
            return Err(InvalidCbwError);
        }
        if value.len() != CBW_BODY_LEN {
            return Err(InvalidCbwError);
        }
        let data_transfer_len: u32 = u32_from_le(value[4], value[5], value[6], value[7]);
        let direction = if data_transfer_len != 0 {
            if value[8] >= 0x80 {
                DataDirection::In
            } else {
                DataDirection::Out
            }
        } else {
            DataDirection::NotExpected
        };
        let mut block: [u8; 16] = [0u8; 16];
        let mut i: usize = 0;
        while i < 16
            invariant
                i <= 16,
                value@.len() == 27,
                forall|j: int| 0 <= j < i ==> block@[j] == value@[11 + j],
            decreases 16 - i,
        {
            block[i] = value[11 + i];
            i = i + 1;
        }
        let cbw = CommandBlockWrapper {
            tag: u32_from_le(value[0], value[1], value[2], value[3]),
            data_transfer_len,
            direction,
            lun: value[9] % 16,
            block_len: block_len as usize,
            block,
        };
        assert(cbw@.block =~= value@.subrange(11, 11 + value@[10]));
        assert(cbw.block@ =~= value@.subrange(11, 27));
        Ok(cbw)
    }

    /// Parses the bytes of a CBW, signature first
    pub fn from_raw(raw: &[u8]) -> (r: Result<CommandBlockWrapper, InvalidCbwError>)
        requires
            raw@.len() == CBW_LEN,
        ensures
            match r {
                Ok(cbw) => {
                    &&& cbw.wf()
                    &&& parsed_cbw(raw@) == Some(cbw@)
                    &&& cbw.block_len == raw@[14]
                    &&& cbw.block@ == raw@.subrange(15, 31)
                },
                Err(_) => parsed_cbw(raw@) is None,
            },
    {
        let signature = u32_to_le(CBW_SIGNATURE);
        let ghost expected = signature@;
        if raw[0] != signature[0] || raw[1] != signature[1] || raw[2] != signature[2] || raw[3]
            != signature[3] {
            assert(raw@.take(4)[0] == raw@[0]);
            assert(raw@.take(4)[1] == raw@[1]);
            assert(raw@.take(4)[2] == raw@[2]);
            assert(raw@.take(4)[3] == raw@[3]);
            return Err(InvalidCbwError);
        }
        assert(raw@.take(4) =~= expected);
        let body = vstd::slice::slice_subrange(raw, 4, CBW_LEN);
        assert(body@ =~= raw@.skip(4));
        assert(body@.subrange(11, 27) =~= raw@.subrange(15, 31));
        CommandBlockWrapper::from_le_bytes(body)
    }
}

/// Builds a CSW
pub fn build_csw(tag: u32, residue: u32, status: CommandStatus) -> (csw: [u8; CSW_LEN])
    ensures
        csw@ == csw_bytes(tag, residue, status),
{
    let signature = u32_to_le(CSW_SIGNATURE);
    let tag_bytes = u32_to_le(tag);
    let residue_bytes = u32_to_le(residue);
    let csw: [u8; CSW_LEN] = [
        signature[0],
        signature[1],
        signature[2],
        signature[3],
        tag_bytes[0],
        tag_bytes[1],
        tag_bytes[2],
        tag_bytes[3],
        residue_bytes[0],
        residue_bytes[1],
        residue_bytes[2],
        residue_bytes[3],
        status.code(),
    ];
    assert(csw@ =~= csw_bytes(tag, residue, status));
    csw
}

} // verus!
