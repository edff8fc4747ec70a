//! What the message of each command means.

use vstd::prelude::*;
use vstd::slice::slice_subrange;
use crate::bits::bit_is_set;
use crate::bits::bit_of;
use crate::bits::bits_to_bools;
use crate::bits::unpacked_spec;
use crate::error::result_view;
use crate::error::CcnetError;
use crate::status;
use crate::text::be_u64;
use crate::text::be_u64_spec;
use crate::text::bin_to_str;
use crate::text::text_spec;

verus! {

/// Length of the message that answers a request for the bill options.
pub const BILL_OPTIONS_LEN: usize = 24;

/// Length of the message that answers a request for identification.
pub const INFO_LEN: usize = 109;

/// Bytes that describe one cassette.
pub const CASSETTE_LEN: usize = 2;

/// Bytes that describe one entry of the bill table.
pub const BILL_LEN: usize = 5;

/// The state that a device reports when polled.
#[derive(Debug, Clone, PartialEq, Eq)]
pub enum Status {
    PowerUp,
    Initialize,
    Idling,
    Disabled,
    Holding,
    Rejecting(String),
    Dispensing,
    DropCasseteFull,
    DropCasseteRemoved,
    Escrow(u8),
    Other(u8),
}

/// A `Status` as a mathematical value.
#[verifier::ext_equal]
pub enum StatusView {
    PowerUp,
    Initialize,
    Idling,
    Disabled,
    Holding,
    Rejecting(Seq<char>),
    Dispensing,
    DropCasseteFull,
    DropCasseteRemoved,
    Escrow(u8),
    Other(u8),
}

impl View for Status {
    type V = StatusView;

    open spec fn view(&self) -> StatusView {
        match self {
            Status::PowerUp => StatusView::PowerUp,
            Status::Initialize => StatusView::Initialize,
            Status::Idling => StatusView::Idling,
            Status::Disabled => StatusView::Disabled,
            Status::Holding => StatusView::Holding,
            Status::Rejecting(reason) => StatusView::Rejecting(reason@),
            Status::Dispensing => StatusView::Dispensing,
            Status::DropCasseteFull => StatusView::DropCasseteFull,
            Status::DropCasseteRemoved => StatusView::DropCasseteRemoved,
            Status::Escrow(bill_type) => StatusView::Escrow(*bill_type),
            Status::Other(code) => StatusView::Other(*code),
        }
    }
}

/// The status that a poll message reports. Its first byte is the status
/// code; an escrow status names the bill type in its second byte. A code
/// without a variant of its own is handed on as it came.
pub open spec fn status_spec(data: Seq<u8>) -> Result<StatusView, CcnetError> {
    if data.len() == 0 {
        Err(CcnetError::EmptyStatus)
    } else if data[0] == status::POWER_UP {
        Ok(StatusView::PowerUp)
    } else if data[0] == status::INITIALIZE {
        Ok(StatusView::Initialize)
    } else if data[0] == status::IDLING {
        Ok(StatusView::Idling)
    } else if data[0] == status::DISABLED {
        Ok(StatusView::Disabled)
    } else if data[0] == status::HOLDING {
        Ok(StatusView::Holding)
    } else if data[0] == status::REJECTING {
        Ok(StatusView::Rejecting("Generic rejecting"@))
    } else if data[0] == status::DISPENSING {
        Ok(StatusView::Dispensing)
    } else if data[0] == status::DROP_CASSETTE_FULL {
        Ok(StatusView::DropCasseteFull)
    } else if data[0] == status::DROP_CASSETTE_REMOVED {
        Ok(StatusView::DropCasseteRemoved)
    } else if data[0] == status::ESCROW {
        if data.len() > 1 {
            Ok(StatusView::Escrow(data[1]))
        } else {
            Err(CcnetError::MissingBillType)
        }
    } else {
        Ok(StatusView::Other(data[0]))
    }
}

/// Reads the status out of a poll message.
pub fn decode_status(data: &[u8]) -> (r: Result<Status, CcnetError>)
    ensures
        result_view(r) == status_spec(data@),
{
    if data.len() == 0 {
        return Err(CcnetError::EmptyStatus);
    }
    let code = data[0];
    if code == status::POWER_UP {
        Ok(Status::PowerUp)
    } else if code == status::INITIALIZE {
        Ok(Status::Initialize)
    } else if code == status::IDLING {
        Ok(Status::Idling)
    } else if code == status::DISABLED {
        Ok(Status::Disabled)
    } else if code == status::HOLDING {
        Ok(Status::Holding)
    } else if code == status::REJECTING {
        Ok(Status::Rejecting("Generic rejecting".to_owned()))
    } else if code == status::DISPENSING {
        Ok(Status::Dispensing)
    } else if code == status::DROP_CASSETTE_FULL {
        Ok(Status::DropCasseteFull)
    } else if code == status::DROP_CASSETTE_REMOVED {
        Ok(Status::DropCasseteRemoved)
    } else if code == status::ESCROW {
        if data.len() > 1 {
            Ok(Status::Escrow(data[1]))
        } else {
            Err(CcnetError::MissingBillType)
        }
    } else {
        Ok(Status::Other(code))
    }
}

/// Which bill types a device accepts, checks at high security and routes to
/// a cassette: one flag for each of 24 bill types.
#[derive(Debug, Clone, Copy, PartialEq, Eq)]
pub struct BillOptions {
    pub acceptable: [bool; 24],
    pub security: [bool; 24],
    pub routing: [bool; 24],
}

/// A `BillOptions` as a mathematical value.
#[verifier::ext_equal]
pub struct BillOptionsView {
    pub acceptable: Seq<bool>,
    pub security: Seq<bool>,
    pub routing: Seq<bool>,
}

impl View for BillOptions {
    type V = BillOptionsView;

    open spec fn view(&self) -> BillOptionsView {
        BillOptionsView {
            acceptable: self.acceptable@,
            security: self.security@,
            routing: self.routing@,
        }
    }
}

/// The bill options that a message reports: it has exactly 24 bytes, and its
/// first nine hold the three sets of flags, three bytes each.
pub open spec fn bill_options_spec(data: Seq<u8>) -> Result<BillOptionsView, CcnetError> {
    if data.len() == BILL_OPTIONS_LEN {
        Ok(
            BillOptionsView {
                acceptable: unpacked_spec(data.subrange(0, 3), 24),
                security: unpacked_spec(data.subrange(3, 6), 24),
                routing: unpacked_spec(data.subrange(6, 9), 24),
            },
        )
    } else {
        Err(CcnetError::UnexpectedLength)
    }
}

/// Unpacks the 24 flags of a three-byte field.
fn flags24(field: &[u8]) -> (flags: [bool; 24])
    requires
        field@.len() == 3,
    ensures
        flags@ == unpacked_spec(field@, 24),
{
    let mut flags: [bool; 24] = [false;24];
    match bits_to_bools(field, 24) {
        Ok(bools) => {
            let mut i: usize = 0;
            while i < 24
                invariant
                    i <= 24,
                    bools@ == unpacked_spec(field@, 24),
                    forall|j: int| 0 <= j < i ==> flags@[j] == bools@[j],
                decreases 24 - i,
            {
                flags[i] = bools[i];
                i = i + 1;
            }
        },
        Err(_) => {},
    }
    flags
}

/// Reads the bill options out of a message.
pub fn decode_bill_options(data: &[u8]) -> (r: Result<BillOptions, CcnetError>)
    ensures
        result_view(r) == bill_options_spec(data@),
{
    if data.len() == BILL_OPTIONS_LEN {
        Ok(
            BillOptions {
                acceptable: flags24(slice_subrange(data, 0, 3)),
                security: flags24(slice_subrange(data, 3, 6)),
                routing: flags24(slice_subrange(data, 6, 9)),
            },
        )
    } else {
        Err(CcnetError::UnexpectedLength)
    }
}

/// The state of one recycling cassette.
#[derive(Debug, Clone, Copy, PartialEq, Eq, Structural)]
pub struct CassetteStatus {
    pub present: bool,
    pub is_full: bool,
    pub nbills: u8,
}

/// The cassette that a pair of bytes describes: bit 7 of the first says that
/// it is present, bit 6 that it is full; the second counts its bills.
pub open spec fn cassette_spec(flags: u8, count: u8) -> CassetteStatus {
    CassetteStatus { present: bit_of(flags, 7), is_full: bit_of(flags, 6), nbills: count }
}

/// The cassettes that a message reports, two bytes each, in their order. A
/// message of odd length is refused.
pub open spec fn cassettes_spec(data: Seq<u8>) -> Result<Seq<CassetteStatus>, CcnetError> {
    if data.len() % 2 == 0 {
        Ok(
            Seq::new(
                data.len() / 2,
                |i: int| cassette_spec(data[2 * i], data[2 * i + 1]),
            ),
        )
    } else {
        Err(CcnetError::UnexpectedLength)
    }
}

/// Reads the cassettes out of a message.
pub fn decode_cassettes(data: &[u8]) -> (r: Result<Vec<CassetteStatus>, CcnetError>)
    ensures
        result_view(r) == cassettes_spec(data@),
{
    if data.len() % CASSETTE_LEN != 0 {
        return Err(CcnetError::UnexpectedLength);
    }
    let ncassettes = data.len() / CASSETTE_LEN;
    let mut cassettes: Vec<CassetteStatus> = Vec::new();
    let mut i: usize = 0;
    while i < ncassettes
        invariant
            i <= ncassettes,
            ncassettes * 2 == data@.len(),
            data@.len() <= usize::MAX,
            cassettes@.len() == i,
            forall|j: int|
                0 <= j < i ==> cassettes@[j] == cassette_spec(
                    #[trigger] data@[2 * j],
                    data@[2 * j + 1],
                ),
        decreases ncassettes - i,
    {
        let flags = data[i * 2];
        cassettes.push(
            CassetteStatus {
                present: bit_is_set(flags, 7),
                is_full: bit_is_set(flags, 6),
                nbills: data[i * 2 + 1],
            },
        );
        i = i + 1;
    }
    assert(cassettes@ =~= cassettes_spec(data@)->Ok_0);
    Ok(cassettes)
}

/// A face value as the device states it: a base value scaled by a power of
/// ten. With `divide` the value is `base / 10^exponent`, without it
/// `base * 10^exponent`.
#[derive(Debug, Clone, Copy, PartialEq, Eq, Structural)]
pub struct Denomination {
    pub base: u8,
    pub exponent: u8,
    pub divide: bool,
}

/// One entry of the bill table.
#[derive(Debug, Clone, PartialEq, Eq)]
pub struct BillDescription {
    pub denomination: Denomination,
    pub country_code: String,
}

/// A `BillDescription` as a mathematical value.
#[verifier::ext_equal]
pub struct BillDescriptionView {
    pub denomination: Denomination,
    pub country_code: Seq<char>,
}

impl View for BillDescription {
    type V = BillDescriptionView;

    open spec fn view(&self) -> BillDescriptionView {
        BillDescriptionView {
            denomination: self.denomination,
            country_code: self.country_code@,
        }
    }
}

/// The face value that a base byte and a scale byte state: bits 0 to 6 of
/// the scale byte are the exponent, bit 7 says to divide.
pub open spec fn denomination_spec(base: u8, scale: u8) -> Denomination {
    Denomination { base, exponent: scale & 0x7F, divide: bit_of(scale, 7) }
}

/// The bill that a block of five bytes describes: the base value, three
/// bytes of country code, the scale byte.
pub open spec fn bill_spec(block: Seq<u8>) -> BillDescriptionView {
    BillDescriptionView {
        denomination: denomination_spec(block[0], block[4]),
        country_code: text_spec(block.subrange(1, 4)),
    }
}

/// The bill table that a message reports, five bytes for each entry, in
/// their order. A message whose length is no multiple of five is refused.
pub open spec fn bill_table_spec(data: Seq<u8>) -> Result<Seq<BillDescriptionView>, CcnetError> {
    if data.len() % 5 == 0 {
        Ok(Seq::new(data.len() / 5, |i: int| bill_spec(data.subrange(5 * i, 5 * i + 5))))
    } else {
        Err(CcnetError::UnexpectedLength)
    }
}

/// The view of a bill table: each entry by its view.
pub open spec fn bill_table_view(table: Seq<BillDescription>) -> Seq<BillDescriptionView> {
    Seq::new(table.len(), |i: int| table[i]@)
}

/// The view of the result of reading a bill table.
pub open spec fn bill_table_result_view(r: Result<Vec<BillDescription>, CcnetError>) -> Result<
    Seq<BillDescriptionView>,
    CcnetError,
> {
    match r {
        Ok(table) => Ok(bill_table_view(table@)),
        Err(e) => Err(e),
    }
}

/// Reads one entry of the bill table.
fn decode_bill(block: &[u8]) -> (bill: BillDescription)
    requires
        block@.len() == 5,
    ensures
        bill@ == bill_spec(block@),
{
    let scale = block[4];
    BillDescription {
        denomination: Denomination {
            base: block[0],
            exponent: scale & 0x7F,
            divide: bit_is_set(scale, 7),
        },
        country_code: bin_to_str(slice_subrange(block, 1, 4)),
    }
}

/// Reads the bill table out of a message.
pub fn decode_bill_table(data: &[u8]) -> (r: Result<Vec<BillDescription>, CcnetError>)
    ensures
        bill_table_result_view(r) == bill_table_spec(data@),
{
    if data.len() % BILL_LEN != 0 {
        return Err(CcnetError::UnexpectedLength);
    }
    let nbills = data.len() / BILL_LEN;
    let mut bills: Vec<BillDescription> = Vec::new();
    let mut i: usize = 0;
    while i < nbills
        invariant
            i <= nbills,
            nbills * 5 == data@.len(),
            data@.len() <= usize::MAX,
            bills@.len() == i,
            forall|j: int|
                0 <= j < i ==> (#[trigger] bills@[j])@ == bill_spec(
                    data@.subrange(5 * j, 5 * j + 5),
                ),
        decreases nbills - i,
    {
        let bill = decode_bill(slice_subrange(data, i * 5, i * 5 + 5));
        bills.push(bill);
        i = i + 1;
    }
    assert(bill_table_view(bills@) =~= bill_table_spec(data@)->Ok_0);
    Ok(bills)
}

/// What a device tells about itself.
#[derive(Debug, Clone, PartialEq, Eq)]
pub struct Info {
    pub part_number: String,
    pub serial_number: String,
    pub asset_number: u64,
    pub boot_version_head: String,
    pub program_version_head: String,
    pub boot_version_cpu: String,
    pub program_version_cpu: String,
    pub boot_version_packer: String,
    pub program_version_packer: String,
    pub boot_version_cassette1: String,
    pub boot_version_cassette2: String,
    pub boot_version_cassette3: String,
    pub program_version_cassette: String,
}

/// An `Info` as a mathematical value.
#[verifier::ext_equal]
pub struct InfoView {
    pub part_number: Seq<char>,
    pub serial_number: Seq<char>,
    pub asset_number: u64,
    pub boot_version_head: Seq<char>,
    pub program_version_head: Seq<char>,
    pub boot_version_cpu: Seq<char>,
    pub program_version_cpu: Seq<char>,
    pub boot_version_packer: Seq<char>,
    pub program_version_packer: Seq<char>,
    pub boot_version_cassette1: Seq<char>,
    pub boot_version_cassette2: Seq<char>,
    pub boot_version_cassette3: Seq<char>,
    pub program_version_cassette: Seq<char>,
}

impl View for Info {
    type V = InfoView;

    open spec fn view(&self) -> InfoView {
        InfoView {
            part_number: self.part_number@,
            serial_number: self.serial_number@,
            asset_number: self.asset_number,
            boot_version_head: self.boot_version_head@,
            program_version_head: self.program_version_head@,
            boot_version_cpu: self.boot_version_cpu@,
            program_version_cpu: self.program_version_cpu@,
            boot_version_packer: self.boot_version_packer@,
            program_version_packer: self.program_version_packer@,
            boot_version_cassette1: self.boot_version_cassette1@,
            boot_version_cassette2: self.boot_version_cassette2@,
            boot_version_cassette3: self.boot_version_cassette3@,
            program_version_cassette: self.program_version_cassette@,
        }
    }
}

/// The identification that a message reports: exactly 109 bytes, each field
/// at its fixed place. A text field that is not UTF-8 reads as `UNKNOWN`.
pub open spec fn info_spec(data: Seq<u8>) -> Result<InfoView, CcnetError> {
    if data.len() == INFO_LEN {
        Ok(
            InfoView {
                part_number: text_spec(data.subrange(0, 15)),
                serial_number: text_spec(data.subrange(15, 27)),
                asset_number: be_u64_spec(data.subrange(27, 35)) as u64,
                boot_version_head: text_spec(data.subrange(35, 41)),
                program_version_head: text_spec(data.subrange(41, 61)),
                boot_version_cpu: text_spec(data.subrange(61, 67)),
                program_version_cpu: text_spec(data.subrange(67, 73)),
                boot_version_packer: text_spec(data.subrange(73, 79)),
                program_version_packer: text_spec(data.subrange(79, 85)),
                boot_version_cassette1: text_spec(data.subrange(85, 91)),
                boot_version_cassette2: text_spec(data.subrange(91, 97)),
                boot_version_cassette3: text_spec(data.subrange(97, 103)),
                program_version_cassette: text_spec(data.subrange(103, 109)),
            },
        )
    } else {
        Err(CcnetError::UnexpectedLength)
    }
}

/// Reads the identification out of a message.
pub fn decode_info(data: &[u8]) -> (r: Result<Info, CcnetError>)
    ensures
        result_view(r) == info_spec(data@),
{
    if data.len() != INFO_LEN {
        return Err(CcnetError::UnexpectedLength);
    }
    Ok(
        Info {
            part_number: bin_to_str(slice_subrange(data, 0, 15)),
            serial_number: bin_to_str(slice_subrange(data, 15, 27)),
            asset_number: be_u64(slice_subrange(data, 27, 35)),
            boot_version_head: bin_to_str(slice_subrange(data, 35, 41)),
            program_version_head: bin_to_str(slice_subrange(data, 41, 61)),
            boot_version_cpu: bin_to_str(slice_subrange(data, 61, 67)),
            program_version_cpu: bin_to_str(slice_subrange(data, 67, 73)),
            boot_version_packer: bin_to_str(slice_subrange(data, 73, 79)),
            program_version_packer: bin_to_str(slice_subrange(data, 79, 85)),
            boot_version_cassette1: bin_to_str(slice_subrange(data, 85, 91)),
            boot_version_cassette2: bin_to_str(slice_subrange(data, 91, 97)),
            boot_version_cassette3: bin_to_str(slice_subrange(data, 97, 103)),
            program_version_cassette: bin_to_str(slice_subrange(data, 103, 109)),
        },
    )
}

} // verus!
