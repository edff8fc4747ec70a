//! The errors of the bill-validator link.

use vstd::prelude::*;

verus! {

/// Why an operation on the bill-validator link did not give its result.
#[derive(Clone, Copy, Debug, PartialEq, Eq, Structural)]
pub enum CcnetError {
    /// The transport failed: it could not write, or no byte came in time.
    Transport,
    /// A request payload of more than 250 bytes.
    PayloadTooLarge,
    /// The frame names another address than the one the request went to.
    AddressMismatch,
    /// The frame declares a length under six bytes, or ends before its
    /// address or length byte.
    FrameTooShort,
    /// The frame declares another length than the number of bytes it has.
    LengthMismatch,
    /// The checksum that the frame carries is not the one of its bytes.
    IntegrityError,
    /// The device answered with a negative acknowledgment.
    Nack,
    /// The device answered that the command is not valid.
    IncCmd,
    /// The device acknowledged where it owed data.
    UnexpectedAck,
    /// The device sent data where it owed a bare acknowledgment.
    UnexpectedMessage,
    /// A status message without a single byte.
    EmptyStatus,
    /// An escrow status without the byte that names the bill type.
    MissingBillType,
    /// A message whose length does not fit the command it answers.
    UnexpectedLength,
    /// Fewer packed bytes than the number of bits asked for.
    NotEnoughBytes,
    /// An event that the exchange was not waiting for.
    OutOfTurn,
}

impl CcnetError {
    /// A line of text for the operator.
    pub fn message(&self) -> (text: String)
        ensures
            text@ == self.message_spec(),
    {
        match self {
            CcnetError::Transport => "Transport failure".to_owned(),
            CcnetError::PayloadTooLarge => "Data too big, max: 250".to_owned(),
            CcnetError::AddressMismatch => "Expected addr in response does not match the real address of the response".to_owned(),
            CcnetError::FrameTooShort => "Specified frame len too small".to_owned(),
            CcnetError::LengthMismatch => "Specified frame len does not match the frame".to_owned(),
            CcnetError::IntegrityError => "Integrity error".to_owned(),
            CcnetError::Nack => "NACK".to_owned(),
            CcnetError::IncCmd => "INC_CMD".to_owned(),
            CcnetError::UnexpectedAck => "Device return ACK on request for data".to_owned(),
            CcnetError::UnexpectedMessage => "Device return Message on request for ACK".to_owned(),
            CcnetError::EmptyStatus => "Data len in message is zero".to_owned(),
            CcnetError::MissingBillType => "In 'Escrow' status not specified 'BillType' field".to_owned(),
            CcnetError::UnexpectedLength => "Incorrect data len".to_owned(),
            CcnetError::NotEnoughBytes => "Count of bytes from src less then must have".to_owned(),
            CcnetError::OutOfTurn => "Event out of turn".to_owned(),
        }
    }

    /// The text of `message`.
    pub open spec fn message_spec(self) -> Seq<char> {
        match self {
            CcnetError::Transport => "Transport failure"@,
            CcnetError::PayloadTooLarge => "Data too big, max: 250"@,
            CcnetError::AddressMismatch => "Expected addr in response does not match the real address of the response"@,
            CcnetError::FrameTooShort => "Specified frame len too small"@,
            CcnetError::LengthMismatch => "Specified frame len does not match the frame"@,
            CcnetError::IntegrityError => "Integrity error"@,
            CcnetError::Nack => "NACK"@,
            CcnetError::IncCmd => "INC_CMD"@,
            CcnetError::UnexpectedAck => "Device return ACK on request for data"@,
            CcnetError::UnexpectedMessage => "Device return Message on request for ACK"@,
            CcnetError::EmptyStatus => "Data len in message is zero"@,
            CcnetError::MissingBillType => "In 'Escrow' status not specified 'BillType' field"@,
            CcnetError::UnexpectedLength => "Incorrect data len"@,
            CcnetError::NotEnoughBytes => "Count of bytes from src less then must have"@,
            CcnetError::OutOfTurn => "Event out of turn"@,
        }
    }
}

/// The view of a result: the value by its view, the error as it is.
pub open spec fn result_view<T: View>(r: Result<T, CcnetError>) -> Result<T::V, CcnetError> {
    match r {
        Ok(value) => Ok(value@),
        Err(e) => Err(e),
    }
}

} // verus!
