//! The 90-byte control-protocol frame: status codes, the closed command
//! catalog, and the codec that lays a request out on the wire and validates
//! a reply against the request that caused it.

use crate::RazerError;
use vstd::prelude::*;

verus! {

/// Different status codes that can be sent in the razer report.
#[derive(Debug, Clone, Copy, PartialEq, Eq, Structural)]
pub enum RazerStatus {
    /// Used to send commands to the device
    NewCommand,
    /// The device is too busy to respond
    CommandBusy,
    /// The command returned correctly
    CommandSuccessful,
    /// The command failed to run
    CommandFailure,
    /// The command timed out
    CommandNoResponseOrTimeout,
    /// The command is not supported by this device
    CommandNotSupport,
}

impl RazerStatus {
    /// The wire encoding of this status.
    pub open spec fn spec_value(self) -> u8 {
        match self {
            RazerStatus::NewCommand => 0,
            RazerStatus::CommandBusy => 1,
            RazerStatus::CommandSuccessful => 2,
            RazerStatus::CommandFailure => 3,
            RazerStatus::CommandNoResponseOrTimeout => 4,
            RazerStatus::CommandNotSupport => 5,
        }
    }

    pub fn value(self) -> (v: u8)
        ensures
            v == self.spec_value(),
    {
        match self {
            RazerStatus::NewCommand => 0,
            RazerStatus::CommandBusy => 1,
            RazerStatus::CommandSuccessful => 2,
            RazerStatus::CommandFailure => 3,
            RazerStatus::CommandNoResponseOrTimeout => 4,
            RazerStatus::CommandNotSupport => 5,
        }
    }

    /// The status a byte stands for, if any.
    pub open spec fn spec_from_repr(v: u8) -> Option<RazerStatus> {
        if v == 0 {
            Some(RazerStatus::NewCommand)
        } else if v == 1 {
            Some(RazerStatus::CommandBusy)
        } else if v == 2 {
            Some(RazerStatus::CommandSuccessful)
        } else if v == 3 {
            Some(RazerStatus::CommandFailure)
        } else if v == 4 {
            Some(RazerStatus::CommandNoResponseOrTimeout)
        } else if v == 5 {
            Some(RazerStatus::CommandNotSupport)
        } else {
            None
        }
    }

    pub fn from_repr(v: u8) -> (r: Option<RazerStatus>)
        ensures
            r == RazerStatus::spec_from_repr(v),
    {
        match v {
            0 => Some(RazerStatus::NewCommand),
            1 => Some(RazerStatus::CommandBusy),
            2 => Some(RazerStatus::CommandSuccessful),
            3 => Some(RazerStatus::CommandFailure),
            4 => Some(RazerStatus::CommandNoResponseOrTimeout),
            5 => Some(RazerStatus::CommandNotSupport),
            _ => None,
        }
    }
}

/// Some magic that some devices need to be different; selected per product
/// by the device registries.
#[derive(Debug, Clone, Copy, PartialEq, Eq, Structural)]
pub enum RazerTransactionDevice {
    Default,
    Zero,
    One,
    Four,
    Seven,
}

impl RazerTransactionDevice {
    /// The high bits this selector contributes to the transaction id byte.
    pub open spec fn spec_value(self) -> u8 {
        match self {
            RazerTransactionDevice::Default => 0xE0,
            RazerTransactionDevice::Zero => 0x00,
            RazerTransactionDevice::One => 0x20,
            RazerTransactionDevice::Four => 0x80,
            RazerTransactionDevice::Seven => 0xC0,
        }
    }

    pub fn value(self) -> (v: u8)
        ensures
            v == self.spec_value(),
    {
        match self {
            RazerTransactionDevice::Default => 0xE0,
            RazerTransactionDevice::Zero => 0x00,
            RazerTransactionDevice::One => 0x20,
            RazerTransactionDevice::Four => 0x80,
            RazerTransactionDevice::Seven => 0xC0,
        }
    }
}

/// The fixed low-bit tag that every transaction id carries.
pub const RAZER_TRANSACTION_ID_TAG: u8 = 0x1F;

/// Different groups of commands that can be sent to the device.
#[derive(Debug, Clone, Copy, PartialEq, Eq, Structural)]
pub enum RazerCommandClass {
    StandardDevice,
    StandardLED,
    ExtendedMatrix,
    Misc,
    Blade,
}

impl RazerCommandClass {
    /// The wire encoding of this command class.
    pub open spec fn spec_value(self) -> u8 {
        match self {
            RazerCommandClass::StandardDevice => 0x00,
            RazerCommandClass::StandardLED => 0x03,
            RazerCommandClass::ExtendedMatrix => 0x0F,
            RazerCommandClass::Misc => 0x07,
            RazerCommandClass::Blade => 0x0E,
        }
    }

    pub fn value(self) -> (v: u8)
        ensures
            v == self.spec_value(),
    {
        match self {
            RazerCommandClass::StandardDevice => 0x00,
            RazerCommandClass::StandardLED => 0x03,
            RazerCommandClass::ExtendedMatrix => 0x0F,
            RazerCommandClass::Misc => 0x07,
            RazerCommandClass::Blade => 0x0E,
        }
    }
}

/// The direction of the command being sent.
#[derive(Debug, Clone, Copy, PartialEq, Eq, Structural)]
pub enum RazerCommandDirection {
    /// Used to set settings on the device
    HostToDevice,
    /// Used to get settings from the device
    DeviceToHost,
}

impl RazerCommandDirection {
    /// The direction bit that is OR'd into the command id on the wire.
    pub open spec fn spec_value(self) -> u8 {
        match self {
            RazerCommandDirection::HostToDevice => 0x00,
            RazerCommandDirection::DeviceToHost => 0x80,
        }
    }

    pub fn value(self) -> (v: u8)
        ensures
            v == self.spec_value(),
    {
        match self {
            RazerCommandDirection::HostToDevice => 0x00,
            RazerCommandDirection::DeviceToHost => 0x80,
        }
    }
}

/// Every kind of command that can be sent to a device. The closed catalog
/// associates each with a command class, a base id, and the size of the
/// payload a reply to it declares.
#[derive(Debug, Clone, Copy, PartialEq, Eq, Structural)]
pub enum RazerCommand {
    DeviceMode,
    Serial,
    FirmwareVersion,
    LedState,
    LedBlinking,
    LedRgb,
    LedEffect,
    LedBrightness,
    StandardMatrixEffect,
    StandardMatrixCustomFrame,
    ExtendedMatrixBrightness,
    BladeBrightness,
    BatteryCharge,
    ChargingStatus,
}

impl RazerCommand {
    /// The command class of this catalog entry.
    pub open spec fn spec_class(self) -> RazerCommandClass {
        match self {
            RazerCommand::DeviceMode => RazerCommandClass::StandardDevice,
            RazerCommand::Serial => RazerCommandClass::StandardDevice,
            RazerCommand::FirmwareVersion => RazerCommandClass::StandardDevice,
            RazerCommand::LedState => RazerCommandClass::StandardLED,
            RazerCommand::LedBlinking => RazerCommandClass::StandardLED,
            RazerCommand::LedRgb => RazerCommandClass::StandardLED,
            RazerCommand::LedEffect => RazerCommandClass::StandardLED,
            RazerCommand::LedBrightness => RazerCommandClass::StandardLED,
            RazerCommand::StandardMatrixEffect => RazerCommandClass::StandardLED,
            RazerCommand::StandardMatrixCustomFrame => RazerCommandClass::StandardLED,
            RazerCommand::ExtendedMatrixBrightness => RazerCommandClass::ExtendedMatrix,
            RazerCommand::BladeBrightness => RazerCommandClass::Blade,
            RazerCommand::BatteryCharge => RazerCommandClass::Misc,
            RazerCommand::ChargingStatus => RazerCommandClass::Misc,
        }
    }

    /// The base command id of this catalog entry, before the direction bit
    /// is OR'd in.
    pub open spec fn spec_base_id(self) -> u8 {
        match self {
            RazerCommand::DeviceMode => 0x04,
            RazerCommand::Serial => 0x02,
            RazerCommand::FirmwareVersion => 0x01,
            RazerCommand::LedState => 0x00,
            RazerCommand::LedBlinking => 0x04,
            RazerCommand::LedRgb => 0x01,
            RazerCommand::LedEffect => 0x02,
            RazerCommand::LedBrightness => 0x03,
            RazerCommand::StandardMatrixEffect => 0x0A,
            RazerCommand::StandardMatrixCustomFrame => 0x0B,
            RazerCommand::ExtendedMatrixBrightness => 0x04,
            RazerCommand::BladeBrightness => 0x04,
            RazerCommand::BatteryCharge => 0x80,
            RazerCommand::ChargingStatus => 0x84,
        }
    }

    /// The payload size a reply to this command declares.
    pub open spec fn spec_reply_size(self) -> u8 {
        match self {
            RazerCommand::DeviceMode => 2,
            RazerCommand::Serial => 22,
            RazerCommand::FirmwareVersion => 2,
            RazerCommand::LedState => 3,
            RazerCommand::LedBlinking => 4,
            RazerCommand::LedRgb => 5,
            RazerCommand::LedEffect => 3,
            RazerCommand::LedBrightness => 3,
            RazerCommand::StandardMatrixEffect => 8,
            RazerCommand::StandardMatrixCustomFrame => 70,
            RazerCommand::ExtendedMatrixBrightness => 3,
            RazerCommand::BladeBrightness => 2,
            RazerCommand::BatteryCharge => 2,
            RazerCommand::ChargingStatus => 2,
        }
    }

    pub fn class(self) -> (c: RazerCommandClass)
        ensures
            c == self.spec_class(),
    {
        match self {
            RazerCommand::DeviceMode => RazerCommandClass::StandardDevice,
            RazerCommand::Serial => RazerCommandClass::StandardDevice,
            RazerCommand::FirmwareVersion => RazerCommandClass::StandardDevice,
            RazerCommand::LedState => RazerCommandClass::StandardLED,
            RazerCommand::LedBlinking => RazerCommandClass::StandardLED,
            RazerCommand::LedRgb => RazerCommandClass::StandardLED,
            RazerCommand::LedEffect => RazerCommandClass::StandardLED,
            RazerCommand::LedBrightness => RazerCommandClass::StandardLED,
            RazerCommand::StandardMatrixEffect => RazerCommandClass::StandardLED,
            RazerCommand::StandardMatrixCustomFrame => RazerCommandClass::StandardLED,
            RazerCommand::ExtendedMatrixBrightness => RazerCommandClass::ExtendedMatrix,
            RazerCommand::BladeBrightness => RazerCommandClass::Blade,
            RazerCommand::BatteryCharge => RazerCommandClass::Misc,
            RazerCommand::ChargingStatus => RazerCommandClass::Misc,
        }
    }

    pub fn base_id(self) -> (i: u8)
        ensures
            i == self.spec_base_id(),
    {
        match self {
            RazerCommand::DeviceMode => 0x04,
            RazerCommand::Serial => 0x02,
            RazerCommand::FirmwareVersion => 0x01,
            RazerCommand::LedState => 0x00,
            RazerCommand::LedBlinking => 0x04,
            RazerCommand::LedRgb => 0x01,
            RazerCommand::LedEffect => 0x02,
            RazerCommand::LedBrightness => 0x03,
            RazerCommand::StandardMatrixEffect => 0x0A,
            RazerCommand::StandardMatrixCustomFrame => 0x0B,
            RazerCommand::ExtendedMatrixBrightness => 0x04,
            RazerCommand::BladeBrightness => 0x04,
            RazerCommand::BatteryCharge => 0x80,
            RazerCommand::ChargingStatus => 0x84,
        }
    }

    pub fn reply_size(self) -> (s: u8)
        ensures
            s == self.spec_reply_size(),
    {
        match self {
            RazerCommand::DeviceMode => 2,
            RazerCommand::Serial => 22,
            RazerCommand::FirmwareVersion => 2,
            RazerCommand::LedState => 3,
            RazerCommand::LedBlinking => 4,
            RazerCommand::LedRgb => 5,
            RazerCommand::LedEffect => 3,
            RazerCommand::LedBrightness => 3,
            RazerCommand::StandardMatrixEffect => 8,
            RazerCommand::StandardMatrixCustomFrame => 70,
            RazerCommand::ExtendedMatrixBrightness => 3,
            RazerCommand::BladeBrightness => 2,
            RazerCommand::BatteryCharge => 2,
            RazerCommand::ChargingStatus => 2,
        }
    }
}

/// Every declared reply size in the catalog fits the 80-byte payload.
pub proof fn lemma_reply_size_fits(cmd: RazerCommand)
    ensures
        cmd.spec_reply_size() <= 80,
{
}

/// XOR of a sequence of bytes, folded left to right.
pub open spec fn xor_bytes(s: Seq<u8>) -> u8
    decreases s.len(),
{
    if s.len() == 0 {
        0
    } else {
        xor_bytes(s.drop_last()) ^ s.last()
    }
}

/// Errors of the encoder itself, raised before anything touches the wire.
#[derive(Debug, Clone, Copy, PartialEq, Eq, Structural)]
pub enum EncodeError {
    /// The request body exceeds the 80 bytes the frame can carry.
    BodyTooLarge,
}

/// A single request (or the expectations against which a reply is checked):
/// everything needed to lay a frame out on the wire.
#[derive(Debug, Clone)]
pub struct RazerReport {
    pub report_id: u8,
    pub status: RazerStatus,
    pub transaction_device: RazerTransactionDevice,
    /// Big-endian on the wire; always 0 here.
    pub remaining_packets: u16,
    pub command_direction: RazerCommandDirection,
    pub command: RazerCommand,
    pub body: Vec<u8>,
}

impl RazerReport {
    pub fn new(
        command_direction: RazerCommandDirection,
        command: RazerCommand,
        body: Vec<u8>,
        transaction_device: RazerTransactionDevice,
    ) -> (r: RazerReport)
        ensures
            r.report_id == 0,
            r.status == RazerStatus::NewCommand,
            r.transaction_device == transaction_device,
            r.remaining_packets == 0,
            r.command_direction == command_direction,
            r.command == command,
            r.body == body,
    {
        RazerReport {
            report_id: 0,
            status: RazerStatus::NewCommand,
            transaction_device,
            // this seems to always be 0
            remaining_packets: 0,
            command_direction,
            command,
            body,
        }
    }

    /// The transaction id byte: the device selector's high bits OR'd with
    /// the fixed low-bit tag.
    pub open spec fn spec_transaction_id(self) -> u8 {
        self.transaction_device.spec_value() | RAZER_TRANSACTION_ID_TAG
    }

    /// The declared data size: the body length for host-to-device requests,
    /// the catalog's reply size for device-to-host ones.
    pub open spec fn spec_data_size(self) -> u8 {
        match self.command_direction {
            RazerCommandDirection::HostToDevice => self.body@.len() as u8,
            RazerCommandDirection::DeviceToHost => self.command.spec_reply_size(),
        }
    }

    /// The nine header bytes of the frame: report id, status, transaction
    /// id, remaining packets (big-endian), protocol type, data size,
    /// command class, and command id with the direction bit OR'd in.
    pub open spec fn spec_header(self) -> Seq<u8> {
        seq![
            self.report_id,
            self.status.spec_value(),
            self.spec_transaction_id(),
            (self.remaining_packets >> 8) as u8,
            (self.remaining_packets & 0xFF) as u8,
            0u8,
            self.spec_data_size(),
            self.command.spec_class().spec_value(),
            self.command.spec_base_id() | self.command_direction.spec_value(),
        ]
    }

    /// The body, zero-padded to the fixed 80 bytes.
    pub open spec fn spec_padded_body(self) -> Seq<u8> {
        self.body@ + Seq::new((80 - self.body@.len()) as nat, |i: int| 0u8)
    }

    /// The checksum: XOR of every byte from the transaction id through the
    /// last body byte (frame offsets 2 through 88 inclusive).
    pub open spec fn spec_crc(self) -> u8 {
        xor_bytes(self.spec_header().skip(2) + self.spec_padded_body())
    }

    /// The full 91-byte frame as it goes out on the wire.
    pub open spec fn spec_frame(self) -> Seq<u8> {
        self.spec_header() + self.spec_padded_body() + seq![self.spec_crc(), 0u8]
    }

    /// Lays the request out on the wire: header, body zero-padded to 80
    /// bytes, checksum, reserved zero.
    pub fn create_payload(&self) -> (r: Result<Vec<u8>, EncodeError>)
        ensures
            self.body@.len() > 80 <==> r == Err::<Vec<u8>, EncodeError>(EncodeError::BodyTooLarge),
            self.body@.len() <= 80 ==> (r matches Ok(buf) && buf@ == self.spec_frame()),
    {
        if self.body.len() > 80 {
            return Err(EncodeError::BodyTooLarge);
        }
        let mut buf: Vec<u8> = Vec::new();
        buf.push(self.report_id);
        buf.push(self.status.value());
        buf.push(self.transaction_device.value() | RAZER_TRANSACTION_ID_TAG);
        buf.push((self.remaining_packets >> 8) as u8);
        buf.push((self.remaining_packets & 0xFF) as u8);
        // protocol type
        buf.push(0u8);
        let data_size: u8 = match self.command_direction {
            RazerCommandDirection::HostToDevice => self.body.len() as u8,
            RazerCommandDirection::DeviceToHost => self.command.reply_size(),
        };
        buf.push(data_size);
        buf.push(self.command.class().value());
        buf.push(self.command.base_id() | self.command_direction.value());
        assert(buf@ == self.spec_header());
        let mut i: usize = 0;
        while i < self.body.len()
            invariant
                i <= self.body@.len() <= 80,
                buf@ == self.spec_header() + self.body@.take(i as int),
            decreases self.body@.len() - i,
        {
            buf.push(self.body[i]);
            i += 1;
        }
        assert(self.body@.take(self.body@.len() as int) == self.body@);
        // zero out the remaining body bytes
        while buf.len() < 89
            invariant
                9 + self.body@.len() <= buf@.len() <= 89,
                buf@ == (self.spec_header() + self.spec_padded_body()).take(buf@.len() as int),
            decreases 89 - buf@.len(),
        {
            assert((self.spec_header() + self.spec_padded_body())[buf@.len() as int] == 0u8);
            buf.push(0u8);
            assert(buf@ =~= (self.spec_header() + self.spec_padded_body()).take(
                buf@.len() as int,
            ));
        }
        assert(buf@ =~= self.spec_header() + self.spec_padded_body());
        let mut crc: u8 = 0;
        let mut j: usize = 2;
        while j < 89
            invariant
                2 <= j <= 89,
                buf@ == self.spec_header() + self.spec_padded_body(),
                buf@.len() == 89,
                crc == xor_bytes(buf@.subrange(2, j as int)),
            decreases 89 - j,
        {
            let ghost prefix = buf@.subrange(2, j as int);
            crc = crc ^ buf[j];
            j += 1;
            proof {
                let next = buf@.subrange(2, j as int);
                assert(next.drop_last() =~= prefix);
                assert(next.last() == buf@[j - 1]);
            }
        }
        proof {
            assert(buf@.subrange(2, 89) =~= self.spec_header().skip(2) + self.spec_padded_body());
        }
        buf.push(crc);
        // reserved
        buf.push(0u8);
        assert(buf@ =~= self.spec_frame());
        Ok(buf)
    }
}

impl RazerReport {
    /// What decoding a 91-byte reply buffer against this request yields:
    /// the checks of the codec in their fixed order, each with the error it
    /// raises, and on success the declared body slice. The reply's
    /// transaction id, protocol type, and checksum bytes are not checked.
    pub open spec fn spec_decode(self, b: Seq<u8>) -> Result<Seq<u8>, RazerError> {
        if b[0] != self.report_id {
            Err(RazerError::MismatchResponse("report id"))
        } else {
            match RazerStatus::spec_from_repr(b[1]) {
                None => Err(RazerError::FailedToParse("invalid status")),
                Some(status) => {
                    if status != RazerStatus::CommandSuccessful {
                        Err(RazerError::BadStatus(status))
                    } else if b[3] as int * 256 + b[4] as int != self.remaining_packets as int {
                        Err(RazerError::MismatchResponse("remaining packets"))
                    } else if b[6] > 80 {
                        Err(RazerError::FailedToParse("invalid data size"))
                    } else if b[6] != self.command.spec_reply_size() {
                        Err(RazerError::MismatchResponse("wrong size packet"))
                    } else if b[7] != self.command.spec_class().spec_value() {
                        Err(RazerError::MismatchResponse("command class"))
                    } else if b[8] != (self.command.spec_base_id()
                        | self.command_direction.spec_value()) {
                        Err(RazerError::MismatchResponse("command id"))
                    } else {
                        Ok(b.subrange(9, 9 + b[6] as int))
                    }
                },
            }
        }
    }

    /// Checks a reply buffer against the request this report describes and
    /// returns the declared body bytes.
    pub fn verify_response(&self, response_buffer: &[u8]) -> (r: Result<Vec<u8>, RazerError>)
        requires
            response_buffer@.len() == 91,
        ensures
            self.spec_decode(response_buffer@) matches Ok(body) ==> (r matches Ok(v) && v@
                == body),
            self.spec_decode(response_buffer@) matches Err(e) ==> r == Err::<Vec<u8>, RazerError>(
                e,
            ),
    {
        if response_buffer[0] != self.report_id {
            return Err(RazerError::MismatchResponse("report id"));
        }
        let status = match RazerStatus::from_repr(response_buffer[1]) {
            None => { return Err(RazerError::FailedToParse("invalid status")) },
            Some(status) => status,
        };
        if status != RazerStatus::CommandSuccessful {
            return Err(RazerError::BadStatus(status));
        }
        let remaining: u16 = response_buffer[3] as u16 * 256 + response_buffer[4] as u16;
        if remaining != self.remaining_packets {
            return Err(RazerError::MismatchResponse("remaining packets"));
        }
        let response_data_size = response_buffer[6];
        if response_data_size > 80 {
            return Err(RazerError::FailedToParse("invalid data size"));
        }
        if response_data_size != self.command.reply_size() {
            return Err(RazerError::MismatchResponse("wrong size packet"));
        }
        if response_buffer[7] != self.command.class().value() {
            return Err(RazerError::MismatchResponse("command class"));
        }
        if response_buffer[8] != (self.command.base_id() | self.command_direction.value()) {
            return Err(RazerError::MismatchResponse("command id"));
        }
        let mut body: Vec<u8> = Vec::new();
        let mut i: usize = 0;
        while i < response_data_size as usize
            invariant
                i <= response_data_size as usize <= 80,
                response_buffer@.len() == 91,
                body@ == response_buffer@.subrange(9, 9 + i as int),
            decreases response_data_size as int - i,
        {
            body.push(response_buffer[9 + i]);
            i += 1;
            assert(body@ =~= response_buffer@.subrange(9, 9 + i as int));
        }
        Ok(body)
    }
}

/// Round trip: a reply buffer synthesized with a successful status,
/// remaining packets of zero to match the request, the catalog's declared
/// size, and the matching class and direction-tagged id is accepted by
/// decode, which returns exactly the body slice of that declared length.
pub proof fn lemma_decode_round_trip(report: RazerReport, b: Seq<u8>)
    requires
        b.len() == 91,
        b[0] == report.report_id,
        b[1] == 2,
        report.remaining_packets == 0,
        b[3] == 0,
        b[4] == 0,
        b[6] == report.command.spec_reply_size(),
        b[7] == report.command.spec_class().spec_value(),
        b[8] == (report.command.spec_base_id() | report.command_direction.spec_value()),
    ensures
        report.spec_decode(b) == Ok::<Seq<u8>, RazerError>(b.subrange(9, 9 + b[6] as int)),
        report.spec_decode(b).unwrap().len() == report.command.spec_reply_size(),
{
    lemma_reply_size_fits(report.command);
}

/// Decode rejects every single-field mutation of an accepted reply, each
/// with the specific error of the field that was touched: a flipped command
/// class, a flipped command id, a changed status byte (known statuses other
/// than success report the status itself; unknown bytes fail to parse), and
/// a data size bumped past the 80-byte limit.
pub proof fn lemma_decode_rejects_mutations(report: RazerReport, b: Seq<u8>, c: u8)
    requires
        b.len() == 91,
        report.spec_decode(b) is Ok,
    ensures
        c != b[7] ==> report.spec_decode(b.update(7, c)) == Err::<Seq<u8>, RazerError>(
            RazerError::MismatchResponse("command class"),
        ),
        c != b[8] ==> report.spec_decode(b.update(8, c)) == Err::<Seq<u8>, RazerError>(
            RazerError::MismatchResponse("command id"),
        ),
        c <= 5 && c != 2 ==> report.spec_decode(b.update(1, c)) == Err::<Seq<u8>, RazerError>(
            RazerError::BadStatus(RazerStatus::spec_from_repr(c).unwrap()),
        ),
        c > 5 ==> report.spec_decode(b.update(1, c)) == Err::<Seq<u8>, RazerError>(
            RazerError::FailedToParse("invalid status"),
        ),
        report.spec_decode(b.update(6, 81)) == Err::<Seq<u8>, RazerError>(
            RazerError::FailedToParse("invalid data size"),
        ),
{
}

/// Every frame built by the encoder is exactly 91 bytes, and its data-size
/// byte is the body length for host-to-device requests and the catalog's
/// declared reply size for device-to-host ones.
pub proof fn lemma_frame_shape(report: RazerReport)
    requires
        report.body@.len() <= 80,
    ensures
        report.spec_frame().len() == 91,
        report.spec_frame()[6] == report.spec_data_size(),
        report.command_direction == RazerCommandDirection::HostToDevice ==> report.spec_frame()[6]
            == report.body@.len(),
        report.command_direction == RazerCommandDirection::DeviceToHost ==> report.spec_frame()[6]
            == report.command.spec_reply_size(),
{
}

/// In every frame built by the encoder, the checksum byte at offset 89 is
/// the XOR of the bytes at offsets 2 through 88 inclusive, and the reserved
/// byte at offset 90 is zero.
pub proof fn lemma_frame_checksum(report: RazerReport)
    requires
        report.body@.len() <= 80,
    ensures
        report.spec_frame()[89] == xor_bytes(report.spec_frame().subrange(2, 89)),
        report.spec_frame()[90] == 0,
{
    assert(report.spec_frame().subrange(2, 89) =~= report.spec_header().skip(2)
        + report.spec_padded_body());
}

/// The transaction id byte of every frame is the device selector OR'd with
/// the fixed low-bit tag, whatever quirk the registry picked.
pub proof fn lemma_frame_transaction_id(report: RazerReport)
    requires
        report.body@.len() <= 80,
    ensures
        report.spec_frame()[2] == report.transaction_device.spec_value()
            | RAZER_TRANSACTION_ID_TAG,
{
}

/// Every kind of LED on razer devices.
#[derive(Debug, Clone, Copy, PartialEq, Eq, Structural)]
pub enum RazerLed {
    Zero,
    ScrollWheel,
    Battery,
    Logo,
    Backlight,
    Macro,
    Game,
    RedProfile,
    GreenProfile,
    BlueProfile,
    RightSide,
    LeftSide,
    Charging,
    FastCharging,
    FullyCharging,
}

impl RazerLed {
    /// The wire encoding of this LED identifier.
    pub open spec fn spec_value(self) -> u8 {
        match self {
            RazerLed::Zero => 0x00,
            RazerLed::ScrollWheel => 0x01,
            RazerLed::Battery => 0x03,
            RazerLed::Logo => 0x04,
            RazerLed::Backlight => 0x05,
            RazerLed::Macro => 0x07,
            RazerLed::Game => 0x08,
            RazerLed::RedProfile => 0x0C,
            RazerLed::GreenProfile => 0x0D,
            RazerLed::BlueProfile => 0x0E,
            RazerLed::RightSide => 0x10,
            RazerLed::LeftSide => 0x11,
            RazerLed::Charging => 0x20,
            RazerLed::FastCharging => 0x21,
            RazerLed::FullyCharging => 0x22,
        }
    }

    pub fn value(self) -> (v: u8)
        ensures
            v == self.spec_value(),
    {
        match self {
            RazerLed::Zero => 0x00,
            RazerLed::ScrollWheel => 0x01,
            RazerLed::Battery => 0x03,
            RazerLed::Logo => 0x04,
            RazerLed::Backlight => 0x05,
            RazerLed::Macro => 0x07,
            RazerLed::Game => 0x08,
            RazerLed::RedProfile => 0x0C,
            RazerLed::GreenProfile => 0x0D,
            RazerLed::BlueProfile => 0x0E,
            RazerLed::RightSide => 0x10,
            RazerLed::LeftSide => 0x11,
            RazerLed::Charging => 0x20,
            RazerLed::FastCharging => 0x21,
            RazerLed::FullyCharging => 0x22,
        }
    }
}

/// Tells the device if it should remember the command, or just set it
/// temporarily.
///
/// Not all devices support saving, and also saving too often can wear down
/// memory.
#[derive(Debug, Clone, Copy, PartialEq, Eq, Structural)]
pub enum RazerStorage {
    /// Only set value temporarily
    NoStore,
    /// Save setting to survive restart
    VarStore,
}

impl RazerStorage {
    /// The wire encoding of this storage selector.
    pub open spec fn spec_value(self) -> u8 {
        match self {
            RazerStorage::NoStore => 0x00,
            RazerStorage::VarStore => 0x01,
        }
    }

    pub fn value(self) -> (v: u8)
        ensures
            v == self.spec_value(),
    {
        match self {
            RazerStorage::NoStore => 0x00,
            RazerStorage::VarStore => 0x01,
        }
    }
}

} // verus!
