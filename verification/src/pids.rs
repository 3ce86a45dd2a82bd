//! OBD2 requests and the decoding of their answers.
//!
//! Answers start with the response's length and service bytes; the value
//! follows from byte 2 on.  Values that the dashboard shows as real numbers
//! are decoded here to the raw integer the ECU sends; the scaling to
//! physical units is a single division done where the value is displayed.

use vstd::prelude::*;

verus! {

/// CAN ids of the ECUs that answer.
#[derive(Clone, Copy, Debug, PartialEq, Eq, Structural)]
pub enum Ids {
    Ecu,
}

impl Ids {
    /// The CAN id.
    pub fn id(&self) -> (r: u16)
        ensures
            r == 0x7E8,
    {
        0x7E8
    }
}

/// Mode-1 PIDs of the engine ECU, and the extended-service marker.
#[derive(Clone, Copy, Debug, PartialEq, Eq, Structural)]
pub enum EcuPids {
    EngineSpeed,
    HybridBatteryPackSoL,
    EngineOilTemperature,
    EngineFuelRate,
    EngineCoolantTemperature,
    TransmissionGear,
    Extended,
}

pub open spec fn ecu_pid_code(p: EcuPids) -> u8 {
    match p {
        EcuPids::EngineSpeed => 0x0C,
        EcuPids::HybridBatteryPackSoL => 0x5B,
        EcuPids::EngineOilTemperature => 0x5C,
        EcuPids::EngineFuelRate => 0x5E,
        EcuPids::EngineCoolantTemperature => 0x05,
        EcuPids::TransmissionGear => 0xA4,
        EcuPids::Extended => 0x21,
    }
}

impl EcuPids {
    /// The PID byte.
    pub fn code(&self) -> (r: u8)
        ensures
            r == ecu_pid_code(*self),
    {
        match self {
            EcuPids::EngineSpeed => 0x0C,
            EcuPids::HybridBatteryPackSoL => 0x5B,
            EcuPids::EngineOilTemperature => 0x5C,
            EcuPids::EngineFuelRate => 0x5E,
            EcuPids::EngineCoolantTemperature => 0x05,
            EcuPids::TransmissionGear => 0xA4,
            EcuPids::Extended => 0x21,
        }
    }
}

/// PIDs of the extended service.
#[derive(Clone, Copy, Debug, PartialEq, Eq, Structural)]
pub enum ExtendedPids {
    Bms,
}

impl ExtendedPids {
    /// The PID byte.
    pub fn code(&self) -> (r: u8)
        ensures
            r == 0x01,
    {
        0x01
    }
}

/// The requests the dashboard sends.
#[derive(Clone, Copy, Debug, PartialEq, Eq, Structural)]
pub enum Requests {
    EngineSpeed,
    HybridBatteryPackSoL,
    EngineOilTemperature,
    EngineFuelRate,
    EngineCoolantTemperature,
    TransmissionGear,
    Bms,
}

/// The frame of a request: two bytes follow the length, service 1 with the
/// mode-1 PID, or service 0x21 with the extended PID; zero padding to eight.
pub open spec fn request_frame(r: Requests) -> Seq<u8> {
    match r {
        Requests::EngineSpeed => seq![0x02u8, 0x01, 0x0C, 0x00, 0x00, 0x00, 0x00, 0x00],
        Requests::HybridBatteryPackSoL => seq![0x02u8, 0x01, 0x5B, 0x00, 0x00, 0x00, 0x00, 0x00],
        Requests::EngineOilTemperature => seq![0x02u8, 0x01, 0x5C, 0x00, 0x00, 0x00, 0x00, 0x00],
        Requests::EngineFuelRate => seq![0x02u8, 0x01, 0x5E, 0x00, 0x00, 0x00, 0x00, 0x00],
        Requests::EngineCoolantTemperature => seq![0x02u8, 0x01, 0x05, 0x00, 0x00, 0x00, 0x00, 0x00],
        Requests::TransmissionGear => seq![0x02u8, 0x01, 0xA4, 0x00, 0x00, 0x00, 0x00, 0x00],
        Requests::Bms => seq![0x02u8, 0x21, 0x01, 0x00, 0x00, 0x00, 0x00, 0x00],
    }
}

/// The PID a request asks for: the mode-1 PID of the value, or the
/// extended-service marker for the battery-management request.
pub open spec fn request_pid(r: Requests) -> EcuPids {
    match r {
        Requests::EngineSpeed => EcuPids::EngineSpeed,
        Requests::HybridBatteryPackSoL => EcuPids::HybridBatteryPackSoL,
        Requests::EngineOilTemperature => EcuPids::EngineOilTemperature,
        Requests::EngineFuelRate => EcuPids::EngineFuelRate,
        Requests::EngineCoolantTemperature => EcuPids::EngineCoolantTemperature,
        Requests::TransmissionGear => EcuPids::TransmissionGear,
        Requests::Bms => EcuPids::Extended,
    }
}

/// Every request frame is a two-byte request padded with zeros to eight
/// bytes: a mode-1 request is service 1 followed by the code of its PID, the
/// battery-management request is the extended service followed by the BMS
/// PID.  The PIDs of the decoded values are those their requests carry, and
/// different requests are different frames.
pub proof fn lemma_request_frames(r: Requests, q: Requests)
    ensures
        request_frame(r).len() == 8,
        request_frame(r)[0] == 0x02,
        forall|i: int| 3 <= i < 8 ==> request_frame(r)[i] == 0,
        r != Requests::Bms ==> request_frame(r)[1] == 0x01 && request_frame(r)[2] == ecu_pid_code(
            request_pid(r),
        ),
        r == Requests::Bms ==> request_frame(r)[1] == ecu_pid_code(EcuPids::Extended)
            && request_frame(r)[2] == 0x01,
        ecu_pid_code(EcuPids::EngineOilTemperature) == EngineOilTemperature::PID,
        ecu_pid_code(EcuPids::EngineCoolantTemperature) == EngineCoolantTemperature::PID,
        ecu_pid_code(EcuPids::TransmissionGear) == TransmissionGear::PID,
        r != q ==> request_frame(r) != request_frame(q),
{
    if r != q {
        assert(request_frame(r)[1] != request_frame(q)[1] || request_frame(r)[2] != request_frame(q)[2]);
    }
}

/// No two PIDs share a code.
pub proof fn lemma_ecu_pid_codes_distinct(a: EcuPids, b: EcuPids)
    ensures
        a != b ==> ecu_pid_code(a) != ecu_pid_code(b),
{
}

impl Requests {
    /// The eight bytes of the request frame.
    pub fn request(&self) -> (r: [u8; 8])
        ensures
            r@ == request_frame(*self),
            *self != Requests::Bms ==> r@[1] == 0x01 && r@[2] == ecu_pid_code(request_pid(*self)),
    {
        let r: [u8; 8] = match self {
            Requests::EngineSpeed => [0x02, 0x01, 0x0C, 0x00, 0x00, 0x00, 0x00, 0x00],
            Requests::HybridBatteryPackSoL => [0x02, 0x01, 0x5B, 0x00, 0x00, 0x00, 0x00, 0x00],
            Requests::EngineOilTemperature => [0x02, 0x01, 0x5C, 0x00, 0x00, 0x00, 0x00, 0x00],
            Requests::EngineFuelRate => [0x02, 0x01, 0x5E, 0x00, 0x00, 0x00, 0x00, 0x00],
            Requests::EngineCoolantTemperature => [0x02, 0x01, 0x05, 0x00, 0x00, 0x00, 0x00, 0x00],
            Requests::TransmissionGear => [0x02, 0x01, 0xA4, 0x00, 0x00, 0x00, 0x00, 0x00],
            Requests::Bms => [0x02, 0x21, 0x01, 0x00, 0x00, 0x00, 0x00, 0x00],
        };
        assert(r@ =~= request_frame(*self));
        r
    }
}

/// The 16-bit big-endian value in bytes 2 and 3 of an answer, when the answer
/// has them.  Engine speed is this value in quarter revolutions per minute,
/// the engine fuel rate this value in twentieths of a litre per hour.
pub fn parse_u16_value(data: &[u8]) -> (r: Option<u16>)
    ensures
        data@.len() < 4 ==> r is None,
        data@.len() >= 4 ==> (r matches Some(v) && v == data@[2] * 256 + data@[3]),
{
    if data.len() < 4 {
        return None;
    }
    Some(data[2] as u16 * 256 + data[3] as u16)
}

/// The byte 2 of an answer, when the answer has it.  The hybrid battery
/// state of charge is this byte in 255ths of 100 %.
pub fn parse_u8_value(data: &[u8]) -> (r: Option<u8>)
    ensures
        data@.len() < 3 ==> r is None,
        data@.len() >= 3 ==> r == Some(data@[2]),
{
    if data.len() < 3 {
        return None;
    }
    Some(data[2])
}

/// Engine oil temperature in degrees Celsius.
#[derive(Clone, Copy, Debug, PartialEq, Eq, Structural)]
pub struct EngineOilTemperature(pub i32);

impl EngineOilTemperature {
    pub const PID: u8 = 0x5C;

    /// Byte 2 of the answer, offset by -40 °C.
    pub fn parse(data: &[u8]) -> (r: Option<EngineOilTemperature>)
        ensures
            data@.len() < 3 ==> r is None,
            data@.len() >= 3 ==> (r matches Some(t) && t.0 == data@[2] as int - 40),
    {
        if data.len() < 3 {
            return None;
        }
        Some(EngineOilTemperature(data[2] as i32 - 40))
    }
}

/// Engine coolant temperature in degrees Celsius.
#[derive(Clone, Copy, Debug, PartialEq, Eq, Structural)]
pub struct EngineCoolantTemperature(pub i32);

impl EngineCoolantTemperature {
    pub const PID: u8 = 0x05;

    /// Byte 2 of the answer, offset by -40 °C.
    pub fn parse(data: &[u8]) -> (r: Option<EngineCoolantTemperature>)
        ensures
            data@.len() < 3 ==> r is None,
            data@.len() >= 3 ==> (r matches Some(t) && t.0 == data@[2] as int - 40),
    {
        if data.len() < 3 {
            return None;
        }
        Some(EngineCoolantTemperature(data[2] as i32 - 40))
    }
}

/// Gear reported by the transmission; `Park` is the default.
#[derive(Clone, Copy, Debug, PartialEq, Eq, Structural)]
pub enum TransmissionGear {
    D1,
    D2,
    D3,
    D4,
    D5,
    D6,
    D7,
    Park,
    Reverse,
    Neutral,
}

/// The gear that code `b` stands for: 1 to 7 are the drive gears, then park,
/// reverse and neutral.
pub open spec fn gear_of_code(b: u8) -> Option<TransmissionGear> {
    if b == 0x01 {
        Some(TransmissionGear::D1)
    } else if b == 0x02 {
        Some(TransmissionGear::D2)
    } else if b == 0x03 {
        Some(TransmissionGear::D3)
    } else if b == 0x04 {
        Some(TransmissionGear::D4)
    } else if b == 0x05 {
        Some(TransmissionGear::D5)
    } else if b == 0x06 {
        Some(TransmissionGear::D6)
    } else if b == 0x07 {
        Some(TransmissionGear::D7)
    } else if b == 0x08 {
        Some(TransmissionGear::Park)
    } else if b == 0x09 {
        Some(TransmissionGear::Reverse)
    } else if b == 0x0A {
        Some(TransmissionGear::Neutral)
    } else {
        None
    }
}

/// The code a gear is reported under: drive gear `Dk` as `k`, then park,
/// reverse and neutral as 8, 9 and 10.
pub open spec fn gear_code(g: TransmissionGear) -> u8 {
    match g {
        TransmissionGear::D1 => 1,
        TransmissionGear::D2 => 2,
        TransmissionGear::D3 => 3,
        TransmissionGear::D4 => 4,
        TransmissionGear::D5 => 5,
        TransmissionGear::D6 => 6,
        TransmissionGear::D7 => 7,
        TransmissionGear::Park => 8,
        TransmissionGear::Reverse => 9,
        TransmissionGear::Neutral => 10,
    }
}

/// Decoding a gear code is the inverse of the gear's code: the codes 1 to
/// 10 each decode to the one gear reported under that code, drive gear `Dk`
/// for `k` in 1 to 7, and no other byte decodes to a gear.
pub proof fn lemma_gear_codes(b: u8, g: TransmissionGear)
    ensures
        gear_of_code(b) == Some(g) <==> gear_code(g) == b,
        gear_of_code(b) is None <==> (b == 0 || b > 10),
        gear_of_code(gear_code(g)) == Some(g),
{
}

impl TransmissionGear {
    pub const PID: u8 = 0xA4;

    pub fn default() -> (r: TransmissionGear)
        ensures
            r == TransmissionGear::Park,
    {
        TransmissionGear::Park
    }

    /// The gear whose code is byte 2 of the answer.
    pub fn parse(data: &[u8]) -> (r: Option<TransmissionGear>)
        ensures
            data@.len() < 3 ==> r is None,
            data@.len() >= 3 ==> r == gear_of_code(data@[2]),
            r matches Some(g) ==> gear_code(g) == data@[2],
            (data@.len() >= 3 && 1 <= data@[2] <= 10) ==> r is Some,
    {
        if data.len() < 3 {
            return None;
        }
        match data[2] {
            0x01 => Some(TransmissionGear::D1),
            0x02 => Some(TransmissionGear::D2),
            0x03 => Some(TransmissionGear::D3),
            0x04 => Some(TransmissionGear::D4),
            0x05 => Some(TransmissionGear::D5),
            0x06 => Some(TransmissionGear::D6),
            0x07 => Some(TransmissionGear::D7),
            0x08 => Some(TransmissionGear::Park),
            0x09 => Some(TransmissionGear::Reverse),
            0x0A => Some(TransmissionGear::Neutral),
            _ => None,
        }
    }
}

/// The CAN id to which the battery-management request is broadcast.
pub const BMS_REQUEST_ID: u16 = 0x7DF;

/// Battery-management values: cell temperatures in degrees Celsius and the
/// pack voltage in tenths of a volt.
#[derive(Clone, Copy, Debug, PartialEq, Eq, Structural)]
pub struct BmsReading {
    pub max_temp: i8,
    pub min_temp: i8,
    pub dc_voltage_decivolts: u16,
}

impl BmsReading {
    /// The request frame sent to `BMS_REQUEST_ID`.
    pub fn request() -> (r: [u8; 8])
        ensures
            r@ == request_frame(Requests::Bms),
    {
        Requests::Bms.request()
    }

    /// Maximum temperature from byte 14, minimum from byte 15 (both signed),
    /// pack voltage from bytes 12 (high) and 13 (low).
    pub fn parse(data: &[u8]) -> (r: BmsReading)
        requires
            data@.len() >= 16,
        ensures
            r.max_temp == data@[14] as i8,
            r.min_temp == data@[15] as i8,
            r.dc_voltage_decivolts == data@[12] as u16 * 256 + data@[13] as u16,
    {
        BmsReading {
            max_temp: data[14] as i8,
            min_temp: data[15] as i8,
            dc_voltage_decivolts: data[12] as u16 * 256 + data[13] as u16,
        }
    }
}

} // verus!
