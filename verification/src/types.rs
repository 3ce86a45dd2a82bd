//! Messages exchanged between the dashboard, the modem and the host tools.
//!
//! Values that carry floating-point measurements are represented here by the
//! part the logic reads: their variant.  Equality of `PidKind` and `ModemKind`
//! is equality of variants, as for the measurement-carrying values themselves.

use vstd::prelude::*;

verus! {

/// A raw OBD2 frame: the PID it answers and its payload.
pub struct Obd2Frame {
    pub pid: u16,
    pub data: Vec<u8>,
}

impl Obd2Frame {
    /// The empty frame (`pid` 0, no data).
    pub fn default() -> (r: Obd2Frame)
        ensures
            r.pid == 0,
            r.data@.len() == 0,
    {
        Obd2Frame { pid: 0, data: Vec::new() }
    }
}

#[derive(Clone, Copy, Debug, PartialEq, Eq, Structural)]
pub struct HybridDcDcPid {
    pub gear: i32,
}

#[derive(Clone, Copy, Debug, PartialEq, Eq, Structural)]
pub struct IceEnginePid {
    pub gear: i32,
}

/// Door, lock, belt and ignition states reported by the instrument cluster.
#[derive(Clone, Copy, Debug, PartialEq, Eq, Structural)]
pub struct Icu2Pid {
    pub back_door_driver_side_open: bool,
    pub actuator_back_door_driver_side_unlock: bool,
    pub back_door_passenger_side_open: bool,
    pub actuator_back_door_passenger_side_unlock: bool,
    pub front_door_passenger_side_open: bool,
    pub front_door_driver_side_open: bool,
    pub trunk_open: bool,
    pub engine_hood_open: bool,
    pub driver_buckled: bool,
    pub passenger_buckled: bool,
    pub breaking_fluid: bool,
    pub ignition_1_on: bool,
    pub ignition_2_on: bool,
    pub signal_back_av: bool,
}

impl Icu2Pid {
    /// The vehicle counts as open when a back door is unlocked, or the trunk
    /// or the engine hood is open.
    pub open spec fn spec_is_open(self) -> bool {
        self.actuator_back_door_driver_side_unlock || self.actuator_back_door_passenger_side_unlock
            || self.trunk_open || self.engine_hood_open
    }

    pub fn is_open(&self) -> (r: bool)
        ensures
            r == self.spec_is_open(),
    {
        self.actuator_back_door_driver_side_unlock || self.actuator_back_door_passenger_side_unlock
            || self.trunk_open || self.engine_hood_open
    }
}

#[derive(Clone, Copy, Debug, PartialEq, Eq, Structural)]
pub struct Icu3Pid {
    pub on_board_charger_wakeup_output: bool,
}

#[derive(Clone, Copy, Debug, PartialEq, Eq, Structural)]
pub struct VehicleSpeedPid {
    pub vehicle_speed: u8,
}

/// Gearbox position; `U` (unknown) is the default.
#[derive(Clone, Copy, Debug, PartialEq, Eq, Structural)]
pub enum Gear {
    PN,
    R,
    D1,
    D2,
    D3,
    D4,
    D5,
    D6,
    U,
}

/// The name under which a gear is displayed: the variant's name.
pub open spec fn gear_name(g: Gear) -> Seq<char> {
    match g {
        Gear::PN => "PN"@,
        Gear::R => "R"@,
        Gear::D1 => "D1"@,
        Gear::D2 => "D2"@,
        Gear::D3 => "D3"@,
        Gear::D4 => "D4"@,
        Gear::D5 => "D5"@,
        Gear::D6 => "D6"@,
        Gear::U => "U"@,
    }
}

impl Gear {
    pub fn default() -> (r: Gear)
        ensures
            r == Gear::U,
    {
        Gear::U
    }

    /// The display name of the gear.
    pub fn name(&self) -> (r: &'static str)
        ensures
            r@ == gear_name(*self),
    {
        match self {
            Gear::PN => "PN",
            Gear::R => "R",
            Gear::D1 => "D1",
            Gear::D2 => "D2",
            Gear::D3 => "D3",
            Gear::D4 => "D4",
            Gear::D5 => "D5",
            Gear::D6 => "D6",
            Gear::U => "U",
        }
    }
}

/// What the display is asked to show.
#[derive(Clone, Copy, Debug, PartialEq, Eq, Structural)]
pub enum LcdEvent {
    Main,
    PowerOff,
    Charging,
}

impl LcdEvent {
    pub fn default() -> (r: LcdEvent)
        ensures
            r == LcdEvent::Main,
    {
        LcdEvent::Main
    }
}

/// The kind of a decoded PID value.
#[derive(Clone, Copy, Debug, PartialEq, Eq, Structural)]
pub enum PidKind {
    BmsPid,
    IceTemperaturePid,
    IceFuelRatePid,
    VehicleSpeedPid,
    AcPid,
    HybridDcDcPid,
    IcuPid,
    Icu2Pid,
    Icu3Pid,
    Icu1Smk,
    IceEnginePid,
    TransaxlePid,
    OnBoardChargerPid,
}

/// A PID that could not be read, by kind.
#[derive(Clone, Copy, Debug, PartialEq, Eq, Structural)]
pub enum PidError {
    BmsPid,
    IceTemperaturePid,
    IceFuelRatePid,
    VehicleSpeedPid,
    AcPid,
    HybridDcDcPid,
    IcuPid,
    Icu2Pid,
    Icu3Pid,
    Icu1Smk,
    IceEnginePid,
    TransaxlePid,
    OnBoardChargerPid,
}

/// Power states of the dashboard.
#[derive(Clone, Copy, Debug, PartialEq, Eq, Structural)]
pub enum State {
    IgnitionOff,
    IgnitionOn,
    /// Shut down after the given time.
    Shutdown { secs: u64, nanos: u32 },
    Charging,
    CheckCharging,
}

/// The kind of a modem message.
#[derive(Clone, Copy, Debug, PartialEq, Eq, Structural)]
pub enum ModemKind {
    Battery,
    Connected,
    Disconnected,
    GnssFix,
    GnssState,
    Reset,
    Boot,
    Ping,
    Pong,
}

#[derive(Clone, Copy, Debug, PartialEq, Eq, Structural)]
pub enum GnssState {
    BackupMode,
    DisablingBackup,
    SingleFix,
    ContinuousFix,
    ErrorDisablingBackup,
}

/// Identifies a message and the device that numbered it.
#[derive(Clone, Copy, Debug, PartialEq, Eq, Structural)]
pub enum MessageId {
    Modem(u32),
    Obd2Dashboard(u32),
    HaDaemon(u32),
}

/// The number carried by a message id, whichever device numbered it.
pub open spec fn message_id_value(id: MessageId) -> u32 {
    match id {
        MessageId::Modem(n) => n,
        MessageId::Obd2Dashboard(n) => n,
        MessageId::HaDaemon(n) => n,
    }
}

impl MessageId {
    /// The id of a message that was not numbered: `Modem(0)`.
    pub fn default() -> (r: MessageId)
        ensures
            r == MessageId::Modem(0),
    {
        MessageId::Modem(0)
    }

    /// The number carried by the id.
    pub fn value(&self) -> (r: u32)
        ensures
            r == message_id_value(*self),
    {
        match self {
            MessageId::Modem(n) => *n,
            MessageId::Obd2Dashboard(n) => *n,
            MessageId::HaDaemon(n) => *n,
        }
    }
}

/// Every tenth numbered message asks for an acknowledgement.
pub open spec fn id_requests_ack(id: MessageId) -> bool {
    message_id_value(id) % 10 == 0 && message_id_value(id) != 0
}

/// A frame sent by the dashboard.
pub enum TxFrame {
    Obd2Pid(PidKind),
    Obd2PidError(PidError),
    Obd2Frame(Obd2Frame),
    Modem(ModemKind),
    Shutdown,
    State(State),
    Temperature,
}

impl TxFrame {
    pub fn is_modem(&self) -> (r: bool)
        ensures
            r == (*self is Modem),
    {
        match self {
            TxFrame::Modem(_) => true,
            _ => false,
        }
    }

    pub fn is_modem_battery(&self) -> (r: bool)
        ensures
            r == (*self matches TxFrame::Modem(ModemKind::Battery)),
    {
        match self {
            TxFrame::Modem(ModemKind::Battery) => true,
            _ => false,
        }
    }

    pub fn is_disconnect(&self) -> (r: bool)
        ensures
            r == (*self matches TxFrame::Modem(ModemKind::Disconnected)),
    {
        match self {
            TxFrame::Modem(ModemKind::Disconnected) => true,
            _ => false,
        }
    }

    pub fn is_connect(&self) -> (r: bool)
        ensures
            r == (*self matches TxFrame::Modem(ModemKind::Connected)),
    {
        match self {
            TxFrame::Modem(ModemKind::Connected) => true,
            _ => false,
        }
    }
}

/// Frames that always need an acknowledgement: shutdown, state changes and
/// modem connection changes.
pub open spec fn frame_needs_ack(frame: TxFrame) -> bool {
    match frame {
        TxFrame::Shutdown => true,
        TxFrame::State(_) => true,
        TxFrame::Modem(ModemKind::Disconnected) => true,
        TxFrame::Modem(ModemKind::Connected) => true,
        _ => false,
    }
}

/// A numbered frame sent by the dashboard.
pub struct TxMessage {
    pub id: MessageId,
    pub frame: TxFrame,
    pub timestamp: u64,
    pub ack: bool,
}

impl TxMessage {
    /// A message with the given id; it asks for an acknowledgement when the
    /// id's number is a non-zero multiple of ten.
    pub fn with_id(frame: TxFrame, id: MessageId) -> (r: TxMessage)
        ensures
            r.id == id,
            r.frame == frame,
            r.timestamp == 0,
            r.ack == id_requests_ack(id),
    {
        let n = id.value();
        let ack = n % 10 == 0 && n != 0;
        TxMessage { id, frame, timestamp: 0, ack }
    }

    /// A message with the default id.
    pub fn new(frame: TxFrame) -> (r: TxMessage)
        ensures
            r.id == MessageId::Modem(0),
            r.frame == frame,
            r.timestamp == 0,
            !r.ack,
    {
        TxMessage::with_id(frame, MessageId::default())
    }

    /// Marks the message as needing an acknowledgement.
    pub fn ack(&mut self)
        ensures
            final(self).ack,
            final(self).id == old(self).id,
            final(self).frame == old(self).frame,
            final(self).timestamp == old(self).timestamp,
    {
        self.ack = true;
    }

    pub fn needs_ack(&self) -> (r: bool)
        ensures
            r == (self.ack || frame_needs_ack(self.frame)),
    {
        self.ack || match self.frame {
            TxFrame::Shutdown => true,
            TxFrame::State(_) => true,
            TxFrame::Modem(ModemKind::Disconnected) => true,
            TxFrame::Modem(ModemKind::Connected) => true,
            TxFrame::Modem(ModemKind::Ping) => false,
            TxFrame::Modem(ModemKind::Pong) => false,
            _ => false,
        }
    }
}

/// A frame received by the dashboard.
pub enum RxFrame {
    TxFrameAck(MessageId),
    Modem(ModemKind),
    Obd2Frame(Obd2Frame),
}

impl RxFrame {
    pub fn is_ack(&self) -> (r: bool)
        ensures
            r == (*self is TxFrameAck),
    {
        match self {
            RxFrame::TxFrameAck(_) => true,
            _ => false,
        }
    }
}

/// A numbered frame received by the dashboard.
pub struct RxMessage {
    pub id: MessageId,
    pub frame: RxFrame,
    pub timestamp: u64,
    pub ack: bool,
}

impl RxMessage {
    /// A message with the given id, asking for an acknowledgement when the
    /// id's number is a non-zero multiple of ten.
    pub fn with_id(frame: RxFrame, id: MessageId) -> (r: RxMessage)
        ensures
            r.id == id,
            r.frame == frame,
            r.timestamp == 0,
            r.ack == id_requests_ack(id),
    {
        let n = id.value();
        let ack = n % 10 == 0 && n != 0;
        RxMessage { id, frame, timestamp: 0, ack }
    }

    /// A message with the default id.
    pub fn new(frame: RxFrame) -> (r: RxMessage)
        ensures
            r.id == MessageId::Modem(0),
            r.frame == frame,
            r.timestamp == 0,
            !r.ack,
    {
        RxMessage::with_id(frame, MessageId::default())
    }
}

} // verus!
