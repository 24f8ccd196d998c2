use vstd::prelude::*;

use crate::config::N_AXIS;
use crate::motor_control::Pid;

use super::conversion::{
    bool_byte, bool_to_bytes, bytes_to_bool, bytes_to_float_bits, bytes_to_i16, bytes_to_pid,
    i16_of_bits, i16_to_bytes, i16s_le_bytes, is_nan_bits, law_i16_bytes_roundtrip,
    law_u32_bytes_roundtrip, law_u32_roundtrip, law_i16_roundtrip, le_u16_value, le_u32_value, pid_of_word, pid_to_bytes, pid_word,
    u32_to_bytes, u32s_le_bytes,
};
use super::packet::instruction_packet::{InstructionPacketKind, InstructionPacketView};
use super::packet::status_packet::{law_status_frame_checksum, status_frame, status_frame_bytes};
use super::packet::checksum;
use super::register::{register_at, DynamixelRegister};

verus! {

/// The values a read request can report, one per axis; floats travel as their IEEE-754
/// bit patterns.
pub struct RegisterValues {
    pub torque_on: [bool; N_AXIS],
    pub current_position: [u32; N_AXIS],
    pub current_velocity: [u32; N_AXIS],
    pub current_torque: [u32; N_AXIS],
    pub velocity_feedforward: [u32; N_AXIS],
    pub target_position: [u32; N_AXIS],
    pub axis_sensor: [u32; N_AXIS],
    pub flux_pid: [Pid; N_AXIS],
    pub torque_pid: [Pid; N_AXIS],
    pub velocity_pid: [Pid; N_AXIS],
    pub position_pid: [Pid; N_AXIS],
    pub uq_ud_limit: [i16; N_AXIS],
    pub torque_flux_limit: [u32; N_AXIS],
    pub velocity_limit: [u32; N_AXIS],
    pub index_sensor: [u8; N_AXIS],
}

/// A change of the shared values asked for by a write request (floats as bit patterns).
pub enum MemoryUpdate {
    TorqueOn([bool; N_AXIS]),
    FluxPid([Pid; N_AXIS]),
    TorquePid([Pid; N_AXIS]),
    VelocityPid([Pid; N_AXIS]),
    PositionPid([Pid; N_AXIS]),
    UqUdLimit([i16; N_AXIS]),
    TorqueFluxLimit([u32; N_AXIS]),
    VelocityLimit([u32; N_AXIS]),
    VelocityFeedforward([u32; N_AXIS]),
    /// A new target position; the feed-forward velocity goes back to zero.
    TargetPosition([u32; N_AXIS]),
    /// A new target position together with its feed-forward velocity.
    TargetPositionWithVelocityFF([u32; N_AXIS], [u32; N_AXIS]),
    /// A new target position whose accompanying feed-forward velocity was refused.
    TargetPositionOnly([u32; N_AXIS]),
}

/// A write request's change, with each array seen as a sequence.
pub enum UpdateView {
    TorqueOn(Seq<bool>),
    FluxPid(Seq<Pid>),
    TorquePid(Seq<Pid>),
    VelocityPid(Seq<Pid>),
    PositionPid(Seq<Pid>),
    UqUdLimit(Seq<i16>),
    TorqueFluxLimit(Seq<u32>),
    VelocityLimit(Seq<u32>),
    VelocityFeedforward(Seq<u32>),
    TargetPosition(Seq<u32>),
    TargetPositionWithVelocityFF(Seq<u32>, Seq<u32>),
    TargetPositionOnly(Seq<u32>),
}

impl View for MemoryUpdate {
    type V = UpdateView;

    open spec fn view(&self) -> UpdateView {
        match self {
            MemoryUpdate::TorqueOn(a) => UpdateView::TorqueOn(a@),
            MemoryUpdate::FluxPid(a) => UpdateView::FluxPid(a@),
            MemoryUpdate::TorquePid(a) => UpdateView::TorquePid(a@),
            MemoryUpdate::VelocityPid(a) => UpdateView::VelocityPid(a@),
            MemoryUpdate::PositionPid(a) => UpdateView::PositionPid(a@),
            MemoryUpdate::UqUdLimit(a) => UpdateView::UqUdLimit(a@),
            MemoryUpdate::TorqueFluxLimit(a) => UpdateView::TorqueFluxLimit(a@),
            MemoryUpdate::VelocityLimit(a) => UpdateView::VelocityLimit(a@),
            MemoryUpdate::VelocityFeedforward(a) => UpdateView::VelocityFeedforward(a@),
            MemoryUpdate::TargetPosition(a) => UpdateView::TargetPosition(a@),
            MemoryUpdate::TargetPositionWithVelocityFF(a, b) => {
                UpdateView::TargetPositionWithVelocityFF(a@, b@)
            },
            MemoryUpdate::TargetPositionOnly(a) => UpdateView::TargetPositionOnly(a@),
        }
    }
}

/// How a write request is answered once its change is applied.
#[derive(Debug, Clone, Copy, PartialEq, Eq, Structural)]
pub enum Answer {
    /// A status packet without parameters.
    Ack,
    /// A status packet carrying the current positions.
    CurrentPosition,
    /// No answer.
    Silent,
}

/// What the handler does with one request: the change to apply, if any, and the bytes to
/// send back, if any.
pub struct RequestOutcome {
    pub update: Option<MemoryUpdate>,
    pub reply: Option<Vec<u8>>,
}

// ---------------------------------------------------------------------------
// Decoding of written payloads
// ---------------------------------------------------------------------------

/// One torque switch per byte, on when the byte is non-zero.
pub open spec fn decode_flags(d: Seq<u8>) -> Option<Seq<bool>> {
    if d.len() == N_AXIS {
        Some(d.map_values(|b: u8| b != 0))
    } else {
        None
    }
}

/// One pair of gains per 32-bit little-endian word.
pub open spec fn decode_gains(d: Seq<u8>) -> Option<Seq<Pid>> {
    if d.len() == 4 * N_AXIS {
        Some(Seq::new(N_AXIS as nat, |i: int| pid_of_word(le_u32_value(d, 4 * i))))
    } else {
        None
    }
}

/// One signed 16-bit little-endian limit per axis.
pub open spec fn decode_limits(d: Seq<u8>) -> Option<Seq<i16>> {
    if d.len() == 2 * N_AXIS {
        Some(Seq::new(N_AXIS as nat, |i: int| i16_of_bits(le_u16_value(d, 2 * i))))
    } else {
        None
    }
}

/// The bit patterns of the floats carried by `d`, one per axis.
pub open spec fn float_values(d: Seq<u8>) -> Seq<u32> {
    Seq::new(N_AXIS as nat, |i: int| le_u32_value(d, 4 * i))
}

/// One float per axis, refused when one of them is a NaN.
pub open spec fn decode_floats(d: Seq<u8>) -> Option<Seq<u32>> {
    if d.len() != 4 * N_AXIS {
        None
    } else if exists|i: int| 0 <= i < N_AXIS && #[trigger] is_nan_bits(le_u32_value(d, 4 * i)) {
        None
    } else {
        Some(float_values(d))
    }
}

/// The change asked for by writing `d` to register `r`; `None` when the register cannot
/// be written or the payload is refused.
pub open spec fn write_update(r: DynamixelRegister, d: Seq<u8>) -> Option<UpdateView> {
    match r {
        DynamixelRegister::TorqueEnable => match decode_flags(d) {
            Some(v) => Some(UpdateView::TorqueOn(v)),
            None => None,
        },
        DynamixelRegister::FluxPID => match decode_gains(d) {
            Some(v) => Some(UpdateView::FluxPid(v)),
            None => None,
        },
        DynamixelRegister::TorquePID => match decode_gains(d) {
            Some(v) => Some(UpdateView::TorquePid(v)),
            None => None,
        },
        DynamixelRegister::VelocityPID => match decode_gains(d) {
            Some(v) => Some(UpdateView::VelocityPid(v)),
            None => None,
        },
        DynamixelRegister::PositionPID => match decode_gains(d) {
            Some(v) => Some(UpdateView::PositionPid(v)),
            None => None,
        },
        DynamixelRegister::UqUdLimit => match decode_limits(d) {
            Some(v) => Some(UpdateView::UqUdLimit(v)),
            None => None,
        },
        DynamixelRegister::TorqueFluxLimit => match decode_floats(d) {
            Some(v) => Some(UpdateView::TorqueFluxLimit(v)),
            None => None,
        },
        DynamixelRegister::VelocityLimit => match decode_floats(d) {
            Some(v) => Some(UpdateView::VelocityLimit(v)),
            None => None,
        },
        DynamixelRegister::FeedforwardVelocity => match decode_floats(d) {
            Some(v) => Some(UpdateView::VelocityFeedforward(v)),
            None => None,
        },
        DynamixelRegister::TargetPosition => match decode_floats(d) {
            Some(v) => Some(UpdateView::TargetPosition(v)),
            None => None,
        },
        DynamixelRegister::TargetPositionWithVelocityFF => match decode_floats(
            d.subrange(0, 4 * N_AXIS as int),
        ) {
            None => None,
            Some(t) => match decode_floats(d.subrange(4 * N_AXIS as int, 8 * N_AXIS as int)) {
                Some(v) => Some(UpdateView::TargetPositionWithVelocityFF(t, v)),
                None => Some(UpdateView::TargetPositionOnly(t)),
            },
        },
        _ => None,
    }
}

/// How the handler answers once change `u` is applied.
pub open spec fn update_answer(u: UpdateView) -> Answer {
    match u {
        UpdateView::TargetPosition(_) => Answer::CurrentPosition,
        UpdateView::TargetPositionWithVelocityFF(_, _) => Answer::CurrentPosition,
        UpdateView::TargetPositionOnly(_) => Answer::Silent,
        _ => Answer::Ack,
    }
}

// ---------------------------------------------------------------------------
// Encoding of read values
// ---------------------------------------------------------------------------

/// The parameter bytes answered to a read of register `r`; `None` for a register that
/// is not reported.
pub open spec fn read_params(r: DynamixelRegister, v: RegisterValues) -> Option<Seq<u8>> {
    match r {
        DynamixelRegister::TorqueEnable => Some(v.torque_on@.map_values(|b: bool| bool_byte(b))),
        DynamixelRegister::CurrentPosition => Some(u32s_le_bytes(v.current_position@)),
        DynamixelRegister::CurrentVelocity => Some(u32s_le_bytes(v.current_velocity@)),
        DynamixelRegister::CurrentTorque => Some(u32s_le_bytes(v.current_torque@)),
        DynamixelRegister::FeedforwardVelocity => Some(u32s_le_bytes(v.velocity_feedforward@)),
        DynamixelRegister::TargetPosition => Some(u32s_le_bytes(v.target_position@)),
        DynamixelRegister::AxisSensor => Some(u32s_le_bytes(v.axis_sensor@)),
        DynamixelRegister::FluxPID => Some(
            u32s_le_bytes(v.flux_pid@.map_values(|g: Pid| pid_word(g))),
        ),
        DynamixelRegister::TorquePID => Some(
            u32s_le_bytes(v.torque_pid@.map_values(|g: Pid| pid_word(g))),
        ),
        DynamixelRegister::VelocityPID => Some(
            u32s_le_bytes(v.velocity_pid@.map_values(|g: Pid| pid_word(g))),
        ),
        DynamixelRegister::PositionPID => Some(
            u32s_le_bytes(v.position_pid@.map_values(|g: Pid| pid_word(g))),
        ),
        DynamixelRegister::UqUdLimit => Some(i16s_le_bytes(v.uq_ud_limit@)),
        DynamixelRegister::TorqueFluxLimit => Some(u32s_le_bytes(v.torque_flux_limit@)),
        DynamixelRegister::VelocityLimit => Some(u32s_le_bytes(v.velocity_limit@)),
        DynamixelRegister::IndexSensor => Some(v.index_sensor@),
        DynamixelRegister::FullState => Some(
            u32s_le_bytes(v.current_position@ + v.current_velocity@ + v.current_torque@),
        ),
        _ => None,
    }
}

// ---------------------------------------------------------------------------
// The request as a whole
// ---------------------------------------------------------------------------

/// The change that request `p` asks for.
pub open spec fn request_update(p: InstructionPacketView) -> Option<UpdateView> {
    match p {
        InstructionPacketView::WriteData { address, data, .. } => match register_at(address) {
            Some(r) => write_update(r, data),
            None => None,
        },
        _ => None,
    }
}

/// The bytes sent back for request `p` by board `id` whose error byte is `error`.
pub open spec fn request_reply(p: InstructionPacketView, id: u8, error: u8, v: RegisterValues) -> Option<
    Seq<u8>,
> {
    match p {
        InstructionPacketView::Ping { .. } => Some(status_frame(id, error, Seq::empty())),
        InstructionPacketView::ReadData { address, .. } => match register_at(address) {
            Some(r) => match read_params(r, v) {
                Some(params) => Some(status_frame(id, error, params)),
                None => None,
            },
            None => None,
        },
        InstructionPacketView::WriteData { .. } => match request_update(p) {
            Some(u) => match update_answer(u) {
                Answer::Ack => Some(status_frame(id, error, Seq::empty())),
                Answer::CurrentPosition => Some(
                    status_frame(id, error, u32s_le_bytes(v.current_position@)),
                ),
                Answer::Silent => None,
            },
            None => None,
        },
    }
}

/// A write of a target position with its feed-forward velocity carries both halves.
pub open spec fn request_is_complete(p: InstructionPacketView) -> bool {
    match p {
        InstructionPacketView::WriteData { address, data, .. } => register_at(address) == Some(
            DynamixelRegister::TargetPositionWithVelocityFF,
        ) ==> data.len() >= 8 * N_AXIS,
        _ => true,
    }
}

/// An optional change seen through its view.
pub open spec fn update_view(u: Option<MemoryUpdate>) -> Option<UpdateView> {
    match u {
        Some(m) => Some(m@),
        None => None,
    }
}

/// Optional bytes seen as a sequence.
pub open spec fn reply_view(r: Option<Vec<u8>>) -> Option<Seq<u8>> {
    match r {
        Some(b) => Some(b@),
        None => None,
    }
}

fn flags_of(d: &[u8]) -> (r: Option<[bool; N_AXIS]>)
    ensures
        match decode_flags(d@) {
            Some(s) => r matches Some(a) && a@ == s,
            None => r is None,
        },
{
    match bytes_to_bool::<N_AXIS>(d) {
        Ok(a) => {
            assert(a@ =~= d@.map_values(|b: u8| b != 0));
            Some(a)
        },
        Err(_) => None,
    }
}

fn gains_of(d: &[u8]) -> (r: Option<[Pid; N_AXIS]>)
    ensures
        match decode_gains(d@) {
            Some(s) => r matches Some(a) && a@ == s,
            None => r is None,
        },
{
    match bytes_to_pid::<N_AXIS>(d) {
        Ok(a) => {
            assert(a@ =~= Seq::new(N_AXIS as nat, |i: int| pid_of_word(le_u32_value(d@, 4 * i))));
            Some(a)
        },
        Err(_) => None,
    }
}

fn limits_of(d: &[u8]) -> (r: Option<[i16; N_AXIS]>)
    ensures
        match decode_limits(d@) {
            Some(s) => r matches Some(a) && a@ == s,
            None => r is None,
        },
{
    match bytes_to_i16::<N_AXIS>(d) {
        Ok(a) => {
            assert(a@ =~= Seq::new(
                N_AXIS as nat,
                |i: int| i16_of_bits(le_u16_value(d@, 2 * i)),
            ));
            Some(a)
        },
        Err(_) => None,
    }
}

fn floats_of(d: &[u8]) -> (r: Option<[u32; N_AXIS]>)
    ensures
        match decode_floats(d@) {
            Some(s) => r matches Some(a) && a@ == s,
            None => r is None,
        },
{
    match bytes_to_float_bits::<N_AXIS>(d) {
        Ok(a) => {
            assert(a@ =~= float_values(d@));
            Some(a)
        },
        Err(_) => None,
    }
}

/// Decodes a write of `data` to register `r` into the change it asks for.
pub fn decode_write(r: DynamixelRegister, data: &[u8]) -> (u: Option<MemoryUpdate>)
    requires
        r == DynamixelRegister::TargetPositionWithVelocityFF ==> data@.len() >= 8 * N_AXIS,
    ensures
        update_view(u) == write_update(r, data@),
{
    match r {
        DynamixelRegister::TorqueEnable => match flags_of(data) {
            Some(a) => Some(MemoryUpdate::TorqueOn(a)),
            None => None,
        },
        DynamixelRegister::FluxPID => match gains_of(data) {
            Some(a) => Some(MemoryUpdate::FluxPid(a)),
            None => None,
        },
        DynamixelRegister::TorquePID => match gains_of(data) {
            Some(a) => Some(MemoryUpdate::TorquePid(a)),
            None => None,
        },
        DynamixelRegister::VelocityPID => match gains_of(data) {
            Some(a) => Some(MemoryUpdate::VelocityPid(a)),
            None => None,
        },
        DynamixelRegister::PositionPID => match gains_of(data) {
            Some(a) => Some(MemoryUpdate::PositionPid(a)),
            None => None,
        },
        DynamixelRegister::UqUdLimit => match limits_of(data) {
            Some(a) => Some(MemoryUpdate::UqUdLimit(a)),
            None => None,
        },
        DynamixelRegister::TorqueFluxLimit => match floats_of(data) {
            Some(a) => Some(MemoryUpdate::TorqueFluxLimit(a)),
            None => None,
        },
        DynamixelRegister::VelocityLimit => match floats_of(data) {
            Some(a) => Some(MemoryUpdate::VelocityLimit(a)),
            None => None,
        },
        DynamixelRegister::FeedforwardVelocity => match floats_of(data) {
            Some(a) => Some(MemoryUpdate::VelocityFeedforward(a)),
            None => None,
        },
        DynamixelRegister::TargetPosition => match floats_of(data) {
            Some(a) => Some(MemoryUpdate::TargetPosition(a)),
            None => None,
        },
        DynamixelRegister::TargetPositionWithVelocityFF => {
            let pos_data = vstd::slice::slice_subrange(data, 0, 4 * N_AXIS);
            let vel_data = vstd::slice::slice_subrange(data, 4 * N_AXIS, 8 * N_AXIS);
            match floats_of(pos_data) {
                Some(t) => match floats_of(vel_data) {
                    Some(v) => Some(MemoryUpdate::TargetPositionWithVelocityFF(t, v)),
                    None => Some(MemoryUpdate::TargetPositionOnly(t)),
                },
                None => None,
            }
        },
        _ => None,
    }
}

/// The parameter bytes answered to a read of register `r`; `None` for a register that
/// is not reported.
pub fn read_payload(r: DynamixelRegister, v: &RegisterValues) -> (p: Option<Vec<u8>>)
    ensures
        reply_view(p) == read_params(r, *v),
        p matches Some(b) ==> b@.len() <= 12 * N_AXIS,
{
    match r {
        DynamixelRegister::TorqueEnable => {
            let bytes = bool_to_bytes::<N_AXIS>(v.torque_on);
            let mut out: Vec<u8> = Vec::new();
            let mut i: usize = 0;
            while i < N_AXIS
                invariant
                    i <= N_AXIS,
                    out@ =~= bytes@.take(i as int),
                decreases N_AXIS - i,
            {
                out.push(bytes[i]);
                i = i + 1;
            }
            assert(out@ =~= v.torque_on@.map_values(|b: bool| bool_byte(b)));
            Some(out)
        },
        DynamixelRegister::CurrentPosition => Some(u32_to_bytes::<N_AXIS>(v.current_position)),
        DynamixelRegister::CurrentVelocity => Some(u32_to_bytes::<N_AXIS>(v.current_velocity)),
        DynamixelRegister::CurrentTorque => Some(u32_to_bytes::<N_AXIS>(v.current_torque)),
        DynamixelRegister::FeedforwardVelocity => Some(
            u32_to_bytes::<N_AXIS>(v.velocity_feedforward),
        ),
        DynamixelRegister::TargetPosition => Some(u32_to_bytes::<N_AXIS>(v.target_position)),
        DynamixelRegister::AxisSensor => Some(u32_to_bytes::<N_AXIS>(v.axis_sensor)),
        DynamixelRegister::FluxPID => Some(pid_to_bytes::<N_AXIS>(v.flux_pid)),
        DynamixelRegister::TorquePID => Some(pid_to_bytes::<N_AXIS>(v.torque_pid)),
        DynamixelRegister::VelocityPID => Some(pid_to_bytes::<N_AXIS>(v.velocity_pid)),
        DynamixelRegister::PositionPID => Some(pid_to_bytes::<N_AXIS>(v.position_pid)),
        DynamixelRegister::UqUdLimit => Some(i16_to_bytes::<N_AXIS>(v.uq_ud_limit)),
        DynamixelRegister::TorqueFluxLimit => Some(u32_to_bytes::<N_AXIS>(v.torque_flux_limit)),
        DynamixelRegister::VelocityLimit => Some(u32_to_bytes::<N_AXIS>(v.velocity_limit)),
        DynamixelRegister::IndexSensor => {
            let mut out: Vec<u8> = Vec::new();
            let mut i: usize = 0;
            while i < N_AXIS
                invariant
                    i <= N_AXIS,
                    out@ =~= v.index_sensor@.take(i as int),
                decreases N_AXIS - i,
            {
                out.push(v.index_sensor[i]);
                i = i + 1;
            }
            assert(out@ =~= v.index_sensor@);
            Some(out)
        },
        DynamixelRegister::FullState => {
            let mut all = [0u32; 9];
            let mut i: usize = 0;
            while i < N_AXIS
                invariant
                    i <= N_AXIS,
                    forall|j: int|
                        0 <= j < i ==> all[j] == v.current_position[j] && all[N_AXIS + j]
                            == v.current_velocity[j] && all[2 * N_AXIS + j] == v.current_torque[j],
                decreases N_AXIS - i,
            {
                all[i] = v.current_position[i];
                all[N_AXIS + i] = v.current_velocity[i];
                all[2 * N_AXIS + i] = v.current_torque[i];
                i = i + 1;
            }
            assert(all@ =~= v.current_position@ + v.current_velocity@ + v.current_torque@);
            Some(u32_to_bytes::<9>(all))
        },
        _ => None,
    }
}

/// Decides what to do with one request: the change to apply to the shared values and
/// the status packet to send back, both exactly as the control table prescribes.
pub fn handle_request(packet: &InstructionPacketKind, id: u8, error: u8, values: &RegisterValues) -> (r:
    RequestOutcome)
    requires
        request_is_complete(packet@),
    ensures
        update_view(r.update) == request_update(packet@),
        reply_view(r.reply) == request_reply(packet@, id, error, *values),
{
    let empty: [u8; 0] = [];
    match packet {
        InstructionPacketKind::Ping(_) => {
            assert(empty@ =~= Seq::<u8>::empty());
            RequestOutcome { update: None, reply: Some(status_frame_bytes(id, error, &empty)) }
        },
        InstructionPacketKind::ReadData(read) => {
            let reply = match DynamixelRegister::with_address(read.address) {
                Some(reg) => match read_payload(reg, values) {
                    Some(params) => Some(status_frame_bytes(id, error, params.as_slice())),
                    None => None,
                },
                None => None,
            };
            RequestOutcome { update: None, reply }
        },
        InstructionPacketKind::WriteData(write) => {
            match DynamixelRegister::with_address(write.address) {
                Some(reg) => {
                    let update = decode_write(reg, write.data);
                    let reply = match &update {
                        Some(u) => match u {
                            MemoryUpdate::TargetPosition(_)
                            | MemoryUpdate::TargetPositionWithVelocityFF(_, _) => {
                                let params = u32_to_bytes::<N_AXIS>(values.current_position);
                                Some(status_frame_bytes(id, error, params.as_slice()))
                            },
                            MemoryUpdate::TargetPositionOnly(_) => None,
                            _ => {
                                assert(empty@ =~= Seq::<u8>::empty());
                                Some(status_frame_bytes(id, error, &empty))
                            },
                        },
                        None => None,
                    };
                    RequestOutcome { update, reply }
                },
                None => RequestOutcome { update: None, reply: None },
            }
        },
    }
}

/// `v` carries the values that change `u` writes.
pub open spec fn holds_update(v: RegisterValues, u: UpdateView) -> bool {
    match u {
        UpdateView::TorqueOn(s) => v.torque_on@ == s,
        UpdateView::FluxPid(s) => v.flux_pid@ == s,
        UpdateView::TorquePid(s) => v.torque_pid@ == s,
        UpdateView::VelocityPid(s) => v.velocity_pid@ == s,
        UpdateView::PositionPid(s) => v.position_pid@ == s,
        UpdateView::UqUdLimit(s) => v.uq_ud_limit@ == s,
        UpdateView::TorqueFluxLimit(s) => v.torque_flux_limit@ == s,
        UpdateView::VelocityLimit(s) => v.velocity_limit@ == s,
        UpdateView::VelocityFeedforward(s) => v.velocity_feedforward@ == s,
        UpdateView::TargetPosition(s) => v.target_position@ == s,
        UpdateView::TargetPositionWithVelocityFF(t, f) => v.target_position@ == t
            && v.velocity_feedforward@ == f,
        UpdateView::TargetPositionOnly(t) => v.target_position@ == t,
    }
}

/// Once an accepted write to a limit, a feed-forward velocity or a target position has
/// been applied, reading the same register answers exactly the bytes that were written;
/// torque switches come back as one byte 0 or 1 each.
pub proof fn law_write_then_read_back(r: DynamixelRegister, data: Seq<u8>, v: RegisterValues)
    requires
        r == DynamixelRegister::TorqueEnable || r == DynamixelRegister::UqUdLimit || r
            == DynamixelRegister::TorqueFluxLimit || r == DynamixelRegister::VelocityLimit || r
            == DynamixelRegister::FeedforwardVelocity || r == DynamixelRegister::TargetPosition,
        write_update(r, data) is Some,
        holds_update(v, write_update(r, data)->Some_0),
    ensures
        r == DynamixelRegister::TorqueEnable ==> read_params(r, v) == Some(
            data.map_values(|b: u8| bool_byte(b != 0)),
        ),
        r != DynamixelRegister::TorqueEnable ==> read_params(r, v) == Some(data),
{
    match r {
        DynamixelRegister::TorqueEnable => {
            let s = decode_flags(data)->Some_0;
            assert(v.torque_on@ == s);
            assert(s.map_values(|b: bool| bool_byte(b)) =~= data.map_values(
                |b: u8| bool_byte(b != 0),
            ));
        },
        DynamixelRegister::UqUdLimit => {
            let s = decode_limits(data)->Some_0;
            assert(v.uq_ud_limit@ == s);
            law_i16_bytes_roundtrip(data, N_AXIS as nat);
        },
        DynamixelRegister::TorqueFluxLimit => {
            let s = decode_floats(data)->Some_0;
            assert(v.torque_flux_limit@ == s);
            lemma_floats_read_back(data, s);
        },
        DynamixelRegister::VelocityLimit => {
            let s = decode_floats(data)->Some_0;
            assert(v.velocity_limit@ == s);
            lemma_floats_read_back(data, s);
        },
        DynamixelRegister::FeedforwardVelocity => {
            let s = decode_floats(data)->Some_0;
            assert(v.velocity_feedforward@ == s);
            lemma_floats_read_back(data, s);
        },
        DynamixelRegister::TargetPosition => {
            let s = decode_floats(data)->Some_0;
            assert(v.target_position@ == s);
            lemma_floats_read_back(data, s);
        },
        _ => {},
    }
}

proof fn lemma_floats_read_back(data: Seq<u8>, s: Seq<u32>)
    requires
        decode_floats(data) == Some(s),
    ensures
        u32s_le_bytes(s) == data,
{
    law_u32_bytes_roundtrip(data, N_AXIS as nat);
    assert(s =~= Seq::new(N_AXIS as nat, |i: int| le_u32_value(data, 4 * i)));
}

/// `p` is a payload of the little-endian 32-bit words `w`, one per four bytes.
pub open spec fn carries_words(p: Option<Seq<u8>>, w: Seq<u32>) -> bool {
    match p {
        Some(b) => b.len() == 4 * w.len() && forall|i: int|
            0 <= i < w.len() ==> le_u32_value(b, 4 * i) == #[trigger] w[i],
        None => false,
    }
}

/// `p` is a payload of the little-endian two's complement 16-bit values `w`.
pub open spec fn carries_i16s(p: Option<Seq<u8>>, w: Seq<i16>) -> bool {
    match p {
        Some(b) => b.len() == 2 * w.len() && forall|i: int|
            0 <= i < w.len() ==> i16_of_bits(le_u16_value(b, 2 * i)) == #[trigger] w[i],
        None => false,
    }
}

/// Each readable register reports its own value, one entry per axis: positions,
/// velocities, torques, feed-forward velocities, targets, sensor angles and limits come
/// back as the words they hold; gains as their register words; torque switches as one
/// byte 1 or 0; the index sensors as their bytes; the full state as positions, then
/// velocities, then torques. The target torque and velocity, the combined target and
/// the identification registers are not answered.
pub proof fn law_reads_report_their_own_values(v: RegisterValues)
    ensures
        carries_words(read_params(DynamixelRegister::CurrentPosition, v), v.current_position@),
        carries_words(read_params(DynamixelRegister::CurrentVelocity, v), v.current_velocity@),
        carries_words(read_params(DynamixelRegister::CurrentTorque, v), v.current_torque@),
        carries_words(
            read_params(DynamixelRegister::FeedforwardVelocity, v),
            v.velocity_feedforward@,
        ),
        carries_words(read_params(DynamixelRegister::TargetPosition, v), v.target_position@),
        carries_words(read_params(DynamixelRegister::AxisSensor, v), v.axis_sensor@),
        carries_words(read_params(DynamixelRegister::TorqueFluxLimit, v), v.torque_flux_limit@),
        carries_words(read_params(DynamixelRegister::VelocityLimit, v), v.velocity_limit@),
        carries_words(
            read_params(DynamixelRegister::FluxPID, v),
            v.flux_pid@.map_values(|g: Pid| pid_word(g)),
        ),
        carries_words(
            read_params(DynamixelRegister::TorquePID, v),
            v.torque_pid@.map_values(|g: Pid| pid_word(g)),
        ),
        carries_words(
            read_params(DynamixelRegister::VelocityPID, v),
            v.velocity_pid@.map_values(|g: Pid| pid_word(g)),
        ),
        carries_words(
            read_params(DynamixelRegister::PositionPID, v),
            v.position_pid@.map_values(|g: Pid| pid_word(g)),
        ),
        carries_words(
            read_params(DynamixelRegister::FullState, v),
            v.current_position@ + v.current_velocity@ + v.current_torque@,
        ),
        carries_i16s(read_params(DynamixelRegister::UqUdLimit, v), v.uq_ud_limit@),
        read_params(DynamixelRegister::IndexSensor, v) == Some(v.index_sensor@),
        read_params(DynamixelRegister::TorqueEnable, v) matches Some(b) && b.len() == N_AXIS
            && forall|i: int|
            0 <= i < N_AXIS ==> (#[trigger] b[i] == 1 && v.torque_on[i]) || (b[i] == 0
                && !v.torque_on[i]),
        read_params(DynamixelRegister::TargetTorque, v) is None,
        read_params(DynamixelRegister::TargetVelocity, v) is None,
        read_params(DynamixelRegister::TargetPositionWithVelocityFF, v) is None,
        read_params(DynamixelRegister::ModelNumber, v) is None,
        read_params(DynamixelRegister::FirmwareVersion, v) is None,
        read_params(DynamixelRegister::Id, v) is None,
{
    law_u32_roundtrip(v.current_position@);
    law_u32_roundtrip(v.current_velocity@);
    law_u32_roundtrip(v.current_torque@);
    law_u32_roundtrip(v.velocity_feedforward@);
    law_u32_roundtrip(v.target_position@);
    law_u32_roundtrip(v.axis_sensor@);
    law_u32_roundtrip(v.torque_flux_limit@);
    law_u32_roundtrip(v.velocity_limit@);
    law_u32_roundtrip(v.flux_pid@.map_values(|g: Pid| pid_word(g)));
    law_u32_roundtrip(v.torque_pid@.map_values(|g: Pid| pid_word(g)));
    law_u32_roundtrip(v.velocity_pid@.map_values(|g: Pid| pid_word(g)));
    law_u32_roundtrip(v.position_pid@.map_values(|g: Pid| pid_word(g)));
    law_u32_roundtrip(v.current_position@ + v.current_velocity@ + v.current_torque@);
    law_i16_roundtrip(v.uq_ud_limit@);
}

/// `r` is a status packet from `id` with error byte `error` whose parameters are the
/// little-endian 32-bit words `w`: header, id, length, error, the words, checksum.
pub open spec fn status_reply_of_words(r: Option<Seq<u8>>, id: u8, error: u8, w: Seq<u32>) -> bool {
    match r {
        Some(f) => {
            &&& f.len() == 4 * w.len() + 6
            &&& f[0] == 0xFF && f[1] == 0xFF
            &&& f[2] == id && f[3] == (4 * w.len() + 2) as u8 && f[4] == error
            &&& carries_words(Some(f.subrange(5, f.len() - 1)), w)
            &&& f[f.len() - 1] == checksum(f.subrange(2, f.len() - 1))
        },
        None => false,
    }
}

proof fn lemma_status_frame_parts(id: u8, error: u8, params: Seq<u8>, w: Seq<u32>)
    requires
        carries_words(Some(params), w),
        params.len() <= 253,
    ensures
        status_reply_of_words(Some(status_frame(id, error, params)), id, error, w),
{
    law_status_frame_checksum(id, error, params);
    let f = status_frame(id, error, params);
    assert(f.subrange(5, f.len() - 1) =~= params);
}

proof fn lemma_read_reply(p: InstructionPacketView, id: u8, error: u8, v: RegisterValues, w: Seq<u32>)
    requires
        p is ReadData,
        register_at(p->ReadData_address) matches Some(r) && read_params(r, v) == Some(
            u32s_le_bytes(w),
        ),
        w.len() <= 62,
    ensures
        status_reply_of_words(request_reply(p, id, error, v), id, error, w),
{
    law_u32_roundtrip(w);
    lemma_status_frame_parts(id, error, u32s_le_bytes(w), w);
}

/// A read request of a register that holds one word per axis is answered with a status
/// packet whose parameters are that register's words: address 50 the current
/// positions, 51 the velocities, 52 the torques, 54 the feed-forward velocities, 60 the
/// target positions, 90 the axis sensors, 10 the velocity limits, 14 the torque and
/// flux limits, 100 the positions, velocities and torques in turn.
pub proof fn law_read_requests_answer_by_address(
    pid: u8,
    data_length: u8,
    id: u8,
    error: u8,
    v: RegisterValues,
)
    ensures
        status_reply_of_words(
            request_reply(
                InstructionPacketView::ReadData { id: pid, address: 50, data_length },
                id,
                error,
                v,
            ),
            id,
            error,
            v.current_position@,
        ),
        status_reply_of_words(
            request_reply(
                InstructionPacketView::ReadData { id: pid, address: 51, data_length },
                id,
                error,
                v,
            ),
            id,
            error,
            v.current_velocity@,
        ),
        status_reply_of_words(
            request_reply(
                InstructionPacketView::ReadData { id: pid, address: 52, data_length },
                id,
                error,
                v,
            ),
            id,
            error,
            v.current_torque@,
        ),
        status_reply_of_words(
            request_reply(
                InstructionPacketView::ReadData { id: pid, address: 54, data_length },
                id,
                error,
                v,
            ),
            id,
            error,
            v.velocity_feedforward@,
        ),
        status_reply_of_words(
            request_reply(
                InstructionPacketView::ReadData { id: pid, address: 60, data_length },
                id,
                error,
                v,
            ),
            id,
            error,
            v.target_position@,
        ),
        status_reply_of_words(
            request_reply(
                InstructionPacketView::ReadData { id: pid, address: 90, data_length },
                id,
                error,
                v,
            ),
            id,
            error,
            v.axis_sensor@,
        ),
        status_reply_of_words(
            request_reply(
                InstructionPacketView::ReadData { id: pid, address: 10, data_length },
                id,
                error,
                v,
            ),
            id,
            error,
            v.velocity_limit@,
        ),
        status_reply_of_words(
            request_reply(
                InstructionPacketView::ReadData { id: pid, address: 14, data_length },
                id,
                error,
                v,
            ),
            id,
            error,
            v.torque_flux_limit@,
        ),
        status_reply_of_words(
            request_reply(
                InstructionPacketView::ReadData { id: pid, address: 100, data_length },
                id,
                error,
                v,
            ),
            id,
            error,
            v.current_position@ + v.current_velocity@ + v.current_torque@,
        ),
{
    lemma_read_reply(
        InstructionPacketView::ReadData { id: pid, address: 50, data_length },
        id,
        error,
        v,
        v.current_position@,
    );
    lemma_read_reply(
        InstructionPacketView::ReadData { id: pid, address: 51, data_length },
        id,
        error,
        v,
        v.current_velocity@,
    );
    lemma_read_reply(
        InstructionPacketView::ReadData { id: pid, address: 52, data_length },
        id,
        error,
        v,
        v.current_torque@,
    );
    lemma_read_reply(
        InstructionPacketView::ReadData { id: pid, address: 54, data_length },
        id,
        error,
        v,
        v.velocity_feedforward@,
    );
    lemma_read_reply(
        InstructionPacketView::ReadData { id: pid, address: 60, data_length },
        id,
        error,
        v,
        v.target_position@,
    );
    lemma_read_reply(
        InstructionPacketView::ReadData { id: pid, address: 90, data_length },
        id,
        error,
        v,
        v.axis_sensor@,
    );
    lemma_read_reply(
        InstructionPacketView::ReadData { id: pid, address: 10, data_length },
        id,
        error,
        v,
        v.velocity_limit@,
    );
    lemma_read_reply(
        InstructionPacketView::ReadData { id: pid, address: 14, data_length },
        id,
        error,
        v,
        v.torque_flux_limit@,
    );
    lemma_read_reply(
        InstructionPacketView::ReadData { id: pid, address: 100, data_length },
        id,
        error,
        v,
        v.current_position@ + v.current_velocity@ + v.current_torque@,
    );
}

} // verus!
