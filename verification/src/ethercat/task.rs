use vstd::prelude::*;

use crate::config::{MAX_WATCHDOG_DOWN_TIME_MS, N_AXIS};
use crate::dynamixel::conversion::{
    law_u32_roundtrip, le_u16_value, lemma_u32_word, le_u32_bytes, le_u32_value, put_u32_le, read_u16_le,
    read_u32_le, u32s_le_bytes,
};
use crate::dynamixel::handler::carries_words;
use crate::motor_control::foc::MotionMode;
use crate::state_machine::cia402_registers::{
    mode_of_motion_mode, mode_of_operation_of, CiA402ModeOfOperation,
};
use crate::state_machine::cia402_state_machine::{
    command_of_word, next_state, CiA402Command, CiA402State,
};
use crate::state_machine::poulpe_state::{law_statusword_warning_bit, statusword_low, PoulpeState};

verus! {

/// Process RAM areas of the LAN9252 used by the board.
#[derive(Debug, Clone, Copy, PartialEq, Eq, Structural)]
pub enum Lan9252Memory {
    /// Mailbox data received from the master.
    MBoxInput,
    /// Mailbox data sent to the master.
    MBoxOutput,
    /// Process data received from the master.
    OrbitaIn,
    /// Process data sent to the master.
    OrbitaOut,
}

impl Lan9252Memory {
    /// Start address of the area.
    pub open spec fn spec_address(self) -> u16 {
        match self {
            Lan9252Memory::MBoxInput => 0x1000,
            Lan9252Memory::MBoxOutput => 0x1180,
            Lan9252Memory::OrbitaIn => 0x1300,
            Lan9252Memory::OrbitaOut => 0x1400,
        }
    }

    /// Start address of the area.
    pub fn address(self) -> (r: u16)
        ensures
            r == self.spec_address(),
    {
        match self {
            Lan9252Memory::MBoxInput => 0x1000,
            Lan9252Memory::MBoxOutput => 0x1180,
            Lan9252Memory::OrbitaIn => 0x1300,
            Lan9252Memory::OrbitaOut => 0x1400,
        }
    }
}

/// Watchdog counter carried in bits 11-15 of the control word.
pub open spec fn watchdog_of_controlword(controlword: u16) -> u8 {
    (controlword / 2048) as u8
}

/// Status word with the watchdog counter copied in: counter bit 0 into bit 8 and the
/// counter shifted right by one into bits 14-15 (upper byte, bits 6-7).
pub open spec fn statusword_with_watchdog(statusword: Seq<u8>, counter: u8) -> Seq<u8> {
    seq![statusword[0], statusword[1] | (counter & 1) | ((counter >> 1u8) << 6u8)]
}

/// Reads the watchdog counter from the control word.
pub fn parse_watchdog_counter(controlword: u16) -> (r: u8)
    ensures
        r == watchdog_of_controlword(controlword),
        r < 32,
{
    assert(controlword >> 11u16 == controlword / 2048 && controlword / 2048 < 32) by (bit_vector);
    (controlword >> 11u16) as u8
}

/// Copies the watchdog counter into the status word.
pub fn write_watchdog_counter(statusword: [u8; 2], counter: u8) -> (r: [u8; 2])
    ensures
        r@ == statusword_with_watchdog(statusword@, counter),
{
    let mut status_upper = statusword[1];
    status_upper = status_upper | (counter & 0b1);
    status_upper = status_upper | ((counter >> 1u8) << 6u8);
    let r = [statusword[0], status_upper];
    assert(r@ =~= statusword_with_watchdog(statusword@, counter));
    r
}

/// With the upper status byte clear, the three low bits of the watchdog counter are
/// found in bits 8, 14 and 15 of the status word sent back.
pub proof fn law_watchdog_echo(controlword: u16, state: PoulpeState)
    ensures
        ({
            let c = watchdog_of_controlword(controlword);
            let s = statusword_with_watchdog(
                seq![statusword_low(state.state_machine.state, state.state_machine.warning_active), 0u8],
                c,
            );
            &&& s[0] == statusword_low(state.state_machine.state, state.state_machine.warning_active)
            &&& s[1] & 1 == c & 1
            &&& (s[1] >> 6u8) & 1 == (c >> 1u8) & 1
            &&& (s[1] >> 7u8) & 1 == (c >> 2u8) & 1
            &&& s[1] & 0x3E == 0
        }),
{
    let c = watchdog_of_controlword(controlword);
    assert({
        let u = (0u8 | (c & 1)) | ((c >> 1u8) << 6u8);
        &&& u & 1 == c & 1
        &&& (u >> 6u8) & 1 == (c >> 1u8) & 1
        &&& (u >> 7u8) & 1 == (c >> 2u8) & 1
        &&& u & 0x3E == 0
    }) by (bit_vector);
}

/// The process data sent to the master: status word with the watchdog counter, mode of
/// operation, then positions, velocities, torques and axis sensors (little-endian
/// 32-bit patterns, one per axis).
pub open spec fn spec_pdo_outputs(
    watchdog_counter: u8,
    state: PoulpeState,
    control_mode: MotionMode,
    current_position: Seq<u32>,
    current_velocity: Seq<u32>,
    current_torque: Seq<u32>,
    axis_sensors: Seq<u32>,
) -> Seq<u8> {
    statusword_with_watchdog(
        seq![statusword_low(state.state_machine.state, state.state_machine.warning_active), 0u8],
        watchdog_counter,
    ) + seq![mode_of_motion_mode(control_mode).code()] + u32s_le_bytes(current_position)
        + u32s_le_bytes(current_velocity) + u32s_le_bytes(current_torque) + u32s_le_bytes(
        axis_sensors,
    )
}

/// The process data sent to the master report the board: the status word carries the
/// state in its seven low bits, the warning in bit 7, the three low bits of the
/// watchdog counter in bits 8, 14 and 15 and nothing else in its upper byte; the next
/// byte is the mode of operation (1 for position, 3 for velocity, 4 for torque, 0
/// otherwise); then come the positions, velocities, torques and axis sensors, each as
/// the little-endian words of its axes.
#[verifier::spinoff_prover]
pub proof fn law_pdo_outputs_report_the_board(
    watchdog_counter: u8,
    state: PoulpeState,
    control_mode: MotionMode,
    current_position: Seq<u32>,
    current_velocity: Seq<u32>,
    current_torque: Seq<u32>,
    axis_sensors: Seq<u32>,
)
    requires
        current_position.len() == N_AXIS,
        current_velocity.len() == N_AXIS,
        current_torque.len() == N_AXIS,
        axis_sensors.len() == N_AXIS,
    ensures
        ({
            let r = spec_pdo_outputs(
                watchdog_counter,
                state,
                control_mode,
                current_position,
                current_velocity,
                current_torque,
                axis_sensors,
            );
            let c = watchdog_counter;
            &&& r.len() == 51
            &&& (r[0] & 0x80 != 0) == state.state_machine.warning_active
            &&& r[0] & 0x7F == state.state_machine.state.code() as u8
            &&& r[1] & 1 == c & 1
            &&& (r[1] >> 6u8) & 1 == (c >> 1u8) & 1
            &&& (r[1] >> 7u8) & 1 == (c >> 2u8) & 1
            &&& r[1] & 0x3E == 0
            &&& r[2] == if control_mode == MotionMode::Position {
                1u8
            } else if control_mode == MotionMode::Velocity {
                3u8
            } else if control_mode == MotionMode::Torque {
                4u8
            } else {
                0u8
            }
            &&& carries_words(Some(r.subrange(3, 15)), current_position)
            &&& carries_words(Some(r.subrange(15, 27)), current_velocity)
            &&& carries_words(Some(r.subrange(27, 39)), current_torque)
            &&& carries_words(Some(r.subrange(39, 51)), axis_sensors)
        }),
{
    let c = watchdog_counter;
    law_statusword_warning_bit(state.state_machine.state, state.state_machine.warning_active);
    assert({
        let u = (0u8 | (c & 1)) | ((c >> 1u8) << 6u8);
        &&& u & 1 == c & 1
        &&& (u >> 6u8) & 1 == (c >> 1u8) & 1
        &&& (u >> 7u8) & 1 == (c >> 2u8) & 1
        &&& u & 0x3E == 0
    }) by (bit_vector);
    lemma_pdo_blocks(
        statusword_with_watchdog(
            seq![statusword_low(state.state_machine.state, state.state_machine.warning_active), 0u8],
            watchdog_counter,
        ),
        mode_of_motion_mode(control_mode).code(),
        current_position,
        current_velocity,
        current_torque,
        axis_sensors,
    );
}

proof fn lemma_words_block(w: Seq<u32>)
    requires
        w.len() == N_AXIS,
    ensures
        carries_words(Some(u32s_le_bytes(w)), w),
{
    law_u32_roundtrip(w);
}

#[verifier::spinoff_prover]
proof fn lemma_pdo_blocks(
    sw: Seq<u8>,
    m: u8,
    p: Seq<u32>,
    v: Seq<u32>,
    t: Seq<u32>,
    a: Seq<u32>,
)
    requires
        sw.len() == 2,
        p.len() == N_AXIS,
        v.len() == N_AXIS,
        t.len() == N_AXIS,
        a.len() == N_AXIS,
    ensures
        ({
            let r = sw + seq![m] + u32s_le_bytes(p) + u32s_le_bytes(v) + u32s_le_bytes(t)
                + u32s_le_bytes(a);
            &&& r.len() == 51
            &&& r[0] == sw[0] && r[1] == sw[1] && r[2] == m
            &&& carries_words(Some(r.subrange(3, 15)), p)
            &&& carries_words(Some(r.subrange(15, 27)), v)
            &&& carries_words(Some(r.subrange(27, 39)), t)
            &&& carries_words(Some(r.subrange(39, 51)), a)
        }),
{
    let r = sw + seq![m] + u32s_le_bytes(p) + u32s_le_bytes(v) + u32s_le_bytes(t)
        + u32s_le_bytes(a);
    lemma_words_block(p);
    lemma_words_block(v);
    lemma_words_block(t);
    lemma_words_block(a);
    assert(r.subrange(3, 15) =~= u32s_le_bytes(p));
    assert(r.subrange(15, 27) =~= u32s_le_bytes(v));
    assert(r.subrange(27, 39) =~= u32s_le_bytes(t));
    assert(r.subrange(39, 51) =~= u32s_le_bytes(a));
}

fn put_axis_block(data: &mut [u8; 51], start: usize, v: [u32; N_AXIS])
    requires
        start + 12 <= 51,
    ensures
        forall|k: int|
            0 <= k < 51 && !(start <= k < start + 12) ==> final(data)@[k] == old(data)@[k],
        forall|k: int| 0 <= k < 12 ==> final(data)@[start + k] == u32s_le_bytes(v@)[k],
{
    let mut i: usize = 0;
    while i < N_AXIS
        invariant
            i <= N_AXIS,
            start + 12 <= 51,
            forall|k: int|
                0 <= k < 51 && !(start <= k < start + 12) ==> data@[k] == old(data)@[k],
            forall|k: int| 0 <= k < 4 * i ==> data@[start + k] == u32s_le_bytes(v@)[k],
        decreases N_AXIS - i,
    {
        put_u32_le(data, start + 4 * i, v[i]);
        proof {
            assert forall|k: int| 4 * i <= k < 4 * i + 4 implies data@[start + k] == u32s_le_bytes(
                v@,
            )[k] by {
                assert(k / 4 == i);
            }
        }
        i = i + 1;
    }
}

/// Builds the process data sent to the master; the float values are passed as their
/// IEEE 754 bit patterns.
pub fn prepare_pdo_outputs(
    watchdog_counter: u8,
    state: &PoulpeState,
    control_mode: MotionMode,
    current_position: [u32; N_AXIS],
    current_velocity: [u32; N_AXIS],
    current_torque: [u32; N_AXIS],
    axis_sensors: [u32; N_AXIS],
) -> (r: [u8; 51])
    ensures
        r@ == spec_pdo_outputs(
            watchdog_counter,
            *state,
            control_mode,
            current_position@,
            current_velocity@,
            current_torque@,
            axis_sensors@,
        ),
{
    let mut data = [0u8; 51];
    let statusword = write_watchdog_counter(state.status_to_statusword(), watchdog_counter);
    data[0] = statusword[0];
    data[1] = statusword[1];
    data[2] = CiA402ModeOfOperation::from_tmc4671_mode(control_mode).to_u8();
    put_axis_block(&mut data, 3, current_position);
    put_axis_block(&mut data, 3 + 12, current_velocity);
    put_axis_block(&mut data, 3 + 24, current_torque);
    put_axis_block(&mut data, 3 + 36, axis_sensors);
    assert(data@ =~= spec_pdo_outputs(
        watchdog_counter,
        *state,
        control_mode,
        current_position@,
        current_velocity@,
        current_torque@,
        axis_sensors@,
    ));
    data
}

/// The state process data: error flags, number of axes, then the hardware zeros, the
/// board temperatures and the motor temperatures (little-endian 32-bit patterns), and
/// four padding bytes.
pub open spec fn spec_pdo_state(
    state: PoulpeState,
    axis_zeros: Seq<u32>,
    board_temperature: Seq<u32>,
    motor_temperature: Seq<u32>,
) -> Seq<u8> {
    seq![
        state.homing_error_flags,
        state.motor_error_flags[0],
        state.motor_error_flags[1],
        state.motor_error_flags[2],
        N_AXIS as u8,
    ] + u32s_le_bytes(axis_zeros) + u32s_le_bytes(board_temperature) + u32s_le_bytes(
        motor_temperature,
    ) + seq![0u8, 0u8, 0u8, 0u8]
}

fn put_state_block(data: &mut [u8; 45], start: usize, v: [u32; N_AXIS])
    requires
        start + 12 <= 45,
    ensures
        forall|k: int|
            0 <= k < 45 && !(start <= k < start + 12) ==> final(data)@[k] == old(data)@[k],
        forall|k: int| 0 <= k < 12 ==> final(data)@[start + k] == u32s_le_bytes(v@)[k],
{
    let mut i: usize = 0;
    while i < N_AXIS
        invariant
            i <= N_AXIS,
            start + 12 <= 45,
            forall|k: int|
                0 <= k < 45 && !(start <= k < start + 12) ==> data@[k] == old(data)@[k],
            forall|k: int| 0 <= k < 4 * i ==> data@[start + k] == u32s_le_bytes(v@)[k],
        decreases N_AXIS - i,
    {
        put_u32_le(data, start + 4 * i, v[i]);
        proof {
            assert forall|k: int| 4 * i <= k < 4 * i + 4 implies data@[start + k] == u32s_le_bytes(
                v@,
            )[k] by {
                assert(k / 4 == i);
            }
        }
        i = i + 1;
    }
}

/// Builds the state process data; the float values are passed as their IEEE 754 bit
/// patterns.
pub fn prepare_pdo_state(
    state: &PoulpeState,
    axis_zeros: [u32; N_AXIS],
    board_temperature: [u32; N_AXIS],
    motor_temperature: [u32; N_AXIS],
) -> (r: [u8; 45])
    ensures
        r@ == spec_pdo_state(*state, axis_zeros@, board_temperature@, motor_temperature@),
{
    let mut data = [0u8; 45];
    let error_flags = state.error_flags_to_u8();
    let mut nb_bytes: usize = 4;
    data[0] = error_flags[0];
    data[1] = error_flags[1];
    data[2] = error_flags[2];
    data[3] = error_flags[3];
    data[nb_bytes] = N_AXIS as u8;
    nb_bytes += 1;
    put_state_block(&mut data, nb_bytes, axis_zeros);
    put_state_block(&mut data, nb_bytes + N_AXIS * 4, board_temperature);
    put_state_block(&mut data, nb_bytes + 2 * N_AXIS * 4, motor_temperature);
    assert(data@ =~= spec_pdo_state(*state, axis_zeros@, board_temperature@, motor_temperature@));
    data
}

/// Length of the process data received from the master.
pub open spec fn pdo_inputs_len() -> int {
    3 + 20 * N_AXIS
}

/// The `block`-th group of per-axis values of the received process data.
pub open spec fn pdo_input_block(data: Seq<u8>, block: int) -> Seq<u32> {
    Seq::new(N_AXIS as nat, |i: int| le_u32_value(data, 3 + block * 12 + 4 * i))
}

fn read_axis_block(data: &[u8], start: usize, out: &mut [u32; N_AXIS])
    requires
        start + 12 <= data@.len(),
    ensures
        forall|i: int| 0 <= i < N_AXIS ==> final(out)[i] == le_u32_value(data@, start + 4 * i),
{
    let total = data.len();
    let mut i: usize = 0;
    while i < N_AXIS
        invariant
            i <= N_AXIS,
            total == data@.len(),
            start + 12 <= total,
            forall|j: int| 0 <= j < i ==> out[j] == le_u32_value(data@, start + 4 * j),
        decreases N_AXIS - i,
    {
        out[i] = read_u32_le(data, start + 4 * i);
        i = i + 1;
    }
}

/// Decodes the process data received from the master: control word, mode of operation,
/// then target positions, target velocities, velocity limits, target torques and torque
/// limits, as IEEE 754 bit patterns.
pub fn parse_pdo_inputs(
    data: &[u8],
    control_word: &mut u16,
    mode_of_operation: &mut CiA402ModeOfOperation,
    target_position: &mut [u32; N_AXIS],
    target_velocity: &mut [u32; N_AXIS],
    velocity_limits: &mut [u32; N_AXIS],
    target_torque: &mut [u32; N_AXIS],
    torque_limits: &mut [u32; N_AXIS],
)
    requires
        data@.len() >= pdo_inputs_len(),
    ensures
        *final(control_word) == le_u16_value(data@, 0),
        *final(mode_of_operation) == mode_of_operation_of(data@[2]),
        final(target_position)@ == pdo_input_block(data@, 0),
        final(target_velocity)@ == pdo_input_block(data@, 1),
        final(velocity_limits)@ == pdo_input_block(data@, 2),
        final(target_torque)@ == pdo_input_block(data@, 3),
        final(torque_limits)@ == pdo_input_block(data@, 4),
{
    *control_word = read_u16_le(data, 0);
    *mode_of_operation = CiA402ModeOfOperation::from_u8(data[2]);
    read_axis_block(data, 3, target_position);
    read_axis_block(data, 3 + N_AXIS * 4, target_velocity);
    read_axis_block(data, 3 + 2 * N_AXIS * 4, velocity_limits);
    read_axis_block(data, 3 + 3 * N_AXIS * 4, target_torque);
    read_axis_block(data, 3 + 4 * N_AXIS * 4, torque_limits);
    assert(target_position@ =~= pdo_input_block(data@, 0));
    assert(target_velocity@ =~= pdo_input_block(data@, 1));
    assert(velocity_limits@ =~= pdo_input_block(data@, 2));
    assert(target_torque@ =~= pdo_input_block(data@, 3));
    assert(torque_limits@ =~= pdo_input_block(data@, 4));
}


// ---------------------------------------------------------------------------
// Decisions of the process data step
// ---------------------------------------------------------------------------

/// Control word that asks for a quick stop (enable voltage set, quick stop bit clear).
pub const QUICK_STOP_CONTROL_WORD: u16 = 0b0010;

/// The control word passed on to the motors in the operational EtherCAT state: in a
/// pre-operation state or with operation enabled, the master's word, or a quick stop
/// when the watchdog counter or the process data have been silent for longer than the
/// allowed time; in any other state none, and the watchdog is re-armed.
pub open spec fn spec_pdo_control_word(
    state: PoulpeState,
    control_word: u16,
    watchdog_silent_ms: u64,
    pdos_silent_ms: u64,
) -> Option<u16> {
    let s = state.state_machine.state;
    if s == CiA402State::SwitchOnDisabled || s == CiA402State::ReadyToSwitchOn || s
        == CiA402State::SwitchedOn || s == CiA402State::OperationEnabled {
        if watchdog_silent_ms > MAX_WATCHDOG_DOWN_TIME_MS || pdos_silent_ms
            > MAX_WATCHDOG_DOWN_TIME_MS {
            Some(QUICK_STOP_CONTROL_WORD)
        } else {
            Some(control_word)
        }
    } else {
        None
    }
}

/// Decides the control word passed on from the process data (see
/// `spec_pdo_control_word`).
pub fn pdo_control_word(
    state: &PoulpeState,
    control_word: u16,
    watchdog_silent_ms: u64,
    pdos_silent_ms: u64,
) -> (r: Option<u16>)
    ensures
        r == spec_pdo_control_word(*state, control_word, watchdog_silent_ms, pdos_silent_ms),
{
    if state.is_preoperation_state() || state.is_operation_enabled() {
        if watchdog_silent_ms > MAX_WATCHDOG_DOWN_TIME_MS || pdos_silent_ms
            > MAX_WATCHDOG_DOWN_TIME_MS {
            Some(QUICK_STOP_CONTROL_WORD)
        } else {
            Some(control_word)
        }
    } else {
        None
    }
}

/// Outside the operational and pre-operational EtherCAT states the board is asked for a
/// quick stop whenever it could be moving: in a pre-operation state or with operation
/// enabled.
pub fn idle_control_word(state: &PoulpeState) -> (r: Option<u16>)
    ensures
        r == (if state.state_machine.state == CiA402State::SwitchOnDisabled
            || state.state_machine.state == CiA402State::ReadyToSwitchOn
            || state.state_machine.state == CiA402State::SwitchedOn
            || state.state_machine.state == CiA402State::OperationEnabled {
            Some(QUICK_STOP_CONTROL_WORD)
        } else {
            None::<u16>
        }),
{
    if state.is_preoperation_state() || state.is_operation_enabled() {
        Some(QUICK_STOP_CONTROL_WORD)
    } else {
        None
    }
}

/// A stale master always leads to a quick stop: once the watchdog counter or the
/// process data have been silent too long, the word passed on decodes as a quick stop,
/// which takes an enabled drive out of operation.
pub proof fn law_stale_master_stops(state: PoulpeState, control_word: u16, watchdog_silent_ms: u64, pdos_silent_ms: u64)
    requires
        watchdog_silent_ms > MAX_WATCHDOG_DOWN_TIME_MS || pdos_silent_ms
            > MAX_WATCHDOG_DOWN_TIME_MS,
        state.state_machine.state == CiA402State::OperationEnabled,
    ensures
        spec_pdo_control_word(state, control_word, watchdog_silent_ms, pdos_silent_ms) matches Some(w)
            && command_of_word(w) == CiA402Command::QuickStop && next_state(
            state.state_machine.state,
            command_of_word(w),
        ) == CiA402State::QuickStopActive,
{
    assert(((0b0010u16 >> 7u16) & 1) == 0 && ((0b0010u16 >> 0u16) & 1) == 0 && ((0b0010u16
        >> 1u16) & 1) == 1 && ((0b0010u16 >> 2u16) & 1) == 0) by (bit_vector);
}

// ---------------------------------------------------------------------------
// Decisions of the mailbox handler
// ---------------------------------------------------------------------------

/// Value carried by an SDO write: the four data bytes read little-endian, or zero when
/// the data is not exactly four bytes long.
pub open spec fn spec_sdo_write_value(data: Seq<u8>) -> u32 {
    if data.len() == 4 {
        le_u32_value(data, 0)
    } else {
        0
    }
}

/// Reads the value of an SDO write.
pub fn sdo_write_value(data: &[u8]) -> (r: u32)
    ensures
        r == spec_sdo_write_value(data@),
{
    if data.len() == 4 {
        read_u32_le(data, 0)
    } else {
        0
    }
}

/// The announced end of a firmware upload is accepted when both the announced size and
/// the received size are non-zero and they agree.
pub fn firmware_upload_complete(announced: u32, received: u32) -> (r: bool)
    ensures
        r == (announced != 0 && received != 0 && announced == received),
{
    if announced == 0 {
        false
    } else if received == 0 {
        false
    } else {
        announced == received
    }
}

/// Object dictionary entries the board answers to SDO reads, with the data of the answer
/// and whether it is a number: received firmware bytes (0x100:1), firmware version
/// (0x200:1), board id (0x201:1), hardware zero of an axis (0x202:axis) and number of
/// axes (0x203:1); `None` for any other entry.
pub open spec fn spec_sdo_read_reply(
    index: u16,
    sub_index: u8,
    received_bytes: u32,
    git_hash: Seq<u8>,
    board_id: u8,
    hardware_zeros: Seq<u32>,
) -> Option<(Seq<u8>, bool)> {
    if index == 0x100 && sub_index == 1 {
        Some((le_u32_bytes(received_bytes), true))
    } else if index == 0x200 && sub_index == 1 {
        Some((git_hash, false))
    } else if index == 0x201 && sub_index == 1 {
        Some((seq![board_id], true))
    } else if index == 0x202 {
        if sub_index < N_AXIS {
            Some((le_u32_bytes(hardware_zeros[sub_index as int]), true))
        } else {
            None
        }
    } else if index == 0x203 && sub_index == 1 {
        Some((le_u32_bytes(N_AXIS as u32), true))
    } else {
        None
    }
}

fn u32_le_vec(v: u32) -> (r: Vec<u8>)
    ensures
        r@ == le_u32_bytes(v),
{
    let mut out: Vec<u8> = Vec::new();
    out.push((v % 256) as u8);
    out.push(((v / 0x100) % 256) as u8);
    out.push(((v / 0x1_0000) % 256) as u8);
    out.push((v / 0x100_0000) as u8);
    assert(out@ =~= le_u32_bytes(v));
    out
}

/// The answer to an SDO read of `index`/`sub_index`; hardware zeros are IEEE 754 bit
/// patterns.
pub fn sdo_read_reply(
    index: u16,
    sub_index: u8,
    received_bytes: u32,
    git_hash: &[u8],
    board_id: u8,
    hardware_zeros: [u32; N_AXIS],
) -> (r: Option<(Vec<u8>, bool)>)
    ensures
        match r {
            Some((d, n)) => spec_sdo_read_reply(
                index,
                sub_index,
                received_bytes,
                git_hash@,
                board_id,
                hardware_zeros@,
            ) == Some((d@, n)),
            None => spec_sdo_read_reply(
                index,
                sub_index,
                received_bytes,
                git_hash@,
                board_id,
                hardware_zeros@,
            ) is None,
        },
{
    if index == 0x100 && sub_index == 1 {
        Some((u32_le_vec(received_bytes), true))
    } else if index == 0x200 && sub_index == 1 {
        let mut out: Vec<u8> = Vec::new();
        let mut i: usize = 0;
        while i < git_hash.len()
            invariant
                i <= git_hash@.len(),
                out@ =~= git_hash@.take(i as int),
            decreases git_hash@.len() - i,
        {
            out.push(git_hash[i]);
            i = i + 1;
        }
        assert(git_hash@.take(git_hash@.len() as int) =~= git_hash@);
        Some((out, false))
    } else if index == 0x201 && sub_index == 1 {
        let mut out: Vec<u8> = Vec::new();
        out.push(board_id);
        assert(out@ =~= seq![board_id]);
        Some((out, true))
    } else if index == 0x202 {
        if (sub_index as usize) < N_AXIS {
            Some((u32_le_vec(hardware_zeros[sub_index as usize]), true))
        } else {
            None
        }
    } else if index == 0x203 && sub_index == 1 {
        Some((u32_le_vec(N_AXIS as u32), true))
    } else {
        None
    }
}

/// Every numeric answer to an SDO read is at most four bytes long, so it fits an
/// expedited upload response in a prepared mailbox frame.
pub proof fn law_numeric_replies_fit_expedited(
    index: u16,
    sub_index: u8,
    received_bytes: u32,
    git_hash: Seq<u8>,
    board_id: u8,
    hardware_zeros: Seq<u32>,
    frame: Seq<u8>,
)
    requires
        frame.len() == 128,
    ensures
        spec_sdo_read_reply(index, sub_index, received_bytes, git_hash, board_id, hardware_zeros)
            matches Some((d, numeric)) ==> numeric ==> (1 <= d.len() <= 4
            && crate::ethercat::coe::up_response_fits(frame, d, true)),
{
}

/// `r` answers the number `w`: its four little-endian bytes, sent as a number.
pub open spec fn answers_word(r: Option<(Seq<u8>, bool)>, w: u32) -> bool {
    match r {
        Some((d, numeric)) => numeric && d.len() == 4 && le_u32_value(d, 0) == w,
        None => false,
    }
}

/// The object dictionary answered to SDO reads: 0x100:1 the firmware bytes received so
/// far, 0x200:1 the firmware version as text, 0x201:1 the board id, 0x202:a the hardware
/// zero of axis `a` for every axis, 0x203:1 the number of axes; numbers go as their
/// little-endian bytes. Any other entry is not answered.
pub proof fn law_sdo_dictionary(
    received_bytes: u32,
    git_hash: Seq<u8>,
    board_id: u8,
    hardware_zeros: Seq<u32>,
    index: u16,
    sub_index: u8,
)
    requires
        hardware_zeros.len() == N_AXIS,
    ensures
        answers_word(
            spec_sdo_read_reply(0x100, 1, received_bytes, git_hash, board_id, hardware_zeros),
            received_bytes,
        ),
        spec_sdo_read_reply(0x200, 1, received_bytes, git_hash, board_id, hardware_zeros)
            == Some((git_hash, false)),
        spec_sdo_read_reply(0x201, 1, received_bytes, git_hash, board_id, hardware_zeros)
            == Some((seq![board_id], true)),
        forall|a: u8|
            a < N_AXIS ==> answers_word(
                #[trigger] spec_sdo_read_reply(
                    0x202,
                    a,
                    received_bytes,
                    git_hash,
                    board_id,
                    hardware_zeros,
                ),
                hardware_zeros[a as int],
            ),
        answers_word(
            spec_sdo_read_reply(0x203, 1, received_bytes, git_hash, board_id, hardware_zeros),
            N_AXIS as u32,
        ),
        !(index == 0x100 && sub_index == 1) && !(index == 0x200 && sub_index == 1) && !(index
            == 0x201 && sub_index == 1) && !(index == 0x202 && sub_index < N_AXIS) && !(index
            == 0x203 && sub_index == 1) ==> spec_sdo_read_reply(
            index,
            sub_index,
            received_bytes,
            git_hash,
            board_id,
            hardware_zeros,
        ) is None,
{
    lemma_u32_word(received_bytes);
    lemma_u32_word(N_AXIS as u32);
    assert forall|a: u8| a < N_AXIS implies answers_word(
        #[trigger] spec_sdo_read_reply(
            0x202,
            a,
            received_bytes,
            git_hash,
            board_id,
            hardware_zeros,
        ),
        hardware_zeros[a as int],
    ) by {
        lemma_u32_word(hardware_zeros[a as int]);
    }
}

} // verus!
