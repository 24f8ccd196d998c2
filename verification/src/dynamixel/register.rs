use vstd::prelude::*;

verus! {

/// Registers of the Dynamixel control table.
#[derive(Debug, Clone, Copy, PartialEq, Eq, Structural)]
pub enum DynamixelRegister {
    ModelNumber,
    FirmwareVersion,
    Id,
    FluxPID,
    TorquePID,
    VelocityPID,
    PositionPID,
    UqUdLimit,
    TorqueFluxLimit,
    VelocityLimit,
    TorqueEnable,
    CurrentPosition,
    CurrentVelocity,
    CurrentTorque,
    TargetTorque,
    TargetVelocity,
    FeedforwardVelocity,
    TargetPosition,
    TargetPositionWithVelocityFF,
    AxisSensor,
    IndexSensor,
    FullState,
}

/// Address of each register in the control table; the torque and velocity targets
/// have none.
pub open spec fn register_address(r: DynamixelRegister) -> Option<u8> {
    match r {
        DynamixelRegister::ModelNumber => Some(0u8),
        DynamixelRegister::FirmwareVersion => Some(6u8),
        DynamixelRegister::Id => Some(7u8),
        DynamixelRegister::VelocityLimit => Some(10u8),
        DynamixelRegister::TorqueFluxLimit => Some(14u8),
        DynamixelRegister::UqUdLimit => Some(18u8),
        DynamixelRegister::FluxPID => Some(20u8),
        DynamixelRegister::TorquePID => Some(24u8),
        DynamixelRegister::VelocityPID => Some(28u8),
        DynamixelRegister::PositionPID => Some(32u8),
        DynamixelRegister::TorqueEnable => Some(40u8),
        DynamixelRegister::CurrentPosition => Some(50u8),
        DynamixelRegister::CurrentVelocity => Some(51u8),
        DynamixelRegister::CurrentTorque => Some(52u8),
        DynamixelRegister::FeedforwardVelocity => Some(54u8),
        DynamixelRegister::TargetPosition => Some(60u8),
        DynamixelRegister::TargetPositionWithVelocityFF => Some(62u8),
        DynamixelRegister::AxisSensor => Some(90u8),
        DynamixelRegister::IndexSensor => Some(99u8),
        DynamixelRegister::FullState => Some(100u8),
        DynamixelRegister::TargetTorque => None,
        DynamixelRegister::TargetVelocity => None,
    }
}

/// The register the control table holds at `address`.
pub open spec fn register_at(address: u8) -> Option<DynamixelRegister> {
    match address {
        0 => Some(DynamixelRegister::ModelNumber),
        6 => Some(DynamixelRegister::FirmwareVersion),
        7 => Some(DynamixelRegister::Id),
        10 => Some(DynamixelRegister::VelocityLimit),
        14 => Some(DynamixelRegister::TorqueFluxLimit),
        18 => Some(DynamixelRegister::UqUdLimit),
        20 => Some(DynamixelRegister::FluxPID),
        24 => Some(DynamixelRegister::TorquePID),
        28 => Some(DynamixelRegister::VelocityPID),
        32 => Some(DynamixelRegister::PositionPID),
        40 => Some(DynamixelRegister::TorqueEnable),
        50 => Some(DynamixelRegister::CurrentPosition),
        51 => Some(DynamixelRegister::CurrentVelocity),
        52 => Some(DynamixelRegister::CurrentTorque),
        54 => Some(DynamixelRegister::FeedforwardVelocity),
        60 => Some(DynamixelRegister::TargetPosition),
        62 => Some(DynamixelRegister::TargetPositionWithVelocityFF),
        90 => Some(DynamixelRegister::AxisSensor),
        99 => Some(DynamixelRegister::IndexSensor),
        100 => Some(DynamixelRegister::FullState),
        _ => None,
    }
}

impl DynamixelRegister {
    /// The register found at `address`, if the control table has one there.
    pub fn with_address(address: u8) -> (res: Option<Self>)
        ensures
            res == register_at(address),
            res matches Some(r) ==> register_address(r) == Some(address),
            res is None ==> forall|r: DynamixelRegister| register_address(r) != Some(address),
    {
        let res = match address {
            0 => Some(DynamixelRegister::ModelNumber),
            6 => Some(DynamixelRegister::FirmwareVersion),
            7 => Some(DynamixelRegister::Id),
            10 => Some(DynamixelRegister::VelocityLimit),
            14 => Some(DynamixelRegister::TorqueFluxLimit),
            18 => Some(DynamixelRegister::UqUdLimit),
            20 => Some(DynamixelRegister::FluxPID),
            24 => Some(DynamixelRegister::TorquePID),
            28 => Some(DynamixelRegister::VelocityPID),
            32 => Some(DynamixelRegister::PositionPID),
            40 => Some(DynamixelRegister::TorqueEnable),
            51 => Some(DynamixelRegister::CurrentVelocity),
            50 => Some(DynamixelRegister::CurrentPosition),
            54 => Some(DynamixelRegister::FeedforwardVelocity),
            52 => Some(DynamixelRegister::CurrentTorque),
            62 => Some(DynamixelRegister::TargetPositionWithVelocityFF),
            60 => Some(DynamixelRegister::TargetPosition),
            90 => Some(DynamixelRegister::AxisSensor),
            99 => Some(DynamixelRegister::IndexSensor),
            100 => Some(DynamixelRegister::FullState),
            _ => None,
        };
        proof {
            if res is None {
                assert forall|r: DynamixelRegister| register_address(r) != Some(address) by {
                    match r {
                        _ => {},
                    }
                }
            }
        }
        res
    }
}

/// Looking an address up gives the register stored there, and only a register whose
/// address it is.
pub proof fn law_register_lookup_inverts_table(address: u8, r: DynamixelRegister)
    ensures
        register_at(address) == Some(r) <==> register_address(r) == Some(address),
{
}

/// No two registers share an address, so an address names at most one register.
pub proof fn law_register_addresses_distinct(r1: DynamixelRegister, r2: DynamixelRegister)
    requires
        register_address(r1) is Some,
        register_address(r1) == register_address(r2),
    ensures
        r1 == r2,
{
}

} // verus!
