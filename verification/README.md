# poulpe

Verified logic of the Poulpe motor-controller board of the Orbita actuators: the
Dynamixel and EtherCAT protocols, the CiA 402 state machine, the board's error flags,
the register datagrams of its chips, the shared value store and the decisions of the
motor control loop. Every function in `src/` carries a contract proved by Verus.

Layout:

- `src/dynamixel/`: instruction and status packets, the byte receiver, value
  encodings, the control table and the request handler.
- `src/ethercat/`: mailbox, CoE and FoE frames, the LAN9252 access frames and the
  process data exchanged with the master.
- `src/state_machine/`: the CiA 402 state machine and the board state with its error
  flags.
- `src/motor_control/`: TMC4671, TMC6200 and DRV8316 datagrams and configurations,
  axis sensor decoding, homing decisions, supervision and control-loop decisions.
- `src/sensors/`: ADS124S0x and LTC4332 frames and register values.
- `src/shared_memory.rs`: the store of values shared between communication and
  control, with the law that a write over the bus of a limit, a feed-forward velocity
  or a target position reads back unchanged (PID gains keep 15 bits each, so a
  negative gain does not).
- `src/config/`: board constants, motor and current-sensing presets, the flash record.
- `app/`: a host runner that answers Dynamixel requests read from standard input, and
  the floating-point computations, which Verus does not reason about.
- `tests/`: tests of the library on concrete values.

Floats are carried through the library as their IEEE-754 bit patterns.
