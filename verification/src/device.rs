//! The device handle, and the discovery of the address that the sensor
//! answers at.
//!
//! The sensor answers at one of two addresses, selected by a pin. Discovery
//! reads the identity register at the high address, then at the low one, and
//! binds a handle to the first address whose reply is the identity of the
//! chip. A handle never changes its address.
use crate::bus::{Progress, RegisterRead, RegisterWrite};
use crate::config::{AxisMode, FullScale, OperatingMode, OutputDataRate};
use crate::control::{
    data_rate_value, xy_mode_and_data_rate_bits, xy_mode_and_data_rate_value, xy_mode_value,
    z_mode_bits, z_mode_value, DATA_RATE_MASK, XY_MODE_MASK,
};
use crate::operation::{Poll, Setup, SetupStage, Update};
use crate::registers::{CTRL_REG1, CTRL_REG2, CTRL_REG3, CTRL_REG4, WHO_AM_I};
use vstd::prelude::*;

verus! {

/// The address of the sensor when its address-select pin is pulled high.
pub const LIS3MDL_SA1_HIGH_ADDRESS: u8 = 0b0011110;

/// The address of the sensor when its address-select pin is pulled low.
pub const LIS3MDL_SA1_LOW_ADDRESS: u8 = 0b0011100;

/// The value of the identity register of a LIS3MDL.
pub const LIS3MDL_WHO_ID: u8 = 0x3D;

/// What the buffer of a probe holds before the bus fills it: a byte that is
/// not the identity, so that a bus that leaves the buffer alone is not taken
/// for the chip.
pub const PROBE_FILL: u8 = 0x3E;

/// A sensor that was found on the bus: the address that it answers at.
#[derive(Clone, Copy, Debug, PartialEq, Eq)]
pub struct LIS3MDL {
    address: u8,
}

/// The state of a discovery: the candidate address whose probe is due.
#[derive(Clone, Copy, Debug, PartialEq, Eq)]
pub enum Discovery {
    ProbeHigh,
    ProbeLow,
}

/// Whether the reply to a probe is the identity of the chip.
pub open spec fn confirms_identity(reply: [u8; 1]) -> bool {
    reply[0] == LIS3MDL_WHO_ID
}

impl Discovery {
    /// The candidate address of this state.
    pub open spec fn spec_address(self) -> u8 {
        match self {
            Discovery::ProbeHigh => LIS3MDL_SA1_HIGH_ADDRESS,
            Discovery::ProbeLow => LIS3MDL_SA1_LOW_ADDRESS,
        }
    }

    /// The probe of this state: a one-byte read of the identity register at
    /// the candidate address, into a buffer that does not hold the identity.
    pub open spec fn spec_request(self) -> RegisterRead<1> {
        RegisterRead { address: self.spec_address(), register: WHO_AM_I, buffer: [PROBE_FILL] }
    }

    /// What follows from the reply to the probe of this state.
    pub open spec fn spec_advance<E>(self, reply: Result<[u8; 1], E>) -> Progress<
        Discovery,
        Option<LIS3MDL>,
        E,
    > {
        match reply {
            Err(error) => Progress::Done(Err(error)),
            Ok(bytes) => if confirms_identity(bytes) {
                Progress::Done(Ok(Some(LIS3MDL::bound_to(self.spec_address()))))
            } else {
                match self {
                    Discovery::ProbeHigh => Progress::Next(Discovery::ProbeLow),
                    Discovery::ProbeLow => Progress::Done(Ok(None)),
                }
            },
        }
    }

    /// The candidate address whose probe is due.
    #[verifier::when_used_as_spec(spec_address)]
    pub fn address(self) -> (address: u8)
        ensures
            address == self.spec_address(),
    {
        match self {
            Discovery::ProbeHigh => LIS3MDL_SA1_HIGH_ADDRESS,
            Discovery::ProbeLow => LIS3MDL_SA1_LOW_ADDRESS,
        }
    }

    /// The transaction to issue now: the probe of the candidate address.
    #[verifier::when_used_as_spec(spec_request)]
    pub fn request(self) -> (read: RegisterRead<1>)
        ensures
            read == self.spec_request(),
    {
        RegisterRead { address: self.address(), register: WHO_AM_I, buffer: [PROBE_FILL] }
    }

    /// Takes the reply to the probe.
    ///
    /// A reply that is the identity of the chip ends the discovery with a
    /// handle bound to the candidate address. Any other reply moves on from
    /// the high address to the low one, and at the low one ends the
    /// discovery without a handle: no sensor is there, which is no failure.
    /// A failure of the bus ends the discovery at once with that failure;
    /// the other address is not probed.
    #[verifier::when_used_as_spec(spec_advance)]
    pub fn advance<E>(self, reply: Result<[u8; 1], E>) -> (next: Progress<
        Discovery,
        Option<LIS3MDL>,
        E,
    >)
        ensures
            next == self.spec_advance(reply),
    {
        match reply {
            Err(error) => Progress::Done(Err(error)),
            Ok(bytes) => if bytes[0] == LIS3MDL_WHO_ID {
                Progress::Done(Ok(Some(LIS3MDL { address: self.address() })))
            } else {
                match self {
                    Discovery::ProbeHigh => Progress::Next(Discovery::ProbeLow),
                    Discovery::ProbeLow => Progress::Done(Ok(None)),
                }
            },
        }
    }
}

/// The result of a discovery on a bus that replies `high` to the probe of the
/// high address and `low` to the probe of the low address: a handle bound to
/// the first address, the high one before the low one, whose reply is the
/// identity of the chip; no handle where neither reply is; and the first
/// failure of the bus that comes before either.
pub open spec fn discovery_result<E>(high: Result<[u8; 1], E>, low: Result<[u8; 1], E>) -> Result<
    Option<LIS3MDL>,
    E,
> {
    match high {
        Err(error) => Err(error),
        Ok(bytes) if confirms_identity(bytes) => Ok(
            Some(LIS3MDL::bound_to(LIS3MDL_SA1_HIGH_ADDRESS)),
        ),
        Ok(_) => match low {
            Err(error) => Err(error),
            Ok(bytes) if confirms_identity(bytes) => Ok(
                Some(LIS3MDL::bound_to(LIS3MDL_SA1_LOW_ADDRESS)),
            ),
            Ok(_) => Ok(None),
        },
    }
}

/// A discovery starts with the probe of the high address, takes at most two
/// probes, the second of them at the low address, and ends with
/// `discovery_result`. Where the first probe ends it, the low address is not
/// probed, so the result does not depend on what the bus would have replied
/// there.
pub proof fn discovery_runs_to_its_result<E>(high: Result<[u8; 1], E>, low: Result<[u8; 1], E>)
    ensures
        LIS3MDL::new().request().address == LIS3MDL_SA1_HIGH_ADDRESS,
        LIS3MDL::new().request().register == WHO_AM_I,
        !confirms_identity(LIS3MDL::new().request().buffer),
        match LIS3MDL::new().advance(high) {
            Progress::Done(result) => result == discovery_result(high, low),
            Progress::Next(second) => {
                &&& second == Discovery::ProbeLow
                &&& second.request().address == LIS3MDL_SA1_LOW_ADDRESS
                &&& second.request().register == WHO_AM_I
                &&& !confirms_identity(second.request().buffer)
                &&& second.advance(low) == Progress::<Discovery, Option<LIS3MDL>, E>::Done(
                    discovery_result(high, low),
                )
            },
        },
{
}

/// A sensor that answers with its identity at the low address only is found
/// there, whatever the high address replied instead of the identity.
pub proof fn discovery_finds_sensor_at_low_address<E>(high: [u8; 1], low: [u8; 1])
    requires
        !confirms_identity(high),
        confirms_identity(low),
    ensures
        discovery_result::<E>(Ok(high), Ok(low)) == Ok::<Option<LIS3MDL>, E>(
            Some(LIS3MDL::bound_to(LIS3MDL_SA1_LOW_ADDRESS)),
        ),
        LIS3MDL::bound_to(LIS3MDL_SA1_LOW_ADDRESS).address() == LIS3MDL_SA1_LOW_ADDRESS,
{
}

/// A sensor that answers with its identity at the high address is found
/// there, whatever is at the low address.
pub proof fn discovery_prefers_high_address<E>(high: [u8; 1], low: Result<[u8; 1], E>)
    requires
        confirms_identity(high),
    ensures
        discovery_result::<E>(Ok(high), low) == Ok::<Option<LIS3MDL>, E>(
            Some(LIS3MDL::bound_to(LIS3MDL_SA1_HIGH_ADDRESS)),
        ),
        LIS3MDL::bound_to(LIS3MDL_SA1_HIGH_ADDRESS).address() == LIS3MDL_SA1_HIGH_ADDRESS,
{
}

/// Where neither address replies with the identity of the chip, the
/// discovery ends without a handle and without a failure.
pub proof fn discovery_reports_absent_sensor<E>(high: [u8; 1], low: [u8; 1])
    requires
        !confirms_identity(high),
        !confirms_identity(low),
    ensures
        discovery_result::<E>(Ok(high), Ok(low)) == Ok::<Option<LIS3MDL>, E>(None),
{
}

/// A probe that fails on the bus ends the discovery with that failure: at
/// the high address whatever the low address holds, and at the low address
/// once the high one has replied with something else than the identity. A
/// failure is never taken for an absent sensor.
pub proof fn discovery_passes_failure_on<E>(error: E, high: [u8; 1], low: Result<[u8; 1], E>)
    ensures
        discovery_result(Err(error), low) == Err::<Option<LIS3MDL>, E>(error),
        !confirms_identity(high) ==> discovery_result(Ok(high), Err(error)) == Err::<
            Option<LIS3MDL>,
            E,
        >(error),
        Discovery::ProbeHigh.advance::<E>(Err(error)) == Progress::<
            Discovery,
            Option<LIS3MDL>,
            E,
        >::Done(Err(error)),
        Discovery::ProbeLow.advance::<E>(Err(error)) == Progress::<
            Discovery,
            Option<LIS3MDL>,
            E,
        >::Done(Err(error)),
{
}

/// Every handle that a discovery ends with is bound to one of the two
/// candidate addresses.
pub proof fn discovery_binds_candidate_address<E>(
    high: Result<[u8; 1], E>,
    low: Result<[u8; 1], E>,
)
    ensures
        discovery_result(high, low) matches Ok(Some(device)) ==> device.address()
            == LIS3MDL_SA1_HIGH_ADDRESS || device.address() == LIS3MDL_SA1_LOW_ADDRESS,
{
}

impl LIS3MDL {
    /// A handle holds one of the two candidate addresses.
    #[verifier::type_invariant]
    spec fn holds_candidate(self) -> bool {
        self.address == LIS3MDL_SA1_HIGH_ADDRESS || self.address == LIS3MDL_SA1_LOW_ADDRESS
    }

    /// The handle of a sensor at `address`.
    pub closed spec fn bound_to(address: u8) -> LIS3MDL {
        LIS3MDL { address }
    }

    /// The address that the handle is bound to.
    pub closed spec fn spec_address(&self) -> u8 {
        self.address
    }

    /// The state in which a discovery begins.
    pub open spec fn spec_new() -> Discovery {
        Discovery::ProbeHigh
    }

    /// A handle is its address and nothing else.
    pub proof fn handle_is_its_address(self, address: u8)
        ensures
            Self::bound_to(address).spec_address() == address,
            Self::bound_to(self.spec_address()) == self,
    {
    }

    /// Begins the discovery of the sensor, at the high address. The
    /// discovery ends with a handle, or with none where no LIS3MDL answers
    /// at either address.
    #[verifier::when_used_as_spec(spec_new)]
    pub fn new() -> (discovery: Discovery)
        ensures
            discovery == Self::spec_new(),
    {
        Discovery::ProbeHigh
    }

    /// The address that the sensor answers at.
    #[verifier::when_used_as_spec(spec_address)]
    pub fn address(&self) -> (address: u8)
        ensures
            address == self.spec_address(),
            address == LIS3MDL_SA1_HIGH_ADDRESS || address == LIS3MDL_SA1_LOW_ADDRESS,
    {
        proof {
            use_type_invariant(self);
        }
        self.address
    }

    /// The default set-up: high performance on all axes, 10 Hz, continuous
    /// conversion, as three writes in this order.
    pub fn init_default(&self) -> (setup: Setup)
        ensures
            setup == (Setup { address: self.address(), stage: SetupStage::XyModeAndDataRate }),
    {
        Setup { address: self.address, stage: SetupStage::XyModeAndDataRate }
    }

    /// Sets the operating mode of the sensor: one write that overwrites the
    /// whole of control register 3.
    pub fn set_operating_mode(&self, mode: OperatingMode) -> (write: RegisterWrite)
        ensures
            write == (RegisterWrite {
                address: self.address(),
                register: CTRL_REG3,
                value: mode.bitcode(),
            }),
    {
        self.set_register(CTRL_REG3, mode.to_bitcode())
    }

    /// Puts the sensor to sleep: the write that sets the operating mode to
    /// `PowerDown`, and no other.
    pub fn power_down(&self) -> (write: RegisterWrite)
        ensures
            write == (RegisterWrite {
                address: self.address(),
                register: CTRL_REG3,
                value: OperatingMode::PowerDown.bitcode(),
            }),
    {
        self.set_operating_mode(OperatingMode::PowerDown)
    }

    /// Sets the measurement range: one write that overwrites the whole of
    /// control register 2.
    pub fn set_full_scale(&self, scale: FullScale) -> (write: RegisterWrite)
        ensures
            write == (RegisterWrite {
                address: self.address(),
                register: CTRL_REG2,
                value: scale.bitcode(),
            }),
    {
        self.set_register(CTRL_REG2, scale.to_bitcode())
    }

    /// Sets the performance mode of the X and Y axes together with the
    /// output data rate: one write that overwrites the whole of control
    /// register 1.
    pub fn set_xy_mode_and_data_rate(&self, mode: AxisMode, odr: OutputDataRate) -> (write:
        RegisterWrite)
        ensures
            write == (RegisterWrite {
                address: self.address(),
                register: CTRL_REG1,
                value: xy_mode_and_data_rate_bits(mode, odr),
            }),
    {
        self.set_register(CTRL_REG1, xy_mode_and_data_rate_value(mode, odr))
    }

    /// Sets the performance mode of the X and Y axes and keeps every other
    /// bit of control register 1, the output data rate among them.
    pub fn set_xy_mode(&self, mode: AxisMode) -> (update: Update)
        ensures
            update == Update::of_xy_mode(self.address(), mode),
    {
        Update {
            address: self.address,
            register: CTRL_REG1,
            mask: XY_MODE_MASK,
            bits: xy_mode_value(mode),
        }
    }

    /// Sets the performance mode of the Z axis: one write that overwrites
    /// the whole of control register 4.
    pub fn set_z_mode(&self, mode: AxisMode) -> (write: RegisterWrite)
        ensures
            write == (RegisterWrite {
                address: self.address(),
                register: CTRL_REG4,
                value: z_mode_bits(mode),
            }),
    {
        self.set_register(CTRL_REG4, z_mode_value(mode))
    }

    /// Sets the output data rate and keeps every other bit of control
    /// register 1, the XY performance mode among them.
    pub fn set_data_rate(&self, odr: OutputDataRate) -> (update: Update)
        ensures
            update == Update::of_data_rate(self.address(), odr),
    {
        Update {
            address: self.address,
            register: CTRL_REG1,
            mask: DATA_RATE_MASK,
            bits: data_rate_value(odr),
        }
    }

    /// Sets a register of the sensor to a value: one write of the two bytes
    /// `reg` and `value` to the address of the sensor.
    pub fn set_register(&self, reg: u8, value: u8) -> (write: RegisterWrite)
        ensures
            write == (RegisterWrite { address: self.address(), register: reg, value }),
    {
        RegisterWrite { address: self.address, register: reg, value }
    }

    /// Reads a register of the sensor: `reg` is sent to the address of the
    /// sensor and one byte is read back, in one transaction. The register's
    /// value is the byte of the reply.
    pub fn read_register(&self, reg: u8) -> (read: RegisterRead<1>)
        ensures
            read == (RegisterRead::<1> { address: self.address(), register: reg, buffer: [0] }),
    {
        RegisterRead { address: self.address, register: reg, buffer: [0] }
    }

    /// Polls for the latest sample. The poll ends without a sample where
    /// none is ready; that is no failure, and the caller may poll again at
    /// once.
    pub fn read(&self) -> (poll: Poll)
        ensures
            poll == (Poll { address: self.address() }),
    {
        Poll { address: self.address }
    }
}

} // verus!
