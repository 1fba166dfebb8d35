//! The operations that take more than one transaction.
//!
//! Each is a short chain of states. A state names the transaction to issue
//! with `request`, and `advance` says what follows from the reply: the next
//! state, or the end of the operation. A failure of the bus ends every
//! operation at once, with that failure as its result; nothing is tried
//! again and nothing further is asked of the bus.
use crate::bus::{Progress, RegisterRead, RegisterWrite};
use crate::config::{AxisMode, OperatingMode, OutputDataRate};
use crate::control::{
    data_rate_bits, data_rate_field, default_values, replace, replace_bits,
    replace_bits_overwrites, replacing_data_rate_keeps_xy_mode, replacing_xy_mode_keeps_data_rate,
    xy_mode_and_data_rate_bits, xy_mode_and_data_rate_value, xy_mode_bits, xy_mode_field,
    z_mode_bits, z_mode_value, DATA_RATE_MASK, XY_MODE_MASK,
};
use crate::measurement::{data_ready, decode, is_data_ready, sample, Measurement};
use crate::registers::{CTRL_REG1, CTRL_REG3, CTRL_REG4, OUT_X_L, STATUS_REG};
use vstd::prelude::*;

verus! {

/// The replacement of one field of a register: the register is read, the
/// bits under `mask` are replaced by `bits`, and the result is written back.
#[derive(Clone, Copy, Debug, PartialEq, Eq)]
pub struct Update {
    pub address: u8,
    pub register: u8,
    pub mask: u8,
    pub bits: u8,
}

impl Update {
    /// The update that sets the XY performance mode of the sensor at
    /// `address`.
    pub open spec fn of_xy_mode(address: u8, mode: AxisMode) -> Update {
        Update { address, register: CTRL_REG1, mask: XY_MODE_MASK, bits: xy_mode_bits(mode) }
    }

    /// The update that sets the output data rate of the sensor at `address`.
    pub open spec fn of_data_rate(address: u8, rate: OutputDataRate) -> Update {
        Update { address, register: CTRL_REG1, mask: DATA_RATE_MASK, bits: data_rate_bits(rate) }
    }

    /// The read of the register's current value.
    pub open spec fn spec_request(self) -> RegisterRead<1> {
        RegisterRead { address: self.address, register: self.register, buffer: [0] }
    }

    /// What follows from the reply to the read: the write of the new value,
    /// which ends the operation, or the failure.
    pub open spec fn spec_advance<E>(self, reply: Result<[u8; 1], E>) -> Progress<
        RegisterWrite,
        (),
        E,
    > {
        match reply {
            Ok(current) => Progress::Next(
                RegisterWrite {
                    address: self.address,
                    register: self.register,
                    value: replace_bits(current[0], self.mask, self.bits),
                },
            ),
            Err(error) => Progress::Done(Err(error)),
        }
    }

    /// The transaction to issue first: a one-byte read of the register.
    #[verifier::when_used_as_spec(spec_request)]
    pub fn request(self) -> (read: RegisterRead<1>)
        ensures
            read == self.spec_request(),
    {
        RegisterRead { address: self.address, register: self.register, buffer: [0] }
    }

    /// Takes the reply to the read. On success the write of the new value is
    /// next, and its result is the result of the update; on failure the
    /// update is over and nothing is written.
    #[verifier::when_used_as_spec(spec_advance)]
    pub fn advance<E>(self, reply: Result<[u8; 1], E>) -> (next: Progress<RegisterWrite, (), E>)
        ensures
            next == self.spec_advance(reply),
    {
        match reply {
            Ok(current) => Progress::Next(
                RegisterWrite {
                    address: self.address,
                    register: self.register,
                    value: replace(current[0], self.mask, self.bits),
                },
            ),
            Err(error) => Progress::Done(Err(error)),
        }
    }
}

/// An update reads and writes the same register of the same device. Where
/// its new bits lie under its mask, the value that it writes holds them
/// there and holds the bits of the current value everywhere else.
pub proof fn update_replaces_its_field<E>(update: Update, current: [u8; 1])
    requires
        update.bits & !update.mask == 0,
    ensures
        update.request().address == update.address,
        update.request().register == update.register,
        update.advance::<E>(Ok(current)) matches Progress::Next(write) && {
            &&& write.address == update.address
            &&& write.register == update.register
            &&& write.value & update.mask == update.bits
            &&& write.value & !update.mask == current[0] & !update.mask
        },
{
    replace_bits_overwrites(current[0], update.mask, update.bits, update.bits);
}

/// Setting the XY performance mode alone writes control register 1 with the
/// new mode in its field and with the output data rate that was read.
pub proof fn xy_mode_update_keeps_data_rate<E>(address: u8, mode: AxisMode, current: [u8; 1])
    ensures
        Update::of_xy_mode(address, mode).request().register == CTRL_REG1,
        Update::of_xy_mode(address, mode).advance::<E>(Ok(current)) matches Progress::Next(write)
            && {
            &&& write.address == address
            &&& write.register == CTRL_REG1
            &&& xy_mode_field(write.value) == mode.bitcode()
            &&& data_rate_field(write.value) == data_rate_field(current[0])
            &&& write.value & !XY_MODE_MASK == current[0] & !XY_MODE_MASK
        },
{
    replacing_xy_mode_keeps_data_rate(current[0], mode);
}

/// Setting the output data rate alone writes control register 1 with the new
/// rate in its field and with the XY performance mode that was read.
pub proof fn data_rate_update_keeps_xy_mode<E>(
    address: u8,
    rate: OutputDataRate,
    current: [u8; 1],
)
    ensures
        Update::of_data_rate(address, rate).request().register == CTRL_REG1,
        Update::of_data_rate(address, rate).advance::<E>(Ok(current)) matches Progress::Next(write)
            && {
            &&& write.address == address
            &&& write.register == CTRL_REG1
            &&& data_rate_field(write.value) == rate.bitcode()
            &&& xy_mode_field(write.value) == xy_mode_field(current[0])
            &&& write.value & !DATA_RATE_MASK == current[0] & !DATA_RATE_MASK
        },
{
    replacing_data_rate_keeps_xy_mode(current[0], rate);
}

/// An update whose read fails writes nothing and ends with that failure.
pub proof fn update_passes_failure_on<E>(update: Update, error: E)
    ensures
        update.advance::<E>(Err(error)) == Progress::<RegisterWrite, (), E>::Done(Err(error)),
{
}

/// The steps of the default set-up, in the order in which they are taken.
#[derive(Clone, Copy, Debug, PartialEq, Eq)]
pub enum SetupStage {
    /// X and Y axes to high performance, at 10 Hz.
    XyModeAndDataRate,
    /// Z axis to high performance.
    ZMode,
    /// Continuous conversion.
    OperatingMode,
}

/// The default set-up of the sensor: high performance on all three axes, 10
/// Hz, continuous conversion. `stage` is the step whose write is due.
#[derive(Clone, Copy, Debug, PartialEq, Eq)]
pub struct Setup {
    pub address: u8,
    pub stage: SetupStage,
}

impl Setup {
    /// The write of the step that is due.
    pub open spec fn spec_request(self) -> RegisterWrite {
        match self.stage {
            SetupStage::XyModeAndDataRate => RegisterWrite {
                address: self.address,
                register: CTRL_REG1,
                value: xy_mode_and_data_rate_bits(
                    AxisMode::HighPerformance,
                    OutputDataRate::Hz10,
                ),
            },
            SetupStage::ZMode => RegisterWrite {
                address: self.address,
                register: CTRL_REG4,
                value: z_mode_bits(AxisMode::HighPerformance),
            },
            SetupStage::OperatingMode => RegisterWrite {
                address: self.address,
                register: CTRL_REG3,
                value: OperatingMode::ContinuousConversion.bitcode(),
            },
        }
    }

    /// What follows from the reply to the write of the step that is due.
    pub open spec fn spec_advance<E>(self, reply: Result<(), E>) -> Progress<Setup, (), E> {
        match reply {
            Err(error) => Progress::Done(Err(error)),
            Ok(_) => match self.stage {
                SetupStage::XyModeAndDataRate => Progress::Next(
                    Setup { address: self.address, stage: SetupStage::ZMode },
                ),
                SetupStage::ZMode => Progress::Next(
                    Setup { address: self.address, stage: SetupStage::OperatingMode },
                ),
                SetupStage::OperatingMode => Progress::Done(Ok(())),
            },
        }
    }

    /// The transaction to issue now.
    #[verifier::when_used_as_spec(spec_request)]
    pub fn request(self) -> (write: RegisterWrite)
        ensures
            write == self.spec_request(),
    {
        match self.stage {
            SetupStage::XyModeAndDataRate => RegisterWrite {
                address: self.address,
                register: CTRL_REG1,
                value: xy_mode_and_data_rate_value(
                    AxisMode::HighPerformance,
                    OutputDataRate::Hz10,
                ),
            },
            SetupStage::ZMode => RegisterWrite {
                address: self.address,
                register: CTRL_REG4,
                value: z_mode_value(AxisMode::HighPerformance),
            },
            SetupStage::OperatingMode => RegisterWrite {
                address: self.address,
                register: CTRL_REG3,
                value: OperatingMode::ContinuousConversion.to_bitcode(),
            },
        }
    }

    /// Takes the reply to the write. After a success the next step is due,
    /// or the set-up is done; after a failure the set-up is over and the
    /// steps that were left are not taken.
    #[verifier::when_used_as_spec(spec_advance)]
    pub fn advance<E>(self, reply: Result<(), E>) -> (next: Progress<Setup, (), E>)
        ensures
            next == self.spec_advance(reply),
    {
        match reply {
            Err(error) => Progress::Done(Err(error)),
            Ok(_) => match self.stage {
                SetupStage::XyModeAndDataRate => Progress::Next(
                    Setup { address: self.address, stage: SetupStage::ZMode },
                ),
                SetupStage::ZMode => Progress::Next(
                    Setup { address: self.address, stage: SetupStage::OperatingMode },
                ),
                SetupStage::OperatingMode => Progress::Done(Ok(())),
            },
        }
    }
}

/// The default set-up writes `0b0101_0000` to control register 1, then
/// `0b0000_1000` to control register 4, then `0` to control register 3, each
/// to the same device and each after the one before it has succeeded, and is
/// then done.
pub proof fn setup_writes_three_registers_in_order<E>(address: u8)
    ensures
        ({
            let first = Setup { address, stage: SetupStage::XyModeAndDataRate };
            let second = Setup { address, stage: SetupStage::ZMode };
            let third = Setup { address, stage: SetupStage::OperatingMode };
            &&& first.request() == (RegisterWrite {
                address,
                register: CTRL_REG1,
                value: 0b0101_0000,
            })
            &&& first.advance::<E>(Ok(())) == Progress::<Setup, (), E>::Next(second)
            &&& second.request() == (RegisterWrite {
                address,
                register: CTRL_REG4,
                value: 0b0000_1000,
            })
            &&& second.advance::<E>(Ok(())) == Progress::<Setup, (), E>::Next(third)
            &&& third.request() == (RegisterWrite { address, register: CTRL_REG3, value: 0 })
            &&& third.advance::<E>(Ok(())) == Progress::<Setup, (), E>::Done(Ok(()))
        }),
{
    default_values();
}

/// A write of the default set-up that fails ends the set-up with that
/// failure, at whatever step it is; the steps after it are not taken.
pub proof fn setup_stops_at_failure<E>(setup: Setup, error: E)
    ensures
        setup.advance::<E>(Err(error)) == Progress::<Setup, (), E>::Done(Err(error)),
{
}

/// A poll for a new sample, before the status of the sensor is known.
#[derive(Clone, Copy, Debug, PartialEq, Eq)]
pub struct Poll {
    pub address: u8,
}

/// A poll for a new sample, once the sensor has announced one: the six
/// output bytes are read in one burst that starts at `register`.
///
/// The sensor must be set to step its register pointer during a burst; the
/// driver does not check that it is.
#[derive(Clone, Copy, Debug, PartialEq, Eq)]
pub struct Burst {
    pub address: u8,
    pub register: u8,
}

impl Poll {
    /// The read of the status register.
    pub open spec fn spec_request(self) -> RegisterRead<1> {
        RegisterRead { address: self.address, register: STATUS_REG, buffer: [0] }
    }

    /// What follows from the reply to the read of the status register.
    pub open spec fn spec_advance<E>(self, reply: Result<[u8; 1], E>) -> Progress<
        Burst,
        Option<Measurement>,
        E,
    > {
        match reply {
            Err(error) => Progress::Done(Err(error)),
            Ok(status) => if data_ready(status[0]) {
                Progress::Next(Burst { address: self.address, register: OUT_X_L })
            } else {
                Progress::Done(Ok(None))
            },
        }
    }

    /// The transaction to issue first: a one-byte read of the status
    /// register.
    #[verifier::when_used_as_spec(spec_request)]
    pub fn request(self) -> (read: RegisterRead<1>)
        ensures
            read == self.spec_request(),
    {
        RegisterRead { address: self.address, register: STATUS_REG, buffer: [0] }
    }

    /// Takes the reply to the read of the status register. With the
    /// data-ready flag clear the poll is over, with no sample and no further
    /// transaction; the caller may poll again at once. With the flag set the
    /// burst read of the output registers is next.
    #[verifier::when_used_as_spec(spec_advance)]
    pub fn advance<E>(self, reply: Result<[u8; 1], E>) -> (next: Progress<
        Burst,
        Option<Measurement>,
        E,
    >)
        ensures
            next == self.spec_advance(reply),
    {
        match reply {
            Err(error) => Progress::Done(Err(error)),
            Ok(status) => if is_data_ready(status[0]) {
                Progress::Next(Burst { address: self.address, register: OUT_X_L })
            } else {
                Progress::Done(Ok(None))
            },
        }
    }
}

impl Burst {
    /// The burst read of six bytes.
    pub open spec fn spec_request(self) -> RegisterRead<6> {
        RegisterRead { address: self.address, register: self.register, buffer: [0, 0, 0, 0, 0, 0] }
    }

    /// What the poll ends with on the reply to the burst read: the sample
    /// that the six bytes stand for, or the failure of the bus.
    pub open spec fn spec_finish<E>(self, reply: Result<[u8; 6], E>) -> Result<
        Option<Measurement>,
        E,
    > {
        match reply {
            Ok(bytes) => Ok(Some(sample(bytes@))),
            Err(error) => Err(error),
        }
    }

    /// The transaction to issue: a six-byte read that starts at `register`.
    #[verifier::when_used_as_spec(spec_request)]
    pub fn request(self) -> (read: RegisterRead<6>)
        ensures
            read == self.spec_request(),
    {
        RegisterRead { address: self.address, register: self.register, buffer: [0, 0, 0, 0, 0, 0] }
    }

    /// Takes the reply to the burst read and ends the poll: with the sample
    /// decoded from the six bytes, or with the failure of the bus.
    #[verifier::when_used_as_spec(spec_finish)]
    pub fn finish<E>(self, reply: Result<[u8; 6], E>) -> (outcome: Result<Option<Measurement>, E>)
        ensures
            outcome == self.spec_finish(reply),
    {
        match reply {
            Ok(bytes) => Ok(Some(decode(&bytes))),
            Err(error) => Err(error),
        }
    }
}

/// The result of a poll on a bus that replies `status` to the read of the
/// status register and `output` to the burst read of the output registers: no
/// sample where the data-ready flag is clear, the decoded sample where it is
/// set, and the first failure of the bus.
pub open spec fn poll_result<E>(status: Result<[u8; 1], E>, output: Result<[u8; 6], E>) -> Result<
    Option<Measurement>,
    E,
> {
    match status {
        Err(error) => Err(error),
        Ok(flags) if !data_ready(flags[0]) => Ok(None),
        Ok(_) => match output {
            Err(error) => Err(error),
            Ok(bytes) => Ok(Some(sample(bytes@))),
        },
    }
}

/// A poll starts with a one-byte read of the status register and ends with
/// `poll_result`. It goes on to a second transaction only where the
/// data-ready flag is set, and that transaction is a read of six bytes from
/// the same device, starting at `OUT_X_L`.
pub proof fn poll_runs_to_its_result<E>(
    poll: Poll,
    status: Result<[u8; 1], E>,
    output: Result<[u8; 6], E>,
)
    ensures
        poll.request().address == poll.address,
        poll.request().register == STATUS_REG,
        match poll.advance(status) {
            Progress::Done(result) => {
                &&& result == poll_result(status, output)
                &&& !(status matches Ok(flags) && data_ready(flags[0]))
            },
            Progress::Next(burst) => {
                &&& status matches Ok(flags) && data_ready(flags[0])
                &&& burst.request().address == poll.address
                &&& burst.request().register == OUT_X_L
                &&& burst.request().count() == 6
                &&& burst.finish(output) == poll_result(status, output)
            },
        },
{
}

/// With the data-ready flag clear a poll ends at once, without a sample and
/// without a burst read, whatever the other bits of the status are.
pub proof fn poll_without_sample_issues_no_burst<E>(poll: Poll, status: [u8; 1])
    requires
        !data_ready(status[0]),
    ensures
        poll.advance::<E>(Ok(status)) == Progress::<Burst, Option<Measurement>, E>::Done(Ok(None)),
{
}

/// A poll whose read of the status register fails ends with that failure and
/// without a burst read; one whose burst read fails ends with that failure.
pub proof fn poll_passes_failure_on<E>(poll: Poll, burst: Burst, error: E)
    ensures
        poll.advance::<E>(Err(error)) == Progress::<Burst, Option<Measurement>, E>::Done(
            Err(error),
        ),
        burst.finish::<E>(Err(error)) == Err::<Option<Measurement>, E>(error),
{
}

} // verus!
