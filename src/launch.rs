use vstd::prelude::*;

use vstd::array::spec_array_fill_for_copy_type;

use crate::error::{dispatch_error, dispatch_error_of, DispatchFailure, SevError, SevResult};
use crate::region::{align_region, alignable, cover_of, AlignedRegion};

verus! {

/// Length of the launch measurement, in bytes.
pub const MEASUREMENT_LEN: usize = 48;

/// Guest-physical address at which the firmware image is loaded.
pub const FIRMWARE_ADDR: u64 = 0x100000;

/// Guest-physical address at which a kernel image is loaded.
pub const KERNEL_ADDR: u64 = 0x1000000;

/// Debugging of the guest is disallowed when set
pub const POLICY_NOBDG: u32 = 1;

/// Sharing keys with other guests is disallowed when set
pub const POLICY_NOKS: u32 = 1 << 1;

/// Encrypted CPU state (SEV-ES) is required when set
pub const POLICY_ES: u32 = 1 << 2;

/// Sending the guest to another platform is disallowed when set
pub const POLICY_NOSEND: u32 = 1 << 3;

/// The guest must not be transmitted to another platform that is not in the domain when set
pub const POLICY_DOMAIN: u32 = 1 << 4;

/// The guest must not be transmitted to another platform that is not SEV capable when set
pub const POLICY_SEV: u32 = 1 << 5;

/// Guest states
#[derive(Debug, Clone, Copy, PartialEq, Eq, Structural)]
pub enum State {
    /// The guest is uninitialized
    UnInit,
    /// The platform has been initialized
    Init,
    /// The guest is being launched and plaintext data and VMCB save areas are being imported
    LaunchUpdate,
    /// The guest is being launched and ciphertext data are being imported
    LaunchSecret,
    /// The guest is fully launched or migrated in, and not being migrated out
    Running,
    /// The guest is being migrated out to another machine
    SendUpdate,
    /// The guest is being migrated from another machine
    RecieveUpdate,
    /// The guest has been sent to another machine
    Sent,
}

/// A platform command, with the payload that it hands to the platform.
///
/// Fields that the platform fills in (the guest handle of `LaunchStart`, the
/// digest of `LaunchMeasure`) are written back into the command by whoever
/// submits it, before the outcome is handed to [`Sev::complete`].
#[derive(Debug)]
pub enum Command {
    /// Initialize the platform for an SNP guest
    SnpInit,
    /// Initialize the platform for a guest with plain memory encryption
    Init,
    /// Initialize the platform for a guest with encrypted CPU state
    EsInit,
    /// Create the guest's encryption context
    LaunchStart {
        policy: u32,
        handle: u32,
        dh_cert: Option<Vec<u8>>,
        session: Option<Vec<u8>>,
    },
    /// Encrypt the virtual CPU save areas
    LaunchUpdateVmsa,
    /// Encrypt a region of guest memory in place
    LaunchUpdateData { region: AlignedRegion },
    /// Retrieve the launch measurement
    LaunchMeasure { measure: [u8; 48] },
    /// Complete the launch
    LaunchFinish { handle: u32 },
}

/// The state that a command must find.
pub open spec fn required_state(c: Command) -> State {
    match c {
        Command::SnpInit | Command::Init | Command::EsInit => State::UnInit,
        Command::LaunchStart { .. } => State::Init,
        Command::LaunchUpdateVmsa | Command::LaunchUpdateData { .. } | Command::LaunchMeasure {
            ..
        } => State::LaunchUpdate,
        Command::LaunchFinish { .. } => State::LaunchSecret,
    }
}

/// The state that a command leaves after it succeeds.
pub open spec fn state_after(c: Command) -> State {
    match c {
        Command::SnpInit | Command::Init | Command::EsInit => State::Init,
        Command::LaunchStart { .. } | Command::LaunchUpdateVmsa | Command::LaunchUpdateData {
            ..
        } => State::LaunchUpdate,
        Command::LaunchMeasure { .. } => State::LaunchSecret,
        Command::LaunchFinish { .. } => State::Running,
    }
}

/// What a guest launch context holds, as plain values.
pub struct SevModel {
    pub handle: u32,
    pub policy: u32,
    pub state: State,
    pub measure: Seq<u8>,
    pub snp: bool,
    pub cbitpos: u32,
    pub encryption: bool,
    pub es: bool,
}

/// No guest handle has been assigned in this state.
pub open spec fn before_launch_start(s: State) -> bool {
    s == State::UnInit || s == State::Init
}

/// No measurement has been retrieved in this state.
pub open spec fn before_measurement(s: State) -> bool {
    before_launch_start(s) || s == State::LaunchUpdate
}

/// The context's invariant.
pub open spec fn model_wf(m: SevModel) -> bool {
    &&& m.measure.len() == 48
    &&& before_launch_start(m.state) ==> m.handle == 0
    &&& before_measurement(m.state) ==> forall|i: int| 0 <= i < 48 ==> m.measure[i] == 0u8
    &&& m.es == (m.policy & POLICY_ES != 0)
    &&& m.cbitpos < 64
}

/// What an operation that issues `c` from state `required` decides: nothing
/// to do while encryption is off, the sequencing error outside that state,
/// the command otherwise.
pub open spec fn gate(m: SevModel, required: State, c: Command) -> SevResult<Option<Command>> {
    if !m.encryption {
        Ok(None)
    } else if m.state != required {
        Err(SevError::InvalidPlatformState)
    } else {
        Ok(Some(c))
    }
}

/// Whether `c`, submitted with this outcome, moves the context on.
pub open spec fn takes_effect(
    m: SevModel,
    c: Command,
    outcome: Result<(), DispatchFailure>,
) -> bool {
    m.encryption && m.state == required_state(c) && outcome is Ok
}

/// What completing `c` with this outcome returns.
pub open spec fn completion(
    m: SevModel,
    c: Command,
    outcome: Result<(), DispatchFailure>,
) -> SevResult<()> {
    if !m.encryption {
        Ok(())
    } else if m.state != required_state(c) {
        Err(SevError::InvalidPlatformState)
    } else {
        match outcome {
            Ok(_) => Ok(()),
            Err(f) => Err(dispatch_error_of(f)),
        }
    }
}

/// The context after `c` completed with this outcome.
pub open spec fn advance(m: SevModel, c: Command, outcome: Result<(), DispatchFailure>) -> SevModel {
    if takes_effect(m, c, outcome) {
        SevModel {
            state: state_after(c),
            handle: match c {
                Command::LaunchStart { handle, .. } => handle,
                _ => m.handle,
            },
            measure: match c {
                Command::LaunchMeasure { measure } => measure@,
                _ => m.measure,
            },
            ..m
        }
    } else {
        m
    }
}

/// What a data-encryption request of the `len` bytes at `addr` decides.
pub open spec fn data_decision(m: SevModel, addr: int, len: int) -> SevResult<Option<Command>> {
    if !m.encryption {
        Ok(None)
    } else if m.state != State::LaunchUpdate {
        Err(SevError::InvalidPlatformState)
    } else if !alignable(addr, len) {
        Err(SevError::InvalidLength)
    } else {
        Ok(Some(Command::LaunchUpdateData { region: cover_of(addr, len) }))
    }
}

/// A guest launch context: the launch state, the guest handle and the launch
/// measurement, and the mode flags fixed at construction.
///
/// Each launch operation decides, from the context alone, whether a platform
/// command is due and which; the caller submits it and hands the outcome to
/// [`Sev::complete`], which moves the context on.
pub struct Sev {
    handle: u32,
    policy: u32,
    state: State,
    measure: [u8; 48],
    snp: bool,
    cbitpos: u32,
    encryption: bool,
    es: bool,
}

impl View for Sev {
    type V = SevModel;

    closed spec fn view(&self) -> SevModel {
        SevModel {
            handle: self.handle,
            policy: self.policy,
            state: self.state,
            measure: self.measure@,
            snp: self.snp,
            cbitpos: self.cbitpos,
            encryption: self.encryption,
            es: self.es,
        }
    }
}

impl Sev {
    /// The context's invariant holds.
    pub open spec fn wf(&self) -> bool {
        model_wf(self@)
    }

    /// A context for a new guest. `cpuid_ebx` is the EBX register of CPUID
    /// leaf `0x8000001F`, whose bits 0 to 5 give the position of the C-bit.
    pub fn new(snp: bool, encryption: bool, policy: u32, cpuid_ebx: u32) -> (r: Sev)
        ensures
            r.wf(),
            r@.state == State::UnInit,
            r@.handle == 0,
            r@.policy == policy,
            r@.snp == snp,
            r@.encryption == encryption,
            r@.es == (policy & POLICY_ES != 0),
            r@.cbitpos == cpuid_ebx & 0x3f,
            forall|i: int| 0 <= i < 48 ==> r@.measure[i] == 0u8,
    {
        let cbitpos = cpuid_ebx & 0x3f;
        assert(cbitpos < 64) by (bit_vector)
            requires
                cbitpos == cpuid_ebx & 0x3f,
        ;
        Sev {
            handle: 0,
            policy,
            state: State::UnInit,
            measure: [0u8; 48],
            snp,
            cbitpos,
            encryption,
            es: policy & POLICY_ES != 0,
        }
    }

    /// Decides an operation that issues `c` from state `required`.
    fn gated(&self, required: State, c: Command) -> (r: SevResult<Option<Command>>)
        ensures
            r == gate(self@, required, c),
    {
        if !self.encryption {
            Ok(None)
        } else if self.state != required {
            Err(SevError::InvalidPlatformState)
        } else {
            Ok(Some(c))
        }
    }

    /// Platform initialization for an SNP guest: the command to submit from
    /// `UnInit`.
    pub fn snp_init(&self) -> (r: SevResult<Option<Command>>)
        ensures
            r == gate(self@, State::UnInit, Command::SnpInit),
    {
        self.gated(State::UnInit, Command::SnpInit)
    }

    /// Platform initialization: from `UnInit`, the command that initializes
    /// for encrypted CPU state where the policy requires it, the plain one
    /// otherwise.
    pub fn sev_init(&self) -> (r: SevResult<Option<Command>>)
        ensures
            r == gate(
                self@,
                State::UnInit,
                if self@.es {
                    Command::EsInit
                } else {
                    Command::Init
                },
            ),
    {
        let c = if self.es {
            Command::EsInit
        } else {
            Command::Init
        };
        self.gated(State::UnInit, c)
    }

    /// SNP launch start; no command is defined for it yet.
    fn snp_launch_start(&mut self) -> (r: SevResult<()>)
        ensures
            r == Ok::<(), SevError>(()),
            *final(self) == *old(self),
    {
        Ok(())
    }

    /// Launch start: from `Init`, the command that creates the guest's
    /// encryption context under the guest policy, with the guest owner's
    /// Diffie-Hellman certificate and session blobs where given. A blob whose
    /// length does not fit the platform's 32-bit length field is refused with
    /// `InvalidLength`.
    pub fn sev_launch_start(
        &self,
        session: Option<Vec<u8>>,
        dh_cert: Option<Vec<u8>>,
    ) -> (r: SevResult<Option<Command>>)
        ensures
            ({
                let c = Command::LaunchStart {
                    policy: self@.policy,
                    handle: 0,
                    dh_cert,
                    session,
                };
                let too_long = (session matches Some(b) && b@.len() > u32::MAX) || (
                dh_cert matches Some(b) && b@.len() > u32::MAX);
                if self@.encryption && self@.state == State::Init && too_long {
                    r == Err::<Option<Command>, SevError>(SevError::InvalidLength)
                } else {
                    r == gate(self@, State::Init, c)
                }
            }),
    {
        if self.encryption && self.state == State::Init {
            let session_too_long = match &session {
                Some(b) => b.len() > u32::MAX as usize,
                None => false,
            };
            let dh_too_long = match &dh_cert {
                Some(b) => b.len() > u32::MAX as usize,
                None => false,
            };
            if session_too_long || dh_too_long {
                return Err(SevError::InvalidLength);
            }
        }
        self.gated(
            State::Init,
            Command::LaunchStart { policy: self.policy, handle: 0, dh_cert, session },
        )
    }

    /// Save-area encryption: nothing to do unless the policy requires
    /// encrypted CPU state; then the command to submit from `LaunchUpdate`.
    pub fn launch_update_vmsa(&self) -> (r: SevResult<Option<Command>>)
        ensures
            !self@.es ==> r == Ok::<Option<Command>, SevError>(None),
            self@.es ==> r == gate(self@, State::LaunchUpdate, Command::LaunchUpdateVmsa),
    {
        if !self.es {
            return Ok(None);
        }
        self.gated(State::LaunchUpdate, Command::LaunchUpdateVmsa)
    }

    /// Data encryption of the `len` bytes at host address `host_addr`: from
    /// `LaunchUpdate`, the command that encrypts their whole-block cover. A
    /// range that no region of the platform's 32-bit length field can cover
    /// is refused with `InvalidLength`.
    pub fn launch_update_data(&self, host_addr: u64, len: u32) -> (r: SevResult<Option<Command>>)
        ensures
            r == data_decision(self@, host_addr as int, len as int),
    {
        if !self.encryption {
            return Ok(None);
        }
        if self.state != State::LaunchUpdate {
            return Err(SevError::InvalidPlatformState);
        }
        match align_region(host_addr, len) {
            None => Err(SevError::InvalidLength),
            Some(region) => Ok(Some(Command::LaunchUpdateData { region })),
        }
    }

    /// Measurement retrieval: from `LaunchUpdate`, the command that asks for
    /// the measurement, with a zeroed buffer for the platform to fill.
    pub fn get_launch_measurement(&self) -> (r: SevResult<Option<Command>>)
        ensures
            r == gate(
                self@,
                State::LaunchUpdate,
                Command::LaunchMeasure { measure: spec_array_fill_for_copy_type::<u8, 48>(0u8) },
            ),
    {
        self.gated(State::LaunchUpdate, Command::LaunchMeasure { measure: [0u8; 48] })
    }

    /// Launch finish: from `LaunchSecret`, the command that completes the
    /// launch of the guest with this context's handle.
    pub fn sev_launch_finish(&self) -> (r: SevResult<Option<Command>>)
        ensures
            r == gate(self@, State::LaunchSecret, Command::LaunchFinish { handle: self@.handle }),
    {
        self.gated(State::LaunchSecret, Command::LaunchFinish { handle: self.handle })
    }

    /// Firmware pre-encryption, once an image of `image_len` bytes has been
    /// copied to [`FIRMWARE_ADDR`], which sits at host address `host_addr`:
    /// the data-encryption command over exactly the image's bytes. An image
    /// longer than the platform's 32-bit length field is refused with
    /// `InvalidLength`.
    pub fn load_firmware(&self, host_addr: u64, image_len: u64) -> (r: SevResult<Option<Command>>)
        ensures
            r == data_decision(self@, host_addr as int, image_len as int),
    {
        if image_len <= u32::MAX as u64 {
            self.launch_update_data(host_addr, image_len as u32)
        } else if !self.encryption {
            Ok(None)
        } else if self.state != State::LaunchUpdate {
            Err(SevError::InvalidPlatformState)
        } else {
            Err(SevError::InvalidLength)
        }
    }

    /// Records the outcome of submitting `cmd`, one of the commands that the
    /// operations above hand out, with the fields that the platform fills in
    /// written back. Nothing changes while encryption is off, outside the
    /// state that `cmd` requires, or when the submission failed; otherwise
    /// the context moves to the state after `cmd`, taking the guest handle
    /// that launch start assigned or the measurement that was retrieved.
    pub fn complete(&mut self, cmd: Command, outcome: Result<(), DispatchFailure>) -> (r: SevResult<()>)
        requires
            old(self).wf(),
        ensures
            final(self).wf(),
            final(self)@ == advance(old(self)@, cmd, outcome),
            r == completion(old(self)@, cmd, outcome),
    {
        if !self.encryption {
            return Ok(());
        }
        let required = match &cmd {
            Command::SnpInit | Command::Init | Command::EsInit => State::UnInit,
            Command::LaunchStart { .. } => State::Init,
            Command::LaunchUpdateVmsa | Command::LaunchUpdateData { .. } | Command::LaunchMeasure {
                ..
            } => State::LaunchUpdate,
            Command::LaunchFinish { .. } => State::LaunchSecret,
        };
        if self.state != required {
            return Err(SevError::InvalidPlatformState);
        }
        if let Err(f) = outcome {
            return Err(dispatch_error(f));
        }
        match cmd {
            Command::SnpInit => {
                self.state = State::Init;
                return self.snp_launch_start();
            },
            Command::Init | Command::EsInit => {
                self.state = State::Init;
            },
            Command::LaunchStart { handle, .. } => {
                self.handle = handle;
                self.state = State::LaunchUpdate;
            },
            Command::LaunchUpdateVmsa | Command::LaunchUpdateData { .. } => {},
            Command::LaunchMeasure { measure } => {
                self.measure = measure;
                self.state = State::LaunchSecret;
            },
            Command::LaunchFinish { .. } => {
                self.state = State::Running;
            },
        }
        Ok(())
    }

    /// The guest handle that the platform assigned; `0` before launch start.
    pub fn handle(&self) -> (r: u32)
        ensures
            r == self@.handle,
    {
        self.handle
    }

    /// The guest policy bitmask.
    pub fn policy(&self) -> (r: u32)
        ensures
            r == self@.policy,
    {
        self.policy
    }

    /// The launch state.
    pub fn state(&self) -> (r: State)
        ensures
            r == self@.state,
    {
        self.state
    }

    /// The launch measurement; all zero until it has been retrieved.
    pub fn measurement(&self) -> (r: [u8; 48])
        ensures
            r@ == self@.measure,
    {
        self.measure
    }

    /// Whether the guest is an SNP guest.
    pub fn snp(&self) -> (r: bool)
        ensures
            r == self@.snp,
    {
        self.snp
    }

    /// Position of the C-bit in guest physical addresses.
    pub fn cbitpos(&self) -> (r: u32)
        ensures
            r == self@.cbitpos,
    {
        self.cbitpos
    }

    /// Whether memory encryption is on; with it off every operation is a
    /// no-op that succeeds.
    pub fn encryption(&self) -> (r: bool)
        ensures
            r == self@.encryption,
    {
        self.encryption
    }

    /// Whether the guest policy requires encrypted CPU state.
    pub fn es(&self) -> (r: bool)
        ensures
            r == self@.es,
    {
        self.es
    }
}

/// With encryption off, every operation decides that there is nothing to
/// submit, and completing any command succeeds and leaves the context as it
/// was, whatever its state.
pub proof fn encryption_off_is_total_bypass(
    m: SevModel,
    required: State,
    c: Command,
    outcome: Result<(), DispatchFailure>,
    addr: int,
    len: int,
)
    requires
        !m.encryption,
    ensures
        gate(m, required, c) == Ok::<Option<Command>, SevError>(None),
        data_decision(m, addr, len) == Ok::<Option<Command>, SevError>(None),
        completion(m, c, outcome) == Ok::<(), SevError>(()),
        advance(m, c, outcome) == m,
{
}

/// A command outside the state it requires fails with the sequencing error
/// and changes nothing; in particular data encryption before initialization.
pub proof fn out_of_order_command_is_refused(
    m: SevModel,
    c: Command,
    outcome: Result<(), DispatchFailure>,
    addr: int,
    len: int,
)
    requires
        m.encryption,
    ensures
        m.state != required_state(c) ==> completion(m, c, outcome) == Err::<(), SevError>(
            SevError::InvalidPlatformState,
        ) && advance(m, c, outcome) == m,
        m.state != required_state(c) ==> gate(m, required_state(c), c) == Err::<
            Option<Command>,
            SevError,
        >(SevError::InvalidPlatformState),
        m.state == State::UnInit ==> data_decision(m, addr, len) == Err::<
            Option<Command>,
            SevError,
        >(SevError::InvalidPlatformState),
{
}

/// The nominal launch, each command succeeding in turn, passes through
/// `Init`, `LaunchUpdate`, `LaunchSecret` and `Running`, in this order; data
/// and save-area encryption on the way leave `LaunchUpdate` as it is.
pub proof fn nominal_launch_sequence(
    m0: SevModel,
    init: Command,
    start: Command,
    update: Command,
    measure: Command,
    finish: Command,
)
    requires
        m0.encryption,
        m0.state == State::UnInit,
        init is SnpInit || init is Init || init is EsInit,
        start is LaunchStart,
        update is LaunchUpdateData || update is LaunchUpdateVmsa,
        measure is LaunchMeasure,
        finish is LaunchFinish,
    ensures
        ({
            let ok = Ok::<(), DispatchFailure>(());
            let m1 = advance(m0, init, ok);
            let m2 = advance(m1, start, ok);
            let m2u = advance(m2, update, ok);
            let m3 = advance(m2u, measure, ok);
            let m4 = advance(m3, finish, ok);
            &&& completion(m0, init, ok) is Ok && m1.state == State::Init
            &&& completion(m1, start, ok) is Ok && m2.state == State::LaunchUpdate
            &&& completion(m2, update, ok) is Ok && m2u.state == State::LaunchUpdate
            &&& completion(m2u, measure, ok) is Ok && m3.state == State::LaunchSecret
            &&& completion(m3, finish, ok) is Ok && m4.state == State::Running
        }),
{
}

/// The guest handle is `0` before launch start succeeds, is the value that
/// the platform assigned right after, and no later completion changes it.
pub proof fn guest_handle_is_write_once(
    m: SevModel,
    c: Command,
    outcome: Result<(), DispatchFailure>,
)
    requires
        model_wf(m),
    ensures
        before_launch_start(m.state) ==> m.handle == 0,
        takes_effect(m, c, outcome) ==> (c matches Command::LaunchStart { handle, .. } ==> advance(
            m,
            c,
            outcome,
        ).handle == handle),
        !before_launch_start(m.state) ==> advance(m, c, outcome).handle == m.handle,
        model_wf(advance(m, c, outcome)),
{
}

/// The measurement is always 48 bytes, all zero until its retrieval
/// succeeds, and a failed retrieval leaves it as it was.
pub proof fn measurement_is_whole(m: SevModel, c: Command, f: DispatchFailure)
    requires
        model_wf(m),
    ensures
        m.measure.len() == MEASUREMENT_LEN,
        before_measurement(m.state) ==> forall|i: int| 0 <= i < 48 ==> m.measure[i] == 0u8,
        advance(m, c, Err(f)).measure == m.measure,
        advance(m, c, Err(f)).measure.len() == MEASUREMENT_LEN,
{
}

/// The data encryption that firmware loading asks for is one command whose
/// region is block aligned and covers every byte of the image.
pub proof fn firmware_region_covers_image(m: SevModel, host_addr: int, image_len: int)
    requires
        0 <= host_addr,
        0 <= image_len,
        m.encryption,
        m.state == State::LaunchUpdate,
        alignable(host_addr, image_len),
    ensures
        data_decision(m, host_addr, image_len) matches Ok(
            Some(Command::LaunchUpdateData { region }),
        ) && region.addr % 16 == 0 && region.len % 16 == 0 && region.addr <= host_addr
            && host_addr + image_len <= region.addr + region.len,
{
}

} // verus!
