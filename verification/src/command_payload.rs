use vstd::prelude::*;

use crate::control_ack_mode::{bit_is_set, ControlAckMode, EXECUTION_BIT, STATE_BIT, VALIDATION_BIT};
use crate::error::VitaError;

verus! {

/// A word count as the 16-bit size fields carry it: modulo 2^16.
fn size_words_of(n: usize) -> (r: u16)
    ensures
        r as int == n % 0x10000,
{
    let r: u16 = #[verifier::truncate] (n as u16);
    assert(r == n % 0x10000) by (bit_vector)
        requires
            r == #[verifier::truncate] (n as u16),
    ;
    r
}

/// Payload of a control packet, held as the 32-bit words that encode its fields.
#[derive(Clone, Debug, PartialEq, Eq, PartialOrd, Ord, Hash)]
pub struct Control {
    words: Vec<u32>,
}

impl View for Control {
    type V = Seq<u32>;

    closed spec fn view(&self) -> Seq<u32> {
        self.words@
    }
}

impl Default for Control {
    fn default() -> (r: Control)
        ensures
            r@ == Seq::<u32>::empty(),
    {
        Control { words: Vec::new() }
    }
}

impl Control {
    /// The payload held by `words`.
    pub fn from_words(words: Vec<u32>) -> (r: Control)
        ensures
            r@ == words@,
    {
        Control { words }
    }

    /// The 32-bit words of this payload.
    pub fn words(&self) -> (r: &[u32])
        ensures
            r@ == self@,
    {
        self.words.as_slice()
    }

    /// Gets the size of this payload in 32-bit words, kept modulo 2^16.
    pub fn size_words(&self) -> (r: u16)
        ensures
            r as int == self@.len() % 0x10000,
    {
        size_words_of(self.words.len())
    }
}

/// Payload of a cancellation packet, held as the 32-bit words that encode its fields.
#[derive(Clone, Debug, PartialEq, Eq, PartialOrd, Ord, Hash)]
pub struct Cancellation {
    words: Vec<u32>,
}

impl View for Cancellation {
    type V = Seq<u32>;

    closed spec fn view(&self) -> Seq<u32> {
        self.words@
    }
}

impl Default for Cancellation {
    fn default() -> (r: Cancellation)
        ensures
            r@ == Seq::<u32>::empty(),
    {
        Cancellation { words: Vec::new() }
    }
}

impl Cancellation {
    /// The payload held by `words`.
    pub fn from_words(words: Vec<u32>) -> (r: Cancellation)
        ensures
            r@ == words@,
    {
        Cancellation { words }
    }

    /// The 32-bit words of this payload.
    pub fn words(&self) -> (r: &[u32])
        ensures
            r@ == self@,
    {
        self.words.as_slice()
    }

    /// Gets the size of this payload in 32-bit words, kept modulo 2^16.
    pub fn size_words(&self) -> (r: u16)
        ensures
            r as int == self@.len() % 0x10000,
    {
        size_words_of(self.words.len())
    }
}

/// Payload of a validation or execution ACK packet, held as the 32-bit words
/// that encode its fields.
#[derive(Clone, Debug, PartialEq, Eq, PartialOrd, Ord, Hash)]
pub struct Ack {
    words: Vec<u32>,
}

impl View for Ack {
    type V = Seq<u32>;

    closed spec fn view(&self) -> Seq<u32> {
        self.words@
    }
}

impl Default for Ack {
    fn default() -> (r: Ack)
        ensures
            r@ == Seq::<u32>::empty(),
    {
        Ack { words: Vec::new() }
    }
}

impl Ack {
    /// The payload held by `words`.
    pub fn from_words(words: Vec<u32>) -> (r: Ack)
        ensures
            r@ == words@,
    {
        Ack { words }
    }

    /// The 32-bit words of this payload.
    pub fn words(&self) -> (r: &[u32])
        ensures
            r@ == self@,
    {
        self.words.as_slice()
    }

    /// Gets the size of this payload in 32-bit words, kept modulo 2^16.
    pub fn size_words(&self) -> (r: u16)
        ensures
            r as int == self@.len() % 0x10000,
    {
        size_words_of(self.words.len())
    }
}

/// Payload of a query ACK packet, held as the 32-bit words that encode its fields.
#[derive(Clone, Debug, PartialEq, Eq, PartialOrd, Ord, Hash)]
pub struct QueryAck {
    words: Vec<u32>,
}

impl View for QueryAck {
    type V = Seq<u32>;

    closed spec fn view(&self) -> Seq<u32> {
        self.words@
    }
}

impl Default for QueryAck {
    fn default() -> (r: QueryAck)
        ensures
            r@ == Seq::<u32>::empty(),
    {
        QueryAck { words: Vec::new() }
    }
}

impl QueryAck {
    /// The payload held by `words`.
    pub fn from_words(words: Vec<u32>) -> (r: QueryAck)
        ensures
            r@ == words@,
    {
        QueryAck { words }
    }

    /// The 32-bit words of this payload.
    pub fn words(&self) -> (r: &[u32])
        ensures
            r@ == self@,
    {
        self.words.as_slice()
    }

    /// Gets the size of this payload in 32-bit words, kept modulo 2^16.
    pub fn size_words(&self) -> (r: u16)
        ensures
            r as int == self@.len() % 0x10000,
    {
        size_words_of(self.words.len())
    }
}

/// Command payload enumeration. Command payloads take several forms depending
/// on the packet header and the control/acknowledge mode (CAM) field:
/// control and cancellation packets, and the three kinds of ACK packet
/// (validation, execution, and query state).
#[derive(Clone, Debug, PartialEq, Eq, PartialOrd, Ord, Hash)]
pub enum CommandPayload {
    /// Payload for a control packet.
    Control(Control),
    /// Payload for a cancellation packet.
    Cancellation(Cancellation),
    /// Payload for a validation ACK packet.
    ValidationAck(Ack),
    /// Payload for an execution ACK packet.
    ExecAck(Ack),
    /// Payload for a query ACK packet.
    QueryAck(QueryAck),
}

/// Why no command payload kind could be chosen for a packet.
#[derive(Clone, Debug, PartialEq, Eq)]
pub enum PayloadTypeError<E> {
    /// The packet header could not say whether the packet is an ACK or a
    /// cancellation (for instance because it is not a command packet).
    Header(E),
    /// An ACK packet's CAM field selects this many of validation, execution,
    /// and query state, where exactly one is required.
    AckSelection {
        /// Number of the three kinds that the CAM field selects.
        selected: u8,
    },
}

/// How many of validation, execution, and query state a CAM word selects.
pub open spec fn ack_selection_count(word: u32) -> nat {
    (if bit_is_set(word, VALIDATION_BIT) { 1nat } else { 0nat }) + (if bit_is_set(
        word,
        EXECUTION_BIT,
    ) {
        1nat
    } else {
        0nat
    }) + (if bit_is_set(word, STATE_BIT) { 1nat } else { 0nat })
}

/// The words that a command payload holds, whatever its kind.
pub open spec fn payload_words(p: CommandPayload) -> Seq<u32> {
    match p {
        CommandPayload::Control(c) => c@,
        CommandPayload::Cancellation(c) => c@,
        CommandPayload::ValidationAck(a) => a@,
        CommandPayload::ExecAck(a) => a@,
        CommandPayload::QueryAck(q) => q@,
    }
}

/// The five kinds of command payload.
#[derive(Clone, Copy, Debug, PartialEq, Eq, Structural)]
pub enum CommandKind {
    /// Control packet.
    Control,
    /// Cancellation packet.
    Cancellation,
    /// Validation ACK packet.
    ValidationAck,
    /// Execution ACK packet.
    ExecAck,
    /// Query ACK packet.
    QueryAck,
}

/// The kind of a command payload.
pub open spec fn kind_of(p: CommandPayload) -> CommandKind {
    match p {
        CommandPayload::Control(_) => CommandKind::Control,
        CommandPayload::Cancellation(_) => CommandKind::Cancellation,
        CommandPayload::ValidationAck(_) => CommandKind::ValidationAck,
        CommandPayload::ExecAck(_) => CommandKind::ExecAck,
        CommandPayload::QueryAck(_) => CommandKind::QueryAck,
    }
}

/// The payload kind that a packet with CAM word `word` calls for, given the
/// header's answers to "is it an ACK packet?" and "is it a cancellation
/// packet?". An ACK packet must select exactly one of validation, execution,
/// and query state; the cancellation question is asked only of non-ACK packets.
pub open spec fn derived_kind<E>(
    word: u32,
    is_ack: Result<bool, E>,
    is_cancellation: Result<bool, E>,
) -> Result<CommandKind, PayloadTypeError<E>> {
    match is_ack {
        Err(e) => Err(PayloadTypeError::Header(e)),
        Ok(true) => if ack_selection_count(word) != 1 {
            Err(PayloadTypeError::AckSelection { selected: ack_selection_count(word) as u8 })
        } else if bit_is_set(word, VALIDATION_BIT) {
            Ok(CommandKind::ValidationAck)
        } else if bit_is_set(word, EXECUTION_BIT) {
            Ok(CommandKind::ExecAck)
        } else {
            Ok(CommandKind::QueryAck)
        },
        Ok(false) => match is_cancellation {
            Err(e) => Err(PayloadTypeError::Header(e)),
            Ok(true) => Ok(CommandKind::Cancellation),
            Ok(false) => Ok(CommandKind::Control),
        },
    }
}

/// An ACK packet gets a payload exactly when its CAM word selects one of
/// validation, execution, and query state, and the payload is of the kind
/// selected; a non-ACK packet never gets an ACK payload.
pub proof fn lemma_ack_kind_follows_cam<E>(word: u32, is_cancellation: Result<bool, E>)
    ensures
        derived_kind(word, Ok::<bool, E>(true), is_cancellation) is Ok <==> ack_selection_count(word) == 1,
        ack_selection_count(word) == 1 ==> derived_kind(word, Ok::<bool, E>(true), is_cancellation) == (
        if bit_is_set(word, VALIDATION_BIT) {
            Ok::<CommandKind, PayloadTypeError<E>>(CommandKind::ValidationAck)
        } else if bit_is_set(word, EXECUTION_BIT) {
            Ok(CommandKind::ExecAck)
        } else {
            Ok(CommandKind::QueryAck)
        }),
        match derived_kind(word, Ok::<bool, E>(false), is_cancellation) {
            Ok(k) => k == CommandKind::Control || k == CommandKind::Cancellation,
            Err(e) => e is Header,
        },
{
}

/// Setting the execution bit of a CAM word that already selects validation
/// makes the word ambiguous for an ACK packet: no payload kind is chosen.
pub proof fn lemma_second_ack_selection_rejected<E>(word: u32, is_cancellation: Result<bool, E>)
    requires
        bit_is_set(word, VALIDATION_BIT),
    ensures
        derived_kind(word | (1u32 << EXECUTION_BIT), Ok::<bool, E>(true), is_cancellation) is Err,
{
    let w = word | (1u32 << EXECUTION_BIT);
    assert(bit_is_set(w, VALIDATION_BIT) && bit_is_set(w, EXECUTION_BIT)) by (bit_vector)
        requires
            word & (1u32 << 20u32) != 0,
            w == word | (1u32 << 19u32),
    ;
}

impl CommandPayload {
    /// Determine the type of command payload from the CAM field and the
    /// packet header's answers to "is it an ACK packet?" and "is it a
    /// cancellation packet?". The chosen payload is empty.
    ///
    /// # Errors
    /// An error is returned when the header cannot answer (the packet is not a
    /// command packet), or when an ACK packet's CAM field does not select
    /// exactly one of validation, execution, or query state.
    pub fn derive_type<E>(
        cam: &ControlAckMode,
        is_ack: Result<bool, E>,
        is_cancellation: Result<bool, E>,
    ) -> (r: Result<CommandPayload, PayloadTypeError<E>>)
        ensures
            match derived_kind(cam@, is_ack, is_cancellation) {
                Ok(k) => r matches Ok(p) && kind_of(p) == k && payload_words(p) == Seq::<u32>::empty(),
                Err(e) => r == Err::<CommandPayload, PayloadTypeError<E>>(e),
            },
    {
        match is_ack {
            Err(e) => Err(PayloadTypeError::Header(e)),
            Ok(true) => {
                let v = cam.validation();
                let x = cam.execution();
                let q = cam.state();
                let selected: u8 = (if v { 1u8 } else { 0u8 }) + (if x { 1u8 } else { 0u8 }) + (if q { 1u8 } else { 0u8 });
                if selected != 1 {
                    return Err(PayloadTypeError::AckSelection { selected });
                }
                if v {
                    Ok(CommandPayload::ValidationAck(Ack::default()))
                } else if x {
                    Ok(CommandPayload::ExecAck(Ack::default()))
                } else {
                    Ok(CommandPayload::QueryAck(QueryAck::default()))
                }
            },
            Ok(false) => match is_cancellation {
                Err(e) => Err(PayloadTypeError::Header(e)),
                Ok(true) => Ok(CommandPayload::Cancellation(Cancellation::default())),
                Ok(false) => Ok(CommandPayload::Control(Control::default())),
            },
        }
    }

    /// Get the size of the command payload (in 32-bit words), kept modulo 2^16.
    pub fn size_words(&self) -> (r: u16)
        ensures
            r as int == payload_words(*self).len() % 0x10000,
    {
        match self {
            CommandPayload::Control(p) => p.size_words(),
            CommandPayload::Cancellation(p) => p.size_words(),
            CommandPayload::ValidationAck(p) => p.size_words(),
            CommandPayload::ExecAck(p) => p.size_words(),
            CommandPayload::QueryAck(p) => p.size_words(),
        }
    }

    /// Gets a reference to the control payload.
    ///
    /// # Errors
    /// Returns `VitaError::ControlOnly` when run on any other kind of payload.
    pub fn control(&self) -> (r: Result<&Control, VitaError>)
        ensures
            (r is Ok) == (*self is Control),
            r matches Ok(p) ==> *p == self->Control_0,
            r is Err ==> r == Err::<&Control, VitaError>(VitaError::ControlOnly),
    {
        match self {
            CommandPayload::Control(p) => Ok(p),
            _ => Err(VitaError::ControlOnly),
        }
    }

    /// Gets a mutable reference to the control payload.
    ///
    /// # Errors
    /// Returns `VitaError::ControlOnly` when run on any other kind of payload,
    /// which is then left as it was.
    pub fn control_mut(&mut self) -> (r: Result<&mut Control, VitaError>)
        ensures
            (r is Ok) == (*old(self) is Control),
            r is Ok ==> *r.unwrap() == old(self)->Control_0 && *final(self) == CommandPayload::Control(
                *final(r.unwrap()),
            ),
            r is Err ==> r == Err::<&mut Control, VitaError>(VitaError::ControlOnly) && *final(self) == *old(self),
    {
        match self {
            CommandPayload::Control(p) => Ok(p),
            _ => Err(VitaError::ControlOnly),
        }
    }

    /// Gets a reference to the cancellation payload.
    ///
    /// # Errors
    /// Returns `VitaError::CancellationOnly` when run on any other kind of payload.
    pub fn cancellation(&self) -> (r: Result<&Cancellation, VitaError>)
        ensures
            (r is Ok) == (*self is Cancellation),
            r matches Ok(p) ==> *p == self->Cancellation_0,
            r is Err ==> r == Err::<&Cancellation, VitaError>(VitaError::CancellationOnly),
    {
        match self {
            CommandPayload::Cancellation(p) => Ok(p),
            _ => Err(VitaError::CancellationOnly),
        }
    }

    /// Gets a mutable reference to the cancellation payload.
    ///
    /// # Errors
    /// Returns `VitaError::CancellationOnly` when run on any other kind of payload,
    /// which is then left as it was.
    pub fn cancellation_mut(&mut self) -> (r: Result<&mut Cancellation, VitaError>)
        ensures
            (r is Ok) == (*old(self) is Cancellation),
            r is Ok ==> *r.unwrap() == old(self)->Cancellation_0 && *final(self) == CommandPayload::Cancellation(
                *final(r.unwrap()),
            ),
            r is Err ==> r == Err::<&mut Cancellation, VitaError>(VitaError::CancellationOnly) && *final(self) == *old(self),
    {
        match self {
            CommandPayload::Cancellation(p) => Ok(p),
            _ => Err(VitaError::CancellationOnly),
        }
    }

    /// Gets a reference to the validation ACK payload.
    ///
    /// # Errors
    /// Returns `VitaError::ValidationAckOnly` when run on any other kind of payload.
    pub fn validation_ack(&self) -> (r: Result<&Ack, VitaError>)
        ensures
            (r is Ok) == (*self is ValidationAck),
            r matches Ok(p) ==> *p == self->ValidationAck_0,
            r is Err ==> r == Err::<&Ack, VitaError>(VitaError::ValidationAckOnly),
    {
        match self {
            CommandPayload::ValidationAck(p) => Ok(p),
            _ => Err(VitaError::ValidationAckOnly),
        }
    }

    /// Gets a mutable reference to the validation ACK payload.
    ///
    /// # Errors
    /// Returns `VitaError::ValidationAckOnly` when run on any other kind of payload,
    /// which is then left as it was.
    pub fn validation_ack_mut(&mut self) -> (r: Result<&mut Ack, VitaError>)
        ensures
            (r is Ok) == (*old(self) is ValidationAck),
            r is Ok ==> *r.unwrap() == old(self)->ValidationAck_0 && *final(self) == CommandPayload::ValidationAck(
                *final(r.unwrap()),
            ),
            r is Err ==> r == Err::<&mut Ack, VitaError>(VitaError::ValidationAckOnly) && *final(self) == *old(self),
    {
        match self {
            CommandPayload::ValidationAck(p) => Ok(p),
            _ => Err(VitaError::ValidationAckOnly),
        }
    }

    /// Gets a reference to the execution ACK payload.
    ///
    /// # Errors
    /// Returns `VitaError::ExecAckOnly` when run on any other kind of payload.
    pub fn exec_ack(&self) -> (r: Result<&Ack, VitaError>)
        ensures
            (r is Ok) == (*self is ExecAck),
            r matches Ok(p) ==> *p == self->ExecAck_0,
            r is Err ==> r == Err::<&Ack, VitaError>(VitaError::ExecAckOnly),
    {
        match self {
            CommandPayload::ExecAck(p) => Ok(p),
            _ => Err(VitaError::ExecAckOnly),
        }
    }

    /// Gets a mutable reference to the execution ACK payload.
    ///
    /// # Errors
    /// Returns `VitaError::ExecAckOnly` when run on any other kind of payload,
    /// which is then left as it was.
    pub fn exec_ack_mut(&mut self) -> (r: Result<&mut Ack, VitaError>)
        ensures
            (r is Ok) == (*old(self) is ExecAck),
            r is Ok ==> *r.unwrap() == old(self)->ExecAck_0 && *final(self) == CommandPayload::ExecAck(
                *final(r.unwrap()),
            ),
            r is Err ==> r == Err::<&mut Ack, VitaError>(VitaError::ExecAckOnly) && *final(self) == *old(self),
    {
        match self {
            CommandPayload::ExecAck(p) => Ok(p),
            _ => Err(VitaError::ExecAckOnly),
        }
    }

    /// Gets a reference to the query ACK payload.
    ///
    /// # Errors
    /// Returns `VitaError::QueryAckOnly` when run on any other kind of payload.
    pub fn query_ack(&self) -> (r: Result<&QueryAck, VitaError>)
        ensures
            (r is Ok) == (*self is QueryAck),
            r matches Ok(p) ==> *p == self->QueryAck_0,
            r is Err ==> r == Err::<&QueryAck, VitaError>(VitaError::QueryAckOnly),
    {
        match self {
            CommandPayload::QueryAck(p) => Ok(p),
            _ => Err(VitaError::QueryAckOnly),
        }
    }

    /// Gets a mutable reference to the query ACK payload.
    ///
    /// # Errors
    /// Returns `VitaError::QueryAckOnly` when run on any other kind of payload,
    /// which is then left as it was.
    pub fn query_ack_mut(&mut self) -> (r: Result<&mut QueryAck, VitaError>)
        ensures
            (r is Ok) == (*old(self) is QueryAck),
            r is Ok ==> *r.unwrap() == old(self)->QueryAck_0 && *final(self) == CommandPayload::QueryAck(
                *final(r.unwrap()),
            ),
            r is Err ==> r == Err::<&mut QueryAck, VitaError>(VitaError::QueryAckOnly) && *final(self) == *old(self),
    {
        match self {
            CommandPayload::QueryAck(p) => Ok(p),
            _ => Err(VitaError::QueryAckOnly),
        }
    }
}


/// A packet that is not an ACK gets a control payload, or a cancellation
/// payload when its header says it is a cancellation packet, whatever the CAM
/// bits; an ACK packet whose CAM word sets exactly one of bits 20
/// (validation), 19 (execution) and 18 (query state) gets the ACK payload of
/// that kind, and any other ACK CAM word is refused. Every payload chosen is
/// empty.
pub proof fn lemma_derive_type_choices<E>(
    cam: &ControlAckMode,
    is_cancellation: Result<bool, E>,
    control: Result<CommandPayload, PayloadTypeError<E>>,
    cancellation: Result<CommandPayload, PayloadTypeError<E>>,
    ack: Result<CommandPayload, PayloadTypeError<E>>,
)
    ensures
        call_ensures(CommandPayload::derive_type::<E>, (cam, Ok::<bool, E>(false), Ok::<bool, E>(false)), control)
            ==> (control matches Ok(p) && p is Control && p->Control_0@.len() == 0),
        call_ensures(CommandPayload::derive_type::<E>, (cam, Ok::<bool, E>(false), Ok::<bool, E>(true)), cancellation)
            ==> (cancellation matches Ok(p) && p is Cancellation && p->Cancellation_0@.len() == 0),
        call_ensures(CommandPayload::derive_type::<E>, (cam, Ok::<bool, E>(true), is_cancellation), ack) ==> {
            let v = cam@ & (1u32 << 20u32) != 0;
            let x = cam@ & (1u32 << 19u32) != 0;
            let q = cam@ & (1u32 << 18u32) != 0;
            &&& (v && !x && !q) ==> (ack matches Ok(p) && p is ValidationAck && p->ValidationAck_0@.len() == 0)
            &&& (!v && x && !q) ==> (ack matches Ok(p) && p is ExecAck && p->ExecAck_0@.len() == 0)
            &&& (!v && !x && q) ==> (ack matches Ok(p) && p is QueryAck && p->QueryAck_0@.len() == 0)
            &&& !((v && !x && !q) || (!v && x && !q) || (!v && !x && q)) ==> ack is Err
        },
{
}

/// The size of a command payload is the number of words it was made from
/// (modulo 2^16), for every kind of payload.
pub proof fn lemma_command_size_is_payload_words(
    words: Vec<u32>,
    control: Control,
    cancellation: Cancellation,
    ack: Ack,
    query: QueryAck,
    r: u16,
)
    ensures
        call_ensures(Control::from_words, (words,), control) && call_ensures(
            CommandPayload::size_words,
            (&CommandPayload::Control(control),),
            r,
        ) ==> r as int == words@.len() % 0x10000,
        call_ensures(Cancellation::from_words, (words,), cancellation) && call_ensures(
            CommandPayload::size_words,
            (&CommandPayload::Cancellation(cancellation),),
            r,
        ) ==> r as int == words@.len() % 0x10000,
        call_ensures(Ack::from_words, (words,), ack) && call_ensures(
            CommandPayload::size_words,
            (&CommandPayload::ValidationAck(ack),),
            r,
        ) ==> r as int == words@.len() % 0x10000,
        call_ensures(Ack::from_words, (words,), ack) && call_ensures(
            CommandPayload::size_words,
            (&CommandPayload::ExecAck(ack),),
            r,
        ) ==> r as int == words@.len() % 0x10000,
        call_ensures(QueryAck::from_words, (words,), query) && call_ensures(
            CommandPayload::size_words,
            (&CommandPayload::QueryAck(query),),
            r,
        ) ==> r as int == words@.len() % 0x10000,
{
}

} // verus!
