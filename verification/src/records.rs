//! Records that the assistant keeps between sessions: past exchanges and
//! configured triggers. The library only builds and reads these values; where
//! they are stored is the caller's business.

use vstd::prelude::*;
use vstd::string::StringExecFns;

verus! {

/// One remembered exchange between the user and the assistant.
#[derive(Debug)]
pub struct DwightMemory {
    /// Identifier given by the store, `None` until the entry is saved.
    pub id: Option<i32>,
    pub context: String,
    pub response: String,
    /// Set by the store when the entry is saved.
    pub created_at: String,
    pub user_input: String,
}

/// A `DwightMemory` with its texts as character sequences.
#[verifier::ext_equal]
pub struct MemoryView {
    pub id: Option<i32>,
    pub context: Seq<char>,
    pub response: Seq<char>,
    pub created_at: Seq<char>,
    pub user_input: Seq<char>,
}

impl View for DwightMemory {
    type V = MemoryView;

    open spec fn view(&self) -> MemoryView {
        MemoryView {
            id: self.id,
            context: self.context@,
            response: self.response@,
            created_at: self.created_at@,
            user_input: self.user_input@,
        }
    }
}

/// What is noted as the context of an exchange that began with
/// `user_input`.
pub open spec fn context_note(user_input: Seq<char>) -> Seq<char> {
    "User asked: "@ + user_input
}

impl DwightMemory {
    /// The entry for an exchange that is yet to be saved: it has no
    /// identifier and no time, and its context says what the user asked.
    pub fn of_exchange(user_input: &str, response: &str) -> (entry: Self)
        ensures
            entry@ == (MemoryView {
                id: None,
                context: context_note(user_input@),
                response: response@,
                created_at: Seq::empty(),
                user_input: user_input@,
            }),
    {
        let mut context = String::from_str("User asked: ");
        context.append(user_input);
        DwightMemory {
            id: None,
            context,
            response: String::from_str(response),
            created_at: String::new(),
            user_input: String::from_str(user_input),
        }
    }
}

/// The views of a run of remembered exchanges, in the same order.
pub open spec fn history_of(entries: Seq<DwightMemory>) -> Seq<MemoryView> {
    entries.map_values(|entry: DwightMemory| entry@)
}

/// A configured trigger: a sound or a spoken phrase to watch for.
#[derive(Debug)]
pub struct SoundTrigger {
    /// Identifier given by the store, `None` until the trigger is saved.
    pub id: Option<i32>,
    /// Either "sound" or "speech".
    pub trigger_type: String,
    pub trigger_value: String,
    pub is_active: bool,
    /// Set by the store when the trigger is saved.
    pub created_at: String,
}

/// A `SoundTrigger` with its texts as character sequences.
#[verifier::ext_equal]
pub struct TriggerView {
    pub id: Option<i32>,
    pub trigger_type: Seq<char>,
    pub trigger_value: Seq<char>,
    pub is_active: bool,
    pub created_at: Seq<char>,
}

impl View for SoundTrigger {
    type V = TriggerView;

    open spec fn view(&self) -> TriggerView {
        TriggerView {
            id: self.id,
            trigger_type: self.trigger_type@,
            trigger_value: self.trigger_value@,
            is_active: self.is_active,
            created_at: self.created_at@,
        }
    }
}

impl SoundTrigger {
    /// A trigger that is yet to be saved: it has no identifier and no time,
    /// and it is active.
    pub fn new_active(trigger_type: &str, trigger_value: &str) -> (trigger: Self)
        ensures
            trigger@ == (TriggerView {
                id: None,
                trigger_type: trigger_type@,
                trigger_value: trigger_value@,
                is_active: true,
                created_at: Seq::empty(),
            }),
    {
        SoundTrigger {
            id: None,
            trigger_type: String::from_str(trigger_type),
            trigger_value: String::from_str(trigger_value),
            is_active: true,
            created_at: String::new(),
        }
    }
}

} // verus!
