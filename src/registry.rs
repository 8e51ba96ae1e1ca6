use vstd::prelude::*;

verus! {

/// The three events a host can subscribe to.
#[derive(Clone, Copy, Debug, PartialEq, Eq, Structural)]
pub enum CallbackKind {
    /// A connection completed its handshake.
    Open,
    /// A connection closed, for any reason.
    Error,
    /// A connection delivered a non-empty text message.
    Message,
}

/// Three independently replaceable callback slots, shared by every connection
/// of a server.
///
/// The registry only stores and hands out values; callers that share it
/// between threads put it behind one lock, so each `set` and each `get`
/// observes a slot either wholly before or wholly after a replacement.
pub struct CallbackRegistry<C> {
    open: Option<C>,
    error: Option<C>,
    message: Option<C>,
}

impl<C> CallbackRegistry<C> {
    /// The value held in the slot for `kind`.
    pub closed spec fn slot(&self, kind: CallbackKind) -> Option<C> {
        match kind {
            CallbackKind::Open => self.open,
            CallbackKind::Error => self.error,
            CallbackKind::Message => self.message,
        }
    }

    /// This registry with the slot for `kind` holding `value` and the other
    /// two slots as they are.
    pub closed spec fn with_slot(self, kind: CallbackKind, value: Option<C>) -> Self {
        match kind {
            CallbackKind::Open => CallbackRegistry { open: value, ..self },
            CallbackKind::Error => CallbackRegistry { error: value, ..self },
            CallbackKind::Message => CallbackRegistry { message: value, ..self },
        }
    }

    /// A replaced slot holds the new value; the other slots are untouched.
    pub broadcast proof fn lemma_with_slot(self, kind: CallbackKind, value: Option<C>, other: CallbackKind)
        ensures
            #[trigger] self.with_slot(kind, value).slot(other) == if other == kind {
                value
            } else {
                self.slot(other)
            },
    {
    }

    /// A registry with no callback in any slot.
    pub fn new() -> (r: Self)
        ensures
            forall|k: CallbackKind| #[trigger] r.slot(k) == None::<C>,
    {
        CallbackRegistry { open: None, error: None, message: None }
    }

    /// Replaces the callback in the slot for `kind`; the other slots keep
    /// theirs.
    pub fn set(&mut self, kind: CallbackKind, callback: C)
        ensures
            *final(self) == old(self).with_slot(kind, Some(callback)),
    {
        match kind {
            CallbackKind::Open => self.open = Some(callback),
            CallbackKind::Error => self.error = Some(callback),
            CallbackKind::Message => self.message = Some(callback),
        }
    }

    /// The callback currently in the slot for `kind`, if any.
    pub fn get(&self, kind: CallbackKind) -> (r: &Option<C>)
        ensures
            *r == self.slot(kind),
    {
        match kind {
            CallbackKind::Open => &self.open,
            CallbackKind::Error => &self.error,
            CallbackKind::Message => &self.message,
        }
    }
}

/// Replacing a slot decides what every later read of that slot returns, and
/// nothing else: a read taken before the replacement keeps the value it got,
/// a read taken after it gets the new callback, and reads of the other slots
/// are unchanged.
pub proof fn lemma_replace_affects_only_later_reads<C>(
    before: CallbackRegistry<C>,
    kind: CallbackKind,
    callback: C,
)
    ensures
        ({
            let after = before.with_slot(kind, Some(callback));
            &&& after.slot(kind) == Some(callback)
            &&& forall|k: CallbackKind| k != kind ==> #[trigger] after.slot(k) == before.slot(k)
        }),
{
    broadcast use CallbackRegistry::lemma_with_slot;
}

} // verus!
