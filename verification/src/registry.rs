//! A fixed-capacity table routing numeric command identifiers to handler
//! objects, with insertion-order, first-match dispatch.

use vstd::prelude::*;
use crate::RuntimeError;

verus! {

/// The capability a handler object exposes: a single dispatchable operation.
/// Handlers are implemented and owned by the embedding runtime; the table
/// holds non-owning references and only ever invokes this one method.
pub trait CommandHandler {
    fn handle_command(&self);
}

/// Number of entries a `CommandRegistry` can hold.
pub const REGISTRY_CAPACITY: usize = 10;

/// A fixed-capacity registry mapping numeric command identifiers to handler
/// objects.
///
/// Entries are appended with [`CommandRegistry::register_handler`] and never
/// removed. [`CommandRegistry::handle_command`] scans the entries in
/// insertion order and invokes the first handler whose id matches, so a
/// duplicate id can be registered but only its first registration is ever
/// dispatched to.
///
/// The registry borrows its handlers: it must not outlive them. Handlers
/// may use interior mutability of their own; the registry never mutates
/// them, it only invokes their single operation.
pub struct CommandRegistry<'a, H> {
    /// Fixed bound on the number of entries, always `REGISTRY_CAPACITY`.
    capacity: usize,
    /// How many entries are registered; entries sit packed in `[0, size)`.
    size: usize,
    /// Command identifiers, parallel to `values`.
    keys: Vec<u32>,
    /// Registered handlers; `values[i]` is occupied for every `i < size`.
    values: Vec<Option<&'a H>>,
}

impl<'a, H: CommandHandler> CommandRegistry<'a, H> {
    /// Well-formedness: both parallel vectors are exactly
    /// `REGISTRY_CAPACITY` long, at most that many entries are registered,
    /// and every registered index holds a handler.
    pub closed spec fn wf(self) -> bool {
        &&& self.capacity == REGISTRY_CAPACITY
        &&& self.keys.len() == REGISTRY_CAPACITY
        &&& self.values.len() == REGISTRY_CAPACITY
        &&& self.size <= REGISTRY_CAPACITY
        &&& forall|i: int| 0 <= i < self.size ==> (#[trigger] self.values[i]) is Some
    }

    /// The registered entries in insertion order, each a command id paired
    /// with the handler it was registered with: the abstract value of the
    /// registry.
    pub closed spec fn entries(self) -> Seq<(u32, H)> {
        Seq::new(self.size as nat, |i: int| (self.keys[i], *self.values[i]->Some_0))
    }

    /// Whether some entry is registered under `command_id`.
    pub open spec fn has_handler(self, command_id: u32) -> bool {
        exists|i: int|
            0 <= i < self.entries().len() && (#[trigger] self.entries()[i]).0 == command_id
    }

    /// Create a new, empty command registry.
    pub fn new() -> (registry: Self)
        ensures
            registry.wf(),
            registry.entries() == Seq::<(u32, H)>::empty(),
    {
        let mut keys: Vec<u32> = Vec::new();
        let mut values: Vec<Option<&'a H>> = Vec::new();
        let mut i: usize = 0;
        while i < REGISTRY_CAPACITY
            invariant
                i <= REGISTRY_CAPACITY,
                keys.len() == i,
                values.len() == i,
            decreases REGISTRY_CAPACITY - i,
        {
            keys.push(0);
            values.push(None);
            i += 1;
        }
        let registry = CommandRegistry { capacity: REGISTRY_CAPACITY, size: 0, keys, values };
        proof {
            assert(registry.entries() =~= Seq::<(u32, H)>::empty());
        }
        registry
    }

    /// Register `handler` under `command_id`.
    ///
    /// Succeeds exactly when the registry is not full, appending the entry;
    /// a full registry reports `RegistryFull` and is left unchanged. A
    /// duplicate `command_id` is accepted, but dispatch will only ever reach
    /// the first entry registered under it.
    pub fn register_handler(&mut self, command_id: u32, handler: &'a H) -> (result: Result<
        (),
        RuntimeError,
    >)
        requires
            old(self).wf(),
        ensures
            final(self).wf(),
            old(self).entries().len() < REGISTRY_CAPACITY ==> {
                &&& result == Ok::<(), RuntimeError>(())
                &&& final(self).entries() == old(self).entries().push((command_id, *handler))
            },
            old(self).entries().len() == REGISTRY_CAPACITY ==> {
                &&& result == Err::<(), RuntimeError>(RuntimeError::RegistryFull)
                &&& *final(self) == *old(self)
            },
    {
        if self.size >= self.capacity {
            return Err(RuntimeError::RegistryFull);
        }
        let index = self.size;
        self.keys[index] = command_id;
        self.values[index] = Some(handler);
        self.size = self.size + 1;
        proof {
            assert(self.entries() =~= old(self).entries().push((command_id, *handler)));
        }
        Ok(())
    }

    /// Route `command_id` to its handler.
    ///
    /// Scans the entries in insertion order; on the first entry whose id
    /// matches, invokes that handler's single operation and returns success.
    /// Succeeds exactly when some entry is registered under `command_id`;
    /// otherwise reports `HandlerNotFound` without invoking anything.
    pub fn handle_command(&self, command_id: u32) -> (result: Result<(), RuntimeError>)
        requires
            self.wf(),
        ensures
            self.has_handler(command_id) ==> result == Ok::<(), RuntimeError>(()),
            !self.has_handler(command_id) ==> result == Err::<(), RuntimeError>(
                RuntimeError::HandlerNotFound,
            ),
    {
        let mut i: usize = 0;
        while i < self.size
            invariant
                self.wf(),
                i <= self.size,
                forall|j: int| 0 <= j < i ==> (#[trigger] self.entries()[j]).0 != command_id,
            decreases self.size - i,
        {
            if let Some(handler) = self.values[i] {
                if self.keys[i] == command_id {
                    handler.handle_command();
                    proof {
                        assert(self.entries()[i as int].0 == command_id);
                    }
                    return Ok(());
                }
            }
            i += 1;
        }
        Err(RuntimeError::HandlerNotFound)
    }
}

/// Law (bounded capacity): a well-formed registry never holds more than
/// `REGISTRY_CAPACITY` entries, so `register_handler` alone decides when
/// the registry is full.
pub proof fn lemma_registry_entries_bounded<'a, H: CommandHandler>(
    registry: CommandRegistry<'a, H>,
)
    requires
        registry.wf(),
    ensures
        registry.entries().len() <= REGISTRY_CAPACITY,
{
}

} // verus!
