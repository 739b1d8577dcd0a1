use firmware_runtime::registry::{CommandHandler, CommandRegistry, REGISTRY_CAPACITY};
use firmware_runtime::RuntimeError;
use std::cell::Cell;

struct CommandHandler1 {
    count: Cell<u32>,
}

impl CommandHandler for CommandHandler1 {
    fn handle_command(&self) {
        self.count.set(self.count.get() + 1);
    }
}

#[derive(Default)]
struct CommandHandler2 {
    count: Cell<u32>,
}

impl CommandHandler for CommandHandler2 {
    fn handle_command(&self) {
        self.count.set(self.count.get() + 1);
    }
}

/// A single registrable type that can stand for either handler, so that
/// handlers of both structs can share one registry.
enum Handler {
    One(CommandHandler1),
    Two(CommandHandler2),
}

impl CommandHandler for Handler {
    fn handle_command(&self) {
        match self {
            Handler::One(h) => h.handle_command(),
            Handler::Two(h) => h.handle_command(),
        }
    }
}

impl Handler {
    fn count(&self) -> u32 {
        match self {
            Handler::One(h) => h.count.get(),
            Handler::Two(h) => h.count.get(),
        }
    }
}

struct CountingHandler {
    count: Cell<u32>,
}

impl CommandHandler for CountingHandler {
    fn handle_command(&self) {
        self.count.set(self.count.get() + 1);
    }
}

struct NoopHandler;

impl CommandHandler for NoopHandler {
    fn handle_command(&self) {}
}

#[test]
fn test_command_registry() {
    let handler1 = Handler::One(CommandHandler1 {
        count: Cell::new(0),
    });
    let handler2 = Handler::Two(CommandHandler2::default());

    let mut registry: CommandRegistry<Handler> = CommandRegistry::new();

    assert!(registry.register_handler(1, &handler1).is_ok());
    assert!(registry.register_handler(2, &handler2).is_ok());

    assert!(registry.handle_command(1).is_ok());
    assert!(registry.handle_command(2).is_ok());
    assert!(registry.handle_command(3).is_err());

    assert_eq!(handler1.count(), 1);
    assert_eq!(handler2.count(), 1);
}

#[test]
fn registry_fills_to_capacity_and_rejects_overflow() {
    let noop = NoopHandler;
    let mut registry: CommandRegistry<NoopHandler> = CommandRegistry::new();
    for id in 0..REGISTRY_CAPACITY as u32 {
        assert_eq!(registry.register_handler(id, &noop), Ok(()));
    }
    assert_eq!(
        registry.register_handler(REGISTRY_CAPACITY as u32, &noop),
        Err(RuntimeError::RegistryFull)
    );
    // The failed registration altered nothing: every earlier id still
    // dispatches, the rejected one still misses.
    assert_eq!(registry.handle_command(0), Ok(()));
    assert_eq!(registry.handle_command(9), Ok(()));
    assert_eq!(
        registry.handle_command(10),
        Err(RuntimeError::HandlerNotFound)
    );
}

#[test]
fn scenario_two_handlers_and_a_missing_id() {
    let h1 = CountingHandler {
        count: Cell::new(0),
    };
    let h2 = CountingHandler {
        count: Cell::new(0),
    };
    let mut registry: CommandRegistry<CountingHandler> = CommandRegistry::new();
    assert_eq!(registry.register_handler(1, &h1), Ok(()));
    assert_eq!(registry.register_handler(2, &h2), Ok(()));
    assert_eq!(registry.handle_command(1), Ok(()));
    assert_eq!(registry.handle_command(2), Ok(()));
    assert_eq!(h1.count.get(), 1);
    assert_eq!(h2.count.get(), 1);
    assert_eq!(
        registry.handle_command(3),
        Err(RuntimeError::HandlerNotFound)
    );
    // The failed dispatch invoked nothing.
    assert_eq!(h1.count.get(), 1);
    assert_eq!(h2.count.get(), 1);
}

#[test]
fn duplicate_id_dispatches_only_the_first_registered_handler() {
    let first = CountingHandler {
        count: Cell::new(0),
    };
    let second = CountingHandler {
        count: Cell::new(0),
    };
    let mut registry: CommandRegistry<CountingHandler> = CommandRegistry::new();
    assert_eq!(registry.register_handler(5, &first), Ok(()));
    assert_eq!(registry.register_handler(5, &second), Ok(()));
    assert_eq!(registry.handle_command(5), Ok(()));
    assert_eq!(first.count.get(), 1);
    assert_eq!(second.count.get(), 0);
    // Exactly one invocation per call, always of the first registration.
    assert_eq!(registry.handle_command(5), Ok(()));
    assert_eq!(first.count.get(), 2);
    assert_eq!(second.count.get(), 0);
}

#[test]
fn empty_registry_reports_handler_not_found() {
    let registry: CommandRegistry<NoopHandler> = CommandRegistry::new();
    assert_eq!(
        registry.handle_command(0),
        Err(RuntimeError::HandlerNotFound)
    );
}
