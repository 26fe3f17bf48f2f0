//! The modules that ship with the application.

pub mod books;
pub mod users;

use crate::registry::ModuleRegistry;
use vstd::prelude::*;

verus! {

/// Registers the bundled modules as custom modules: books, then users.
pub fn register_all(registry: &mut ModuleRegistry)
    ensures
        final(registry).core_entries() == old(registry).core_entries(),
        final(registry).custom_entries().len() == old(registry).custom_entries().len() + 2,
        final(registry).custom_entries().take(old(registry).custom_entries().len() as int) == old(
            registry,
        ).custom_entries(),
        books::is_books_module(
            final(registry).custom_entries()[old(registry).custom_entries().len() as int],
        ),
        users::is_users_module(
            final(registry).custom_entries()[old(registry).custom_entries().len() as int + 1],
        ),
{
    registry.register_custom(books::create_module());
    registry.register_custom(users::create_module());
}

} // verus!
