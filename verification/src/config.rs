//! The configuration record a VM is created from.
//!
//! The runtime receives six callback slots, three heap-tuning parameters and
//! one opaque user-data word.  Host callbacks cannot carry captured state
//! across the C boundary, so a callback is identified here by a plain token;
//! the layer that owns the raw function pointers keeps the token ↔ pointer
//! correspondence outside the library.

use vstd::prelude::*;

verus! {

/// What a configuration's callback slot holds.
#[derive(Copy, Clone, Debug, PartialEq, Eq, Structural)]
pub enum CallbackSlot {
    /// Nothing installed; the runtime falls back to its built-in behaviour.
    Unset,
    /// The library's own default (write to standard output, the three-way
    /// error report, the two-step module loader).
    LibraryDefault,
    /// A host function, named by an opaque token.
    Host(usize),
}

/// A configuration record, as handed to the runtime when a VM is created.
///
/// A heap parameter left as `None` keeps the runtime's built-in default.
pub struct Configuration {
    pub reallocate: CallbackSlot,
    pub load_module: CallbackSlot,
    pub bind_foreign_method: CallbackSlot,
    pub bind_foreign_class: CallbackSlot,
    pub write: CallbackSlot,
    pub error: CallbackSlot,
    pub initial_heap_size: Option<usize>,
    pub min_heap_size: Option<usize>,
    pub heap_growth_percent: Option<i32>,
    pub user_data: usize,
}

impl Configuration {
    /// A fresh configuration with the library's defaults installed: printing,
    /// error reporting and module loading behave as in the runtime's own
    /// command-line interpreter.
    pub fn new() -> (cfg: Configuration)
        ensures
            cfg == (Configuration {
                reallocate: CallbackSlot::Unset,
                load_module: CallbackSlot::LibraryDefault,
                bind_foreign_method: CallbackSlot::Unset,
                bind_foreign_class: CallbackSlot::Unset,
                write: CallbackSlot::LibraryDefault,
                error: CallbackSlot::LibraryDefault,
                initial_heap_size: None::<usize>,
                min_heap_size: None::<usize>,
                heap_growth_percent: None::<i32>,
                user_data: 0usize,
            }),
    {
        Configuration {
            reallocate: CallbackSlot::Unset,
            load_module: CallbackSlot::LibraryDefault,
            bind_foreign_method: CallbackSlot::Unset,
            bind_foreign_class: CallbackSlot::Unset,
            write: CallbackSlot::LibraryDefault,
            error: CallbackSlot::LibraryDefault,
            initial_heap_size: None,
            min_heap_size: None,
            heap_growth_percent: None,
            user_data: 0,
        }
    }

    pub fn set_reallocate_fn(&mut self, f: usize)
        ensures
            *final(self) == (Configuration { reallocate: CallbackSlot::Host(f), ..*old(self) }),
    {
        self.reallocate = CallbackSlot::Host(f);
    }

    pub fn set_load_module_fn(&mut self, f: usize)
        ensures
            *final(self) == (Configuration { load_module: CallbackSlot::Host(f), ..*old(self) }),
    {
        self.load_module = CallbackSlot::Host(f);
    }

    pub fn set_bind_foreign_method_fn(&mut self, f: usize)
        ensures
            *final(self) == (Configuration {
                bind_foreign_method: CallbackSlot::Host(f),
                ..*old(self)
            }),
    {
        self.bind_foreign_method = CallbackSlot::Host(f);
    }

    pub fn set_bind_foreign_class_fn(&mut self, f: usize)
        ensures
            *final(self) == (Configuration {
                bind_foreign_class: CallbackSlot::Host(f),
                ..*old(self)
            }),
    {
        self.bind_foreign_class = CallbackSlot::Host(f);
    }

    pub fn set_write_fn(&mut self, f: usize)
        ensures
            *final(self) == (Configuration { write: CallbackSlot::Host(f), ..*old(self) }),
    {
        self.write = CallbackSlot::Host(f);
    }

    pub fn set_error_fn(&mut self, f: usize)
        ensures
            *final(self) == (Configuration { error: CallbackSlot::Host(f), ..*old(self) }),
    {
        self.error = CallbackSlot::Host(f);
    }

    pub fn set_initial_heap_size(&mut self, size: usize)
        ensures
            *final(self) == (Configuration { initial_heap_size: Some(size), ..*old(self) }),
    {
        self.initial_heap_size = Some(size);
    }

    pub fn set_min_heap_size(&mut self, size: usize)
        ensures
            *final(self) == (Configuration { min_heap_size: Some(size), ..*old(self) }),
    {
        self.min_heap_size = Some(size);
    }

    pub fn set_heap_growth_percent(&mut self, percent: i32)
        ensures
            *final(self) == (Configuration { heap_growth_percent: Some(percent), ..*old(self) }),
    {
        self.heap_growth_percent = Some(percent);
    }

    pub fn set_user_data(&mut self, data: usize)
        ensures
            *final(self) == (Configuration { user_data: data, ..*old(self) }),
    {
        self.user_data = data;
    }
}

} // verus!
