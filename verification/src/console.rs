//! The global output facility: one writer for the whole process, guarded by a
//! spin lock.
//!
//! Every caller, from any execution context, must reach the grid through this
//! lock; that serialization is the one thing that keeps concurrent writes and
//! scrolls from corrupting the visible output.  The protected operations are
//! short and bounded -- at most one scroll's worth of work -- so a busy-wait
//! acquire is appropriate and the lock is never held across anything that
//! blocks.
//!
//! What the lock hands out is an arbitrary well-formed writer state (another
//! caller may have run between two acquisitions), so the contracts here say
//! nothing about the grid's contents; the functional contracts live on
//! [`Writer`](crate::vga_buffer::Writer) itself.

use vstd::prelude::*;

use crate::vga_buffer::Writer;

verus! {

#[verifier::external_type_specification]
#[verifier::external_body]
#[verifier::reject_recursive_types(T)]
pub struct ExMutex<T: ?Sized>(spin::Mutex<T>);

#[verifier::external_type_specification]
#[verifier::external_body]
#[verifier::reject_recursive_types(T)]
pub struct ExMutexGuard<'a, T: ?Sized + 'a>(spin::MutexGuard<'a, T>);

/// Relies on spin::Mutex::new: wraps the writer in a fresh, unlocked
/// spinlock.
#[verifier::external_body]
fn mutex_new(writer: Writer) -> (mutex: spin::Mutex<Writer>) {
    spin::Mutex::new(writer)
}

/// Relies on spin::Mutex::lock: busy-waits until the lock is free, then
/// returns the guard that grants exclusive access until it is dropped.
#[verifier::external_body]
fn mutex_lock<'a>(mutex: &'a spin::Mutex<Writer>) -> (guard: spin::MutexGuard<'a, Writer>) {
    mutex.lock()
}

/// Relies on spin::MutexGuard's DerefMut impl: the guard dereferences to the
/// writer the lock protects.
#[verifier::external_body]
fn guard_writer<'a, 'b>(guard: &'a mut spin::MutexGuard<'b, Writer>) -> (writer: &'a mut Writer) {
    &mut **guard
}

/// Relies on spin::Mutex::into_inner: consumes the lock and returns the
/// writer it protected.
#[verifier::external_body]
fn mutex_into_inner(mutex: spin::Mutex<Writer>) -> (writer: Writer) {
    mutex.into_inner()
}

/// The process-wide output facility: the one writer, behind a
/// mutual-exclusion lock.
///
/// Created once at process start and handed around (or parked somewhere
/// global by the embedding program); every output call acquires the lock,
/// drives the writer, and releases it.  Output is synchronous: when a call
/// returns, the grid has changed.
pub struct Console {
    writer: spin::Mutex<Writer>,
}

impl Console {
    /// Wraps `writer` -- from now on the lock is the only way to it.
    pub fn new(writer: Writer) -> (console: Console) {
        Console { writer: mutex_new(writer) }
    }

    /// Writes the already-formatted text `s`, whole, under the lock.
    pub fn print(&self, s: &str) {
        let mut guard = mutex_lock(&self.writer);
        let writer = guard_writer(&mut guard);
        writer.write_str(s);
    }

    /// Writes the already-formatted bytes, whole, under the lock.
    pub fn print_bytes(&self, bytes: &[u8]) {
        let mut guard = mutex_lock(&self.writer);
        let writer = guard_writer(&mut guard);
        writer.write_bytes(bytes);
    }

    /// Takes the facility apart again, returning the writer.
    pub fn into_writer(self) -> Writer {
        mutex_into_inner(self.writer)
    }
}

/// Clears the whole grid under the lock: afterwards every cell is blank and
/// the cursor sits at the last row, column 0.
pub fn clear_screen(console: &Console) {
    let mut guard = mutex_lock(&console.writer);
    let writer = guard_writer(&mut guard);
    writer.clear_screen();
}

} // verus!
