//! The model of `webrtc::Thread`.
//!
//! The model has no scheduler: a blocking call runs its task at once on
//! the calling side, which is exactly the observable behavior of handing a
//! task to a worker and waiting for its result.

use vstd::prelude::*;

use crate::NativePtr;

verus! {

/// A native worker thread handle.
pub struct Thread {
    running: bool,
}

impl Thread {
    /// A thread without a socket server, not yet started.
    pub fn new() -> (r: Thread)
        ensures
            !r.spec_running(),
    {
        Thread { running: false }
    }

    /// A thread with a socket server, not yet started.
    pub fn new_with_socket_server() -> (r: Thread)
        ensures
            !r.spec_running(),
    {
        Thread { running: false }
    }

    /// Whether the thread is started.
    pub closed spec fn spec_running(self) -> bool {
        self.running
    }

    /// Starts the thread.
    pub fn start(&mut self)
        ensures
            final(self).spec_running(),
    {
        self.running = true;
    }

    /// Stops the thread and joins it.
    pub fn stop(&mut self)
        ensures
            !final(self).spec_running(),
    {
        self.running = false;
    }

    /// Runs a task and waits for its result.
    pub fn blocking_call<F: FnOnce() -> R, R>(&mut self, f: F) -> (r: R)
        requires
            call_requires(f, ()),
        ensures
            call_ensures(f, (), r),
            final(self).spec_running() == old(self).spec_running(),
    {
        f()
    }

    /// Forfeits ownership to a native consumer.
    pub fn into_raw(self) -> (r: NativePtr)
        ensures
            r == (NativePtr { addr: 1 }),
    {
        NativePtr { addr: 1 }
    }
}

/// Yields the calling thread for the given time; the model has no
/// scheduler, so nothing observable happens.
pub fn thread_sleep_ms(millis: i32) {
}

} // verus!
