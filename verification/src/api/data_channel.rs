//! The data channel wrapper and its observer bridge.

use vstd::prelude::*;

use crate::NativePtr;
use crate::bundle::BundleLifecycle;
use crate::error::RtcResult;

verus! {

/// The native tag of the connecting state.
pub const DATA_CHANNEL_STATE_CONNECTING: i32 = 0;

/// The native tag of the open state.
pub const DATA_CHANNEL_STATE_OPEN: i32 = 1;

/// The native tag of the closing state.
pub const DATA_CHANNEL_STATE_CLOSING: i32 = 2;

/// The native tag of the closed state.
pub const DATA_CHANNEL_STATE_CLOSED: i32 = 3;

/// The lifecycle state of a data channel.
#[derive(Debug, Clone, Copy, PartialEq, Eq, Structural)]
pub enum DataChannelState {
    Connecting,
    Open,
    Closing,
    Closed,
    Unknown(i32),
}

impl DataChannelState {
    /// The state with the given native tag.
    pub fn from_int(value: i32) -> (r: DataChannelState)
        ensures
            value == DATA_CHANNEL_STATE_CONNECTING ==> r == DataChannelState::Connecting,
            value == DATA_CHANNEL_STATE_OPEN ==> r == DataChannelState::Open,
            value == DATA_CHANNEL_STATE_CLOSING ==> r == DataChannelState::Closing,
            value == DATA_CHANNEL_STATE_CLOSED ==> r == DataChannelState::Closed,
            value != DATA_CHANNEL_STATE_CONNECTING && value != DATA_CHANNEL_STATE_OPEN && value
                != DATA_CHANNEL_STATE_CLOSING && value != DATA_CHANNEL_STATE_CLOSED ==> r
                == DataChannelState::Unknown(value),
    {
        if value == DATA_CHANNEL_STATE_CONNECTING {
            DataChannelState::Connecting
        } else if value == DATA_CHANNEL_STATE_OPEN {
            DataChannelState::Open
        } else if value == DATA_CHANNEL_STATE_CLOSING {
            DataChannelState::Closing
        } else if value == DATA_CHANNEL_STATE_CLOSED {
            DataChannelState::Closed
        } else {
            DataChannelState::Unknown(value)
        }
    }
}

/// The settings a data channel is created with.
pub struct DataChannelInit {
    ordered: bool,
    protocol: String,
}

impl DataChannelInit {
    /// Ordered delivery, no protocol.
    pub fn new() -> (r: DataChannelInit)
        ensures
            r.spec_ordered(),
            r.spec_protocol() == Seq::<char>::empty(),
    {
        DataChannelInit { ordered: true, protocol: String::new() }
    }

    /// Whether delivery is ordered.
    pub closed spec fn spec_ordered(self) -> bool {
        self.ordered
    }

    /// The subprotocol name.
    pub closed spec fn spec_protocol(self) -> Seq<char> {
        self.protocol@
    }

    /// Sets whether delivery is ordered.
    pub fn set_ordered(&mut self, ordered: bool)
        ensures
            final(self).spec_ordered() == ordered,
            final(self).spec_protocol() == old(self).spec_protocol(),
    {
        self.ordered = ordered;
    }

    /// Sets the subprotocol name.
    pub fn set_protocol(&mut self, protocol: &str)
        ensures
            final(self).spec_protocol() == protocol@,
            final(self).spec_ordered() == old(self).spec_ordered(),
    {
        self.protocol = protocol.to_owned();
    }

    /// The native address of the settings; never null.
    pub fn as_ptr(&mut self) -> (r: NativePtr)
        ensures
            r == (NativePtr { addr: 1 }),
            *final(self) == *old(self),
    {
        NativePtr { addr: 1 }
    }
}

/// A data channel: its label, its state, and what was sent through it.
pub struct DataChannel {
    label_text: String,
    state: DataChannelState,
    sent: Ghost<Seq<(Seq<u8>, bool)>>,
    observer_registered: bool,
}

impl DataChannel {
    /// A channel with the given label, in the connecting state.
    pub fn new(label: &str) -> (r: DataChannel)
        ensures
            r.spec_label() == label@,
            r.spec_state() == DataChannelState::Connecting,
            r.spec_sent().len() == 0,
            !r.spec_observer_registered(),
    {
        DataChannel {
            label_text: label.to_owned(),
            state: DataChannelState::Connecting,
            sent: Ghost(Seq::empty()),
            observer_registered: false,
        }
    }

    /// The label.
    pub closed spec fn spec_label(self) -> Seq<char> {
        self.label_text@
    }

    /// The current state.
    pub closed spec fn spec_state(self) -> DataChannelState {
        self.state
    }

    /// Every payload sent, with its binary flag, in order.
    pub closed spec fn spec_sent(self) -> Seq<(Seq<u8>, bool)> {
        self.sent@
    }

    /// Whether an observer is registered.
    pub closed spec fn spec_observer_registered(self) -> bool {
        self.observer_registered
    }

    /// The label.
    pub fn label(&self) -> (r: RtcResult<String>)
        ensures
            r is Ok,
            r->Ok_0@ == self.spec_label(),
    {
        Ok(self.label_text.clone())
    }

    /// The current state.
    pub fn state(&self) -> (r: DataChannelState)
        ensures
            r == self.spec_state(),
    {
        self.state
    }

    /// Sends a payload; succeeds exactly while the channel is not closed
    /// or closing, and records what was handed to the transport.
    pub fn send(&mut self, data: &[u8], is_binary: bool) -> (r: bool)
        ensures
            r == (old(self).spec_state() != DataChannelState::Closed && old(self).spec_state()
                != DataChannelState::Closing),
            r ==> final(self).spec_sent() == old(self).spec_sent().push((data@, is_binary)),
            !r ==> *final(self) == *old(self),
            final(self).spec_label() == old(self).spec_label(),
            final(self).spec_state() == old(self).spec_state(),
    {
        match self.state {
            DataChannelState::Closed => false,
            DataChannelState::Closing => false,
            _ => {
                proof {
                    self.sent@ = self.sent@.push((data@, is_binary));
                }
                true
            },
        }
    }

    /// Closes the channel.
    pub fn close(&mut self)
        ensures
            final(self).spec_state() == DataChannelState::Closed,
            final(self).spec_label() == old(self).spec_label(),
            final(self).spec_sent() == old(self).spec_sent(),
            final(self).spec_observer_registered() == old(self).spec_observer_registered(),
    {
        self.state = DataChannelState::Closed;
    }

    /// Registers an observer.
    pub fn register_observer(&mut self)
        ensures
            final(self).spec_observer_registered(),
            final(self).spec_label() == old(self).spec_label(),
            final(self).spec_state() == old(self).spec_state(),
            final(self).spec_sent() == old(self).spec_sent(),
    {
        self.observer_registered = true;
    }

    /// Unregisters the observer.
    pub fn unregister_observer(&mut self)
        ensures
            !final(self).spec_observer_registered(),
            final(self).spec_label() == old(self).spec_label(),
            final(self).spec_state() == old(self).spec_state(),
            final(self).spec_sent() == old(self).spec_sent(),
    {
        self.observer_registered = false;
    }

    /// The native address of the channel; never null.
    pub fn as_ptr(&self) -> (r: NativePtr)
        ensures
            r == (NativePtr { addr: 1 }),
    {
        NativePtr { addr: 1 }
    }
}

/// Collects the optional observer callbacks for a data channel before they
/// are registered as a bundle.
pub struct DataChannelObserverBuilder<FS, FM> {
    on_state_change: Option<FS>,
    on_message: Option<FM>,
}

impl DataChannelObserverBuilder<(), ()> {
    /// No callbacks yet.
    pub fn new() -> (r: DataChannelObserverBuilder<(), ()>)
        ensures
            r.spec_has_on_state_change() == false,
            r.spec_has_on_message() == false,
    {
        DataChannelObserverBuilder { on_state_change: None, on_message: None }
    }
}

impl<FS, FM> DataChannelObserverBuilder<FS, FM> {
    /// Whether a state-change callback is collected.
    pub closed spec fn spec_has_on_state_change(self) -> bool {
        self.on_state_change is Some
    }

    /// Whether a message callback is collected.
    pub closed spec fn spec_has_on_message(self) -> bool {
        self.on_message is Some
    }

    /// Installs the state-change callback.
    pub fn on_state_change<G: FnMut()>(self, on_state_change: G) -> (r:
        DataChannelObserverBuilder<G, FM>)
        ensures
            r.spec_has_on_state_change(),
            r.spec_has_on_message() == self.spec_has_on_message(),
    {
        DataChannelObserverBuilder {
            on_state_change: Some(on_state_change),
            on_message: self.on_message,
        }
    }

    /// Installs the message callback.
    pub fn on_message<G: FnMut(&[u8], bool)>(self, on_message: G) -> (r:
        DataChannelObserverBuilder<FS, G>)
        ensures
            r.spec_has_on_message(),
            r.spec_has_on_state_change() == self.spec_has_on_state_change(),
    {
        DataChannelObserverBuilder {
            on_state_change: self.on_state_change,
            on_message: Some(on_message),
        }
    }

    /// Finalizes the collection: allocates the bundle and its trampoline
    /// table and registers both with the native side. Each table slot is
    /// populated exactly when its callback was collected.
    pub fn build(self) -> (r: DataChannelObserver<FS, FM>)
        ensures
            r.spec_has_on_state_change() == self.spec_has_on_state_change(),
            r.spec_has_on_message() == self.spec_has_on_message(),
            !r.spec_freed(),
            r.spec_log().len() == 0,
            crate::bundle::lifecycle_wf(r.spec_lifecycle()),
    {
        DataChannelObserver {
            on_state_change: self.on_state_change,
            on_message: self.on_message,
            lifecycle: BundleLifecycle::register(),
            log: Ghost(Seq::empty()),
        }
    }
}

/// One native call into a data channel observer, as the ghost call log
/// records it: the payload as handed to the slot.
pub enum DataChannelObserverCall {
    StateChange,
    Message { data: Seq<u8>, is_binary: bool },
}

/// A registered data channel observer bundle.
pub struct DataChannelObserver<FS, FM> {
    on_state_change: Option<FS>,
    on_message: Option<FM>,
    lifecycle: BundleLifecycle,
    log: Ghost<Seq<DataChannelObserverCall>>,
}

impl<FS, FM> DataChannelObserver<FS, FM> {
    /// Whether a state-change callback is installed.
    pub closed spec fn spec_has_on_state_change(self) -> bool {
        self.on_state_change is Some
    }

    /// Whether a message callback is installed.
    pub closed spec fn spec_has_on_message(self) -> bool {
        self.on_message is Some
    }

    /// Whether the teardown slot has freed this registration.
    pub closed spec fn spec_freed(self) -> bool {
        self.lifecycle.freed
    }

    /// The lifecycle of this registration.
    pub closed spec fn spec_lifecycle(self) -> BundleLifecycle {
        self.lifecycle
    }

    /// The installed state-change callback, for reasoning about dispatch.
    pub closed spec fn spec_on_state_change(self) -> Option<FS> {
        self.on_state_change
    }

    /// The installed message callback, for reasoning about dispatch.
    pub closed spec fn spec_on_message(self) -> Option<FM> {
        self.on_message
    }

    /// Every dispatch so far, in native call order.
    pub closed spec fn spec_log(self) -> Seq<DataChannelObserverCall> {
        self.log@
    }

    /// The native address of the observer; never null.
    pub fn as_ptr(&self) -> (r: NativePtr)
        ensures
            r == (NativePtr { addr: 1 }),
    {
        NativePtr { addr: 1 }
    }

    /// The reserved teardown slot: the one code path that frees this
    /// registration, effective exactly once.
    pub fn on_destroy(&mut self) -> (freed_now: bool)
        requires
            crate::bundle::lifecycle_wf(old(self).spec_lifecycle()),
        ensures
            freed_now == !old(self).spec_freed(),
            final(self).spec_freed(),
            final(self).spec_log() == old(self).spec_log(),
            final(self).spec_has_on_state_change() == old(self).spec_has_on_state_change(),
            final(self).spec_has_on_message() == old(self).spec_has_on_message(),
            crate::bundle::lifecycle_wf(final(self).spec_lifecycle()),
            final(self).spec_lifecycle().teardowns == 1,
    {
        self.lifecycle.on_destroy()
    }
}

impl<FS: FnMut(), FM> DataChannelObserver<FS, FM> {
    /// The state-change trampoline: logs the call and invokes the
    /// installed callback; an absent slot does nothing, and a freed
    /// bundle is left untouched.
    pub fn dispatch_state_change(&mut self)
        requires
            forall|f: FS| old(self).spec_on_state_change() == Some(f) ==> call_requires(f, ()),
        ensures
            final(self).spec_freed() == old(self).spec_freed(),
            final(self).spec_lifecycle() == old(self).spec_lifecycle(),
            final(self).spec_has_on_state_change() == old(self).spec_has_on_state_change(),
            final(self).spec_has_on_message() == old(self).spec_has_on_message(),
            old(self).spec_freed() ==> *final(self) == *old(self),
            !old(self).spec_freed() ==> final(self).spec_log() == old(self).spec_log().push(
                DataChannelObserverCall::StateChange,
            ),
    {
        if self.lifecycle.freed {
            return ;
        }
        proof {
            self.log@ = self.log@.push(DataChannelObserverCall::StateChange);
        }
        match &mut self.on_state_change {
            Some(f) => {
                f();
            },
            None => {},
        }
    }
}

impl<FS, FM: FnMut(&[u8], bool)> DataChannelObserver<FS, FM> {
    /// The message trampoline: logs the payload as handed over and
    /// invokes the installed callback; an absent slot does nothing, and
    /// a freed bundle is left untouched.
    pub fn dispatch_message(&mut self, data: &[u8], is_binary: bool)
        requires
            forall|f: FM, d: &[u8], b: bool|
                old(self).spec_on_message() == Some(f) ==> call_requires(f, (d, b)),
        ensures
            final(self).spec_freed() == old(self).spec_freed(),
            final(self).spec_lifecycle() == old(self).spec_lifecycle(),
            final(self).spec_has_on_state_change() == old(self).spec_has_on_state_change(),
            final(self).spec_has_on_message() == old(self).spec_has_on_message(),
            old(self).spec_freed() ==> *final(self) == *old(self),
            !old(self).spec_freed() ==> final(self).spec_log() == old(self).spec_log().push(
                (DataChannelObserverCall::Message { data: data@, is_binary }),
            ),
    {
        if self.lifecycle.freed {
            return ;
        }
        proof {
            self.log@ = self.log@.push(
                DataChannelObserverCall::Message { data: data@, is_binary },
            );
        }
        match &mut self.on_message {
            Some(f) => {
                f(data, is_binary);
            },
            None => {},
        }
    }
}

} // verus!
