//! Audio factories, tracks, the audio transport, and the audio device
//! module callback bridge.
//!
//! The device module and the transport are callback bundles: each native
//! call dispatches through exactly one slot, appends one record with the
//! arguments as handed over to the bundle's ghost call log, serves the
//! neutral default for an absent slot, and touches nothing once the
//! reserved teardown slot has freed the registration.

use vstd::prelude::*;
use vstd::string::StrSliceExecFns;

use crate::NativePtr;
use crate::api::environment::Environment;
use crate::api::rtp::MediaStreamTrack;
use crate::bundle::BundleLifecycle;
use crate::error::{Error, RtcResult};

verus! {

/// The builtin audio decoder factory.
pub struct AudioDecoderFactory {
    created: bool,
}

impl AudioDecoderFactory {
    /// The factory with the builtin decoders.
    pub fn builtin() -> (r: AudioDecoderFactory)
        ensures
            r.allocated(),
    {
        AudioDecoderFactory { created: true }
    }

    /// Whether the factory is allocated; it stays allocated for the
    /// value's whole lifetime.
    pub closed spec fn allocated(self) -> bool {
        self.created
    }

    /// The native address of the factory; never null.
    pub fn as_ptr(&self) -> (r: NativePtr)
        ensures
            r == (NativePtr { addr: 1 }),
    {
        NativePtr { addr: 1 }
    }
}

/// The builtin audio encoder factory.
pub struct AudioEncoderFactory {
    created: bool,
}

impl AudioEncoderFactory {
    /// The factory with the builtin encoders.
    pub fn builtin() -> (r: AudioEncoderFactory)
        ensures
            r.allocated(),
    {
        AudioEncoderFactory { created: true }
    }

    /// Whether the factory is allocated; it stays allocated for the
    /// value's whole lifetime.
    pub closed spec fn allocated(self) -> bool {
        self.created
    }

    /// The native address of the factory; never null.
    pub fn as_ptr(&self) -> (r: NativePtr)
        ensures
            r == (NativePtr { addr: 1 }),
    {
        NativePtr { addr: 1 }
    }
}

/// The builder of the builtin audio processing module, exclusively owned
/// until it is handed to the peer connection factory dependencies.
pub struct AudioProcessingBuilder {
    created: bool,
}

impl AudioProcessingBuilder {
    /// The builtin builder.
    pub fn new_builtin() -> (r: AudioProcessingBuilder)
        ensures
            r.allocated(),
    {
        AudioProcessingBuilder { created: true }
    }

    /// Whether the builder is allocated; it stays allocated for the
    /// value's whole lifetime.
    pub closed spec fn allocated(self) -> bool {
        self.created
    }

    /// The native address of the builder; never null.
    pub fn as_ptr(&self) -> (r: NativePtr)
        ensures
            r == (NativePtr { addr: 1 }),
    {
        NativePtr { addr: 1 }
    }

    /// Forfeits ownership to the native consumer.
    pub fn into_raw(self) -> (r: NativePtr)
        ensures
            r == (NativePtr { addr: 1 }),
    {
        NativePtr { addr: 1 }
    }
}

/// The native tag of the platform default audio layer.
pub const AUDIO_LAYER_PLATFORM_DEFAULT: i32 = 0;

/// The native tag of the dummy audio layer.
pub const AUDIO_LAYER_DUMMY: i32 = 10;

/// The audio layer an audio device module is created over.
#[derive(Debug, Clone, Copy, PartialEq, Eq, Structural)]
pub enum AudioDeviceModuleAudioLayer {
    PlatformDefault,
    WindowsCoreAudio,
    WindowsCoreAudio2,
    LinuxAlsaAudio,
    LinuxPulseAudio,
    AndroidJavaAudio,
    AndroidOpenSLESAudio,
    AndroidJavaInputAndOpenSLESOutputAudio,
    AndroidAAudioAudio,
    AndroidJavaInputAndAAudioOutputAudio,
    Dummy,
    Unknown(i32),
}

impl AudioDeviceModuleAudioLayer {
    /// The native tag of this layer.
    pub fn to_int(self) -> (r: i32)
        ensures
            self is PlatformDefault ==> r == AUDIO_LAYER_PLATFORM_DEFAULT,
            self is WindowsCoreAudio ==> r == 1,
            self is WindowsCoreAudio2 ==> r == 2,
            self is LinuxAlsaAudio ==> r == 3,
            self is LinuxPulseAudio ==> r == 4,
            self is AndroidJavaAudio ==> r == 5,
            self is AndroidOpenSLESAudio ==> r == 6,
            self is AndroidJavaInputAndOpenSLESOutputAudio ==> r == 7,
            self is AndroidAAudioAudio ==> r == 8,
            self is AndroidJavaInputAndAAudioOutputAudio ==> r == 9,
            self is Dummy ==> r == AUDIO_LAYER_DUMMY,
            self matches AudioDeviceModuleAudioLayer::Unknown(v) ==> r == v,
    {
        match self {
            AudioDeviceModuleAudioLayer::PlatformDefault => AUDIO_LAYER_PLATFORM_DEFAULT,
            AudioDeviceModuleAudioLayer::WindowsCoreAudio => 1,
            AudioDeviceModuleAudioLayer::WindowsCoreAudio2 => 2,
            AudioDeviceModuleAudioLayer::LinuxAlsaAudio => 3,
            AudioDeviceModuleAudioLayer::LinuxPulseAudio => 4,
            AudioDeviceModuleAudioLayer::AndroidJavaAudio => 5,
            AudioDeviceModuleAudioLayer::AndroidOpenSLESAudio => 6,
            AudioDeviceModuleAudioLayer::AndroidJavaInputAndOpenSLESOutputAudio => 7,
            AudioDeviceModuleAudioLayer::AndroidAAudioAudio => 8,
            AudioDeviceModuleAudioLayer::AndroidJavaInputAndAAudioOutputAudio => 9,
            AudioDeviceModuleAudioLayer::Dummy => AUDIO_LAYER_DUMMY,
            AudioDeviceModuleAudioLayer::Unknown(v) => v,
        }
    }
}

/// Statistics an audio device module reports; durations are carried in
/// whole microseconds.
#[derive(Debug, Clone, Copy, PartialEq, Eq, Structural)]
pub struct AudioDeviceModuleStats {
    pub synthesized_samples_duration_us: u64,
    pub synthesized_samples_events: u64,
    pub total_samples_duration_us: u64,
    pub total_playout_delay_us: u64,
    pub total_samples_count: u64,
}

impl AudioDeviceModuleStats {
    /// All-zero statistics.
    pub fn new() -> (r: AudioDeviceModuleStats)
        ensures
            r == (AudioDeviceModuleStats {
                synthesized_samples_duration_us: 0,
                synthesized_samples_events: 0,
                total_samples_duration_us: 0,
                total_playout_delay_us: 0,
                total_samples_count: 0,
            }),
    {
        AudioDeviceModuleStats {
            synthesized_samples_duration_us: 0,
            synthesized_samples_events: 0,
            total_samples_duration_us: 0,
            total_playout_delay_us: 0,
            total_samples_count: 0,
        }
    }
}

/// The callbacks an audio device module is built from. Every slot is
/// optional: a bundle marks the slots it fills, and dispatch serves the
/// neutral default for the rest.
pub trait AudioDeviceModuleCallbacks: Sized {
    /// Initializes the device module.
    fn init(&mut self) -> i32 {
        0
    }

    /// Terminates the device module.
    fn terminate(&mut self) -> i32 {
        0
    }

    /// Whether the module is initialized.
    fn initialized(&mut self) -> bool {
        false
    }

    /// How many playout devices exist.
    fn playout_devices(&mut self) -> i16 {
        0
    }

    /// How many recording devices exist.
    fn recording_devices(&mut self) -> i16 {
        0
    }

    /// The name and guid of one playout device.
    fn playout_device_name(&mut self, index: u16) -> Option<(String, String)> {
        None
    }

    /// The name and guid of one recording device.
    fn recording_device_name(&mut self, index: u16) -> Option<(String, String)> {
        None
    }

    /// Selects a playout device.
    fn set_playout_device(&mut self, index: u16) -> i32 {
        0
    }

    /// Selects a recording device.
    fn set_recording_device(&mut self, index: u16) -> i32 {
        0
    }

    /// Told whether an audio transport is now registered.
    fn register_audio_callback(&mut self, registered: bool) -> i32 {
        0
    }

    /// Starts playout.
    fn start_playout(&mut self) -> i32 {
        0
    }

    /// Stops playout.
    fn stop_playout(&mut self) -> i32 {
        0
    }

    /// Whether playout is running.
    fn playing(&mut self) -> bool {
        false
    }

    /// Starts recording.
    fn start_recording(&mut self) -> i32 {
        0
    }

    /// Stops recording.
    fn stop_recording(&mut self) -> i32 {
        0
    }

    /// Whether recording is running.
    fn recording(&mut self) -> bool {
        false
    }

    /// The module's statistics, when it keeps them.
    fn get_stats(&mut self) -> Option<AudioDeviceModuleStats> {
        None
    }
}

/// The callbacks of a device module created over a builtin layer: none.
pub struct BuiltinAudioDeviceModuleCallbacks;

impl AudioDeviceModuleCallbacks for BuiltinAudioDeviceModuleCallbacks {

}

/// Which device module slots a bundle fills.
#[derive(Clone, Copy, Debug, PartialEq, Eq, Structural, Default)]
pub struct AudioDeviceModuleSlots {
    pub init: bool,
    pub terminate: bool,
    pub initialized: bool,
    pub playout_devices: bool,
    pub recording_devices: bool,
    pub playout_device_name: bool,
    pub recording_device_name: bool,
    pub set_playout_device: bool,
    pub set_recording_device: bool,
    pub register_audio_callback: bool,
    pub start_playout: bool,
    pub stop_playout: bool,
    pub playing: bool,
    pub start_recording: bool,
    pub stop_recording: bool,
    pub recording: bool,
    pub get_stats: bool,
}

impl AudioDeviceModuleSlots {
    /// No slot filled.
    pub fn none() -> (r: AudioDeviceModuleSlots)
        ensures
            r == no_adm_slots(),
    {
        AudioDeviceModuleSlots {
            init: false,
            terminate: false,
            initialized: false,
            playout_devices: false,
            recording_devices: false,
            playout_device_name: false,
            recording_device_name: false,
            set_playout_device: false,
            set_recording_device: false,
            register_audio_callback: false,
            start_playout: false,
            stop_playout: false,
            playing: false,
            start_recording: false,
            stop_recording: false,
            recording: false,
            get_stats: false,
        }
    }
}

/// The all-absent slot set.
pub open spec fn no_adm_slots() -> AudioDeviceModuleSlots {
    AudioDeviceModuleSlots {
        init: false,
        terminate: false,
        initialized: false,
        playout_devices: false,
        recording_devices: false,
        playout_device_name: false,
        recording_device_name: false,
        set_playout_device: false,
        set_recording_device: false,
        register_audio_callback: false,
        start_playout: false,
        stop_playout: false,
        playing: false,
        start_recording: false,
        stop_recording: false,
        recording: false,
        get_stats: false,
    }
}

/// The longest device name the boundary carries: the native side marshals
/// names through 128-byte buffers, keeping one position for the
/// terminator.
pub const DEVICE_NAME_MAX: usize = 127;

/// A name truncated to what the native marshalling buffer carries.
pub open spec fn marshalled_name(s: Seq<char>) -> Seq<char> {
    if s.len() <= DEVICE_NAME_MAX {
        s
    } else {
        s.subrange(0, DEVICE_NAME_MAX as int)
    }
}

/// Truncates a name to the marshalling limit.
fn marshal_name(s: String) -> (r: String)
    ensures
        r@ == marshalled_name(s@),
{
    let n = s.as_str().unicode_len();
    if n <= DEVICE_NAME_MAX {
        s
    } else {
        let cut = s.as_str().substring_char(0, DEVICE_NAME_MAX);
        cut.to_owned()
    }
}

/// One native call into an audio device module, as the ghost call log
/// records it. Name lookups also record the pair the callback reported,
/// after marshalling.
pub enum AudioDeviceModuleCall {
    Init,
    Terminate,
    Initialized,
    PlayoutDevices,
    RecordingDevices,
    PlayoutDeviceName { index: u16, reported: Option<(Seq<char>, Seq<char>)> },
    RecordingDeviceName { index: u16, reported: Option<(Seq<char>, Seq<char>)> },
    SetPlayoutDevice { index: u16 },
    SetRecordingDevice { index: u16 },
    RegisterAudioCallback { registered: bool },
    StartPlayout,
    StopPlayout,
    Playing,
    StartRecording,
    StopRecording,
    Recording,
    GetStats,
}

/// An audio device module implemented by a callback bundle, or created
/// over a builtin audio layer.
pub struct AudioDeviceModule<C: AudioDeviceModuleCallbacks = BuiltinAudioDeviceModuleCallbacks> {
    callbacks: C,
    slots: AudioDeviceModuleSlots,
    transport_registered: bool,
    lifecycle: BundleLifecycle,
    log: Ghost<Seq<AudioDeviceModuleCall>>,
}

/// Whether two module states agree on everything a dispatch must leave
/// alone: the slots, the transport registration and the lifecycle.
pub open spec fn adm_frame<C: AudioDeviceModuleCallbacks>(
    a: AudioDeviceModule<C>,
    b: AudioDeviceModule<C>,
) -> bool {
    &&& a.spec_slots() == b.spec_slots()
    &&& a.spec_transport_registered() == b.spec_transport_registered()
    &&& a.spec_lifecycle() == b.spec_lifecycle()
    &&& a.spec_freed() == b.spec_freed()
}

impl AudioDeviceModule<BuiltinAudioDeviceModuleCallbacks> {
    /// A device module over a builtin audio layer; never fails for the
    /// layers the model knows.
    pub fn new(env: &Environment, audio_type: AudioDeviceModuleAudioLayer) -> (r: RtcResult<
        AudioDeviceModule<BuiltinAudioDeviceModuleCallbacks>,
    >)
        ensures
            r is Ok,
            !r->Ok_0.spec_freed(),
            r->Ok_0.spec_log().len() == 0,
    {
        Ok(
            AudioDeviceModule {
                callbacks: BuiltinAudioDeviceModuleCallbacks,
                slots: AudioDeviceModuleSlots::none(),
                transport_registered: false,
                lifecycle: BundleLifecycle::register(),
                log: Ghost(Seq::empty()),
            },
        )
    }
}

impl<C: AudioDeviceModuleCallbacks> AudioDeviceModule<C> {
    /// The held callbacks.
    pub closed spec fn spec_callbacks(self) -> C {
        self.callbacks
    }

    /// Which slots the bundle fills.
    pub closed spec fn spec_slots(self) -> AudioDeviceModuleSlots {
        self.slots
    }

    /// Whether an audio transport is registered.
    pub closed spec fn spec_transport_registered(self) -> bool {
        self.transport_registered
    }

    /// Whether the teardown slot has freed this registration.
    pub closed spec fn spec_freed(self) -> bool {
        self.lifecycle.freed
    }

    /// The lifecycle of this registration.
    pub closed spec fn spec_lifecycle(self) -> BundleLifecycle {
        self.lifecycle
    }

    /// Every dispatch so far, in native call order.
    pub closed spec fn spec_log(self) -> Seq<AudioDeviceModuleCall> {
        self.log@
    }

    /// Registers a device module bundle: the callbacks, with the slots
    /// they fill.
    pub fn new_with_callbacks(callbacks: C, slots: AudioDeviceModuleSlots) -> (r:
        AudioDeviceModule<C>)
        ensures
            r.spec_callbacks() == callbacks,
            r.spec_slots() == slots,
            !r.spec_transport_registered(),
            !r.spec_freed(),
            r.spec_log().len() == 0,
            crate::bundle::lifecycle_wf(r.spec_lifecycle()),
    {
        AudioDeviceModule {
            callbacks,
            slots,
            transport_registered: false,
            lifecycle: BundleLifecycle::register(),
            log: Ghost(Seq::empty()),
        }
    }

    /// The payload address of the module; never null.
    pub fn as_ptr(&self) -> (r: NativePtr)
        ensures
            r == (NativePtr { addr: 1 }),
    {
        NativePtr { addr: 1 }
    }

    /// The reference-pointer address of the module; never null.
    pub fn as_refcounted_ptr(&self) -> (r: NativePtr)
        ensures
            r == (NativePtr { addr: 1 }),
    {
        NativePtr { addr: 1 }
    }

    /// The init trampoline: succeeds exactly when the installed callback
    /// reports zero, and always for an absent slot.
    pub fn init(&mut self) -> (r: RtcResult<()>)
        ensures
            adm_frame(*old(self), *final(self)),
            old(self).spec_freed() ==> *final(self) == *old(self) && r is Ok,
            !old(self).spec_freed() ==> final(self).spec_log() == old(self).spec_log().push(
                AudioDeviceModuleCall::Init,
            ),
            !old(self).spec_freed() && !old(self).spec_slots().init ==> r is Ok && final(self).spec_callbacks() == old(self).spec_callbacks(),
    {
        if self.lifecycle.freed {
            return Ok(());
        }
        proof {
            self.log@ = self.log@.push(AudioDeviceModuleCall::Init);
        }
        if self.slots.init {
            let ret = self.callbacks.init();
            if ret != 0 {
                return Err(Error::Message("AudioDeviceModule::Init failed".to_owned()));
            }
        }
        Ok(())
    }

    /// The terminate trampoline: succeeds exactly when the installed
    /// callback reports zero, and always for an absent slot.
    pub fn terminate(&mut self) -> (r: RtcResult<()>)
        ensures
            adm_frame(*old(self), *final(self)),
            old(self).spec_freed() ==> *final(self) == *old(self) && r is Ok,
            !old(self).spec_freed() ==> final(self).spec_log() == old(self).spec_log().push(
                AudioDeviceModuleCall::Terminate,
            ),
            !old(self).spec_freed() && !old(self).spec_slots().terminate ==> r is Ok && final(self).spec_callbacks() == old(self).spec_callbacks(),
    {
        if self.lifecycle.freed {
            return Ok(());
        }
        proof {
            self.log@ = self.log@.push(AudioDeviceModuleCall::Terminate);
        }
        if self.slots.terminate {
            let ret = self.callbacks.terminate();
            if ret != 0 {
                return Err(Error::Message("AudioDeviceModule::Terminate failed".to_owned()));
            }
        }
        Ok(())
    }

    /// The initialized trampoline; an absent slot reports false.
    pub fn initialized(&mut self) -> (r: bool)
        ensures
            adm_frame(*old(self), *final(self)),
            old(self).spec_freed() ==> *final(self) == *old(self) && !r,
            !old(self).spec_freed() ==> final(self).spec_log() == old(self).spec_log().push(
                AudioDeviceModuleCall::Initialized,
            ),
            !old(self).spec_freed() && !old(self).spec_slots().initialized ==> !r && final(self).spec_callbacks() == old(self).spec_callbacks(),
    {
        if self.lifecycle.freed {
            return false;
        }
        proof {
            self.log@ = self.log@.push(AudioDeviceModuleCall::Initialized);
        }
        if self.slots.initialized {
            self.callbacks.initialized()
        } else {
            false
        }
    }

    /// The playout-devices trampoline; an absent slot reports none.
    pub fn playout_devices(&mut self) -> (r: i16)
        ensures
            adm_frame(*old(self), *final(self)),
            old(self).spec_freed() ==> *final(self) == *old(self) && r == 0,
            !old(self).spec_freed() ==> final(self).spec_log() == old(self).spec_log().push(
                AudioDeviceModuleCall::PlayoutDevices,
            ),
            !old(self).spec_freed() && !old(self).spec_slots().playout_devices ==> r == 0
                && final(self).spec_callbacks() == old(self).spec_callbacks(),
    {
        if self.lifecycle.freed {
            return 0;
        }
        proof {
            self.log@ = self.log@.push(AudioDeviceModuleCall::PlayoutDevices);
        }
        if self.slots.playout_devices {
            self.callbacks.playout_devices()
        } else {
            0
        }
    }

    /// The recording-devices trampoline; an absent slot reports none.
    pub fn recording_devices(&mut self) -> (r: i16)
        ensures
            adm_frame(*old(self), *final(self)),
            old(self).spec_freed() ==> *final(self) == *old(self) && r == 0,
            !old(self).spec_freed() ==> final(self).spec_log() == old(self).spec_log().push(
                AudioDeviceModuleCall::RecordingDevices,
            ),
            !old(self).spec_freed() && !old(self).spec_slots().recording_devices ==> r == 0
                && final(self).spec_callbacks() == old(self).spec_callbacks(),
    {
        if self.lifecycle.freed {
            return 0;
        }
        proof {
            self.log@ = self.log@.push(AudioDeviceModuleCall::RecordingDevices);
        }
        if self.slots.recording_devices {
            self.callbacks.recording_devices()
        } else {
            0
        }
    }

    /// The playout-device-name trampoline: marshals the callback's
    /// reported pair through the bounded name buffers, records it, and
    /// succeeds exactly when a pair was reported. An absent slot fails,
    /// as the native default does for a device that does not exist.
    pub fn playout_device_name(&mut self, index: u16) -> (r: RtcResult<(String, String)>)
        ensures
            adm_frame(*old(self), *final(self)),
            old(self).spec_freed() ==> *final(self) == *old(self) && r is Err,
            !old(self).spec_freed() ==> final(self).spec_log().len() == old(self).spec_log().len() + 1 && final(self).spec_log().drop_last() == old(self).spec_log()
                && (final(self).spec_log().last() matches AudioDeviceModuleCall::PlayoutDeviceName {
                index: i,
                reported,
            } && i == index && (match reported {
                Some(p) => r matches Ok(q) && q.0@ == p.0 && q.1@ == p.1 && p.0.len()
                    <= DEVICE_NAME_MAX && p.1.len() <= DEVICE_NAME_MAX,
                None => r is Err,
            })),
            !old(self).spec_freed() && !old(self).spec_slots().playout_device_name ==> r is Err
                && final(self).spec_callbacks() == old(self).spec_callbacks(),
    {
        if self.lifecycle.freed {
            return Err(Error::Message("AudioDeviceModule::PlayoutDeviceName failed".to_owned()));
        }
        if self.slots.playout_device_name {
            match self.callbacks.playout_device_name(index) {
                Some((name, guid)) => {
                    let name = marshal_name(name);
                    let guid = marshal_name(guid);
                    proof {
                        self.log@ = self.log@.push(
                            AudioDeviceModuleCall::PlayoutDeviceName {
                                index,
                                reported: Some((name@, guid@)),
                            },
                        );
                    }
                    Ok((name, guid))
                },
                None => {
                    proof {
                        self.log@ = self.log@.push(
                            AudioDeviceModuleCall::PlayoutDeviceName { index, reported: None },
                        );
                    }
                    Err(Error::Message("AudioDeviceModule::PlayoutDeviceName failed".to_owned()))
                },
            }
        } else {
            proof {
                self.log@ = self.log@.push(
                    AudioDeviceModuleCall::PlayoutDeviceName { index, reported: None },
                );
            }
            Err(Error::Message("AudioDeviceModule::PlayoutDeviceName failed".to_owned()))
        }
    }

    /// The recording-device-name trampoline: marshals the callback's
    /// reported pair through the bounded name buffers, records it, and
    /// succeeds exactly when a pair was reported. An absent slot fails,
    /// as the native default does for a device that does not exist.
    pub fn recording_device_name(&mut self, index: u16) -> (r: RtcResult<(String, String)>)
        ensures
            adm_frame(*old(self), *final(self)),
            old(self).spec_freed() ==> *final(self) == *old(self) && r is Err,
            !old(self).spec_freed() ==> final(self).spec_log().len() == old(self).spec_log().len() + 1 && final(self).spec_log().drop_last() == old(self).spec_log()
                && (final(self).spec_log().last() matches AudioDeviceModuleCall::RecordingDeviceName {
                index: i,
                reported,
            } && i == index && (match reported {
                Some(p) => r matches Ok(q) && q.0@ == p.0 && q.1@ == p.1 && p.0.len()
                    <= DEVICE_NAME_MAX && p.1.len() <= DEVICE_NAME_MAX,
                None => r is Err,
            })),
            !old(self).spec_freed() && !old(self).spec_slots().recording_device_name ==> r is Err
                && final(self).spec_callbacks() == old(self).spec_callbacks(),
    {
        if self.lifecycle.freed {
            return Err(
                Error::Message("AudioDeviceModule::RecordingDeviceName failed".to_owned()),
            );
        }
        if self.slots.recording_device_name {
            match self.callbacks.recording_device_name(index) {
                Some((name, guid)) => {
                    let name = marshal_name(name);
                    let guid = marshal_name(guid);
                    proof {
                        self.log@ = self.log@.push(
                            AudioDeviceModuleCall::RecordingDeviceName {
                                index,
                                reported: Some((name@, guid@)),
                            },
                        );
                    }
                    Ok((name, guid))
                },
                None => {
                    proof {
                        self.log@ = self.log@.push(
                            AudioDeviceModuleCall::RecordingDeviceName { index, reported: None },
                        );
                    }
                    Err(
                        Error::Message(
                            "AudioDeviceModule::RecordingDeviceName failed".to_owned(),
                        ),
                    )
                },
            }
        } else {
            proof {
                self.log@ = self.log@.push(
                    AudioDeviceModuleCall::RecordingDeviceName { index, reported: None },
                );
            }
            Err(Error::Message("AudioDeviceModule::RecordingDeviceName failed".to_owned()))
        }
    }

    /// The set-playout-device trampoline: succeeds exactly when the
    /// installed callback reports zero, and always for an absent slot.
    pub fn set_playout_device(&mut self, index: u16) -> (r: RtcResult<()>)
        ensures
            adm_frame(*old(self), *final(self)),
            old(self).spec_freed() ==> *final(self) == *old(self) && r is Ok,
            !old(self).spec_freed() ==> final(self).spec_log() == old(self).spec_log().push(
                (AudioDeviceModuleCall::SetPlayoutDevice { index }),
            ),
            !old(self).spec_freed() && !old(self).spec_slots().set_playout_device ==> r is Ok
                && final(self).spec_callbacks() == old(self).spec_callbacks(),
    {
        if self.lifecycle.freed {
            return Ok(());
        }
        proof {
            self.log@ = self.log@.push(AudioDeviceModuleCall::SetPlayoutDevice { index });
        }
        if self.slots.set_playout_device {
            let ret = self.callbacks.set_playout_device(index);
            if ret != 0 {
                return Err(
                    Error::Message("AudioDeviceModule::SetPlayoutDevice failed".to_owned()),
                );
            }
        }
        Ok(())
    }

    /// The set-recording-device trampoline: succeeds exactly when the
    /// installed callback reports zero, and always for an absent slot.
    pub fn set_recording_device(&mut self, index: u16) -> (r: RtcResult<()>)
        ensures
            adm_frame(*old(self), *final(self)),
            old(self).spec_freed() ==> *final(self) == *old(self) && r is Ok,
            !old(self).spec_freed() ==> final(self).spec_log() == old(self).spec_log().push(
                (AudioDeviceModuleCall::SetRecordingDevice { index }),
            ),
            !old(self).spec_freed() && !old(self).spec_slots().set_recording_device ==> r is Ok
                && final(self).spec_callbacks() == old(self).spec_callbacks(),
    {
        if self.lifecycle.freed {
            return Ok(());
        }
        proof {
            self.log@ = self.log@.push(AudioDeviceModuleCall::SetRecordingDevice { index });
        }
        if self.slots.set_recording_device {
            let ret = self.callbacks.set_recording_device(index);
            if ret != 0 {
                return Err(
                    Error::Message("AudioDeviceModule::SetRecordingDevice failed".to_owned()),
                );
            }
        }
        Ok(())
    }

    /// The register trampoline: records whether a transport is now
    /// registered and tells the callback.
    pub fn register_audio_callback(&mut self, transport: Option<AudioTransportRef>) -> (r: i32)
        ensures
            final(self).spec_slots() == old(self).spec_slots(),
            final(self).spec_lifecycle() == old(self).spec_lifecycle(),
            final(self).spec_freed() == old(self).spec_freed(),
            old(self).spec_freed() ==> *final(self) == *old(self) && r == 0,
            !old(self).spec_freed() ==> final(self).spec_log() == old(self).spec_log().push(
                (AudioDeviceModuleCall::RegisterAudioCallback {
                    registered: transport is Some,
                }),
            ) && final(self).spec_transport_registered() == (transport is Some),
            !old(self).spec_freed() && !old(self).spec_slots().register_audio_callback ==> r == 0
                && final(self).spec_callbacks() == old(self).spec_callbacks(),
    {
        if self.lifecycle.freed {
            return 0;
        }
        let registered = transport.is_some();
        self.transport_registered = registered;
        proof {
            self.log@ = self.log@.push(
                AudioDeviceModuleCall::RegisterAudioCallback { registered },
            );
        }
        if self.slots.register_audio_callback {
            self.callbacks.register_audio_callback(registered)
        } else {
            0
        }
    }

    /// The start-playout trampoline: succeeds exactly when the installed
    /// callback reports zero, and always for an absent slot.
    pub fn start_playout(&mut self) -> (r: RtcResult<()>)
        ensures
            adm_frame(*old(self), *final(self)),
            old(self).spec_freed() ==> *final(self) == *old(self) && r is Ok,
            !old(self).spec_freed() ==> final(self).spec_log() == old(self).spec_log().push(
                AudioDeviceModuleCall::StartPlayout,
            ),
            !old(self).spec_freed() && !old(self).spec_slots().start_playout ==> r is Ok && final(self).spec_callbacks() == old(self).spec_callbacks(),
    {
        if self.lifecycle.freed {
            return Ok(());
        }
        proof {
            self.log@ = self.log@.push(AudioDeviceModuleCall::StartPlayout);
        }
        if self.slots.start_playout {
            let ret = self.callbacks.start_playout();
            if ret != 0 {
                return Err(Error::Message("AudioDeviceModule::StartPlayout failed".to_owned()));
            }
        }
        Ok(())
    }

    /// The stop-playout trampoline: succeeds exactly when the installed
    /// callback reports zero, and always for an absent slot.
    pub fn stop_playout(&mut self) -> (r: RtcResult<()>)
        ensures
            adm_frame(*old(self), *final(self)),
            old(self).spec_freed() ==> *final(self) == *old(self) && r is Ok,
            !old(self).spec_freed() ==> final(self).spec_log() == old(self).spec_log().push(
                AudioDeviceModuleCall::StopPlayout,
            ),
            !old(self).spec_freed() && !old(self).spec_slots().stop_playout ==> r is Ok && final(self).spec_callbacks() == old(self).spec_callbacks(),
    {
        if self.lifecycle.freed {
            return Ok(());
        }
        proof {
            self.log@ = self.log@.push(AudioDeviceModuleCall::StopPlayout);
        }
        if self.slots.stop_playout {
            let ret = self.callbacks.stop_playout();
            if ret != 0 {
                return Err(Error::Message("AudioDeviceModule::StopPlayout failed".to_owned()));
            }
        }
        Ok(())
    }

    /// The playing trampoline; an absent slot reports false.
    pub fn playing(&mut self) -> (r: bool)
        ensures
            adm_frame(*old(self), *final(self)),
            old(self).spec_freed() ==> *final(self) == *old(self) && !r,
            !old(self).spec_freed() ==> final(self).spec_log() == old(self).spec_log().push(
                AudioDeviceModuleCall::Playing,
            ),
            !old(self).spec_freed() && !old(self).spec_slots().playing ==> !r && final(self).spec_callbacks() == old(self).spec_callbacks(),
    {
        if self.lifecycle.freed {
            return false;
        }
        proof {
            self.log@ = self.log@.push(AudioDeviceModuleCall::Playing);
        }
        if self.slots.playing {
            self.callbacks.playing()
        } else {
            false
        }
    }

    /// The start-recording trampoline: succeeds exactly when the
    /// installed callback reports zero, and always for an absent slot.
    pub fn start_recording(&mut self) -> (r: RtcResult<()>)
        ensures
            adm_frame(*old(self), *final(self)),
            old(self).spec_freed() ==> *final(self) == *old(self) && r is Ok,
            !old(self).spec_freed() ==> final(self).spec_log() == old(self).spec_log().push(
                AudioDeviceModuleCall::StartRecording,
            ),
            !old(self).spec_freed() && !old(self).spec_slots().start_recording ==> r is Ok
                && final(self).spec_callbacks() == old(self).spec_callbacks(),
    {
        if self.lifecycle.freed {
            return Ok(());
        }
        proof {
            self.log@ = self.log@.push(AudioDeviceModuleCall::StartRecording);
        }
        if self.slots.start_recording {
            let ret = self.callbacks.start_recording();
            if ret != 0 {
                return Err(
                    Error::Message("AudioDeviceModule::StartRecording failed".to_owned()),
                );
            }
        }
        Ok(())
    }

    /// The stop-recording trampoline: succeeds exactly when the installed
    /// callback reports zero, and always for an absent slot.
    pub fn stop_recording(&mut self) -> (r: RtcResult<()>)
        ensures
            adm_frame(*old(self), *final(self)),
            old(self).spec_freed() ==> *final(self) == *old(self) && r is Ok,
            !old(self).spec_freed() ==> final(self).spec_log() == old(self).spec_log().push(
                AudioDeviceModuleCall::StopRecording,
            ),
            !old(self).spec_freed() && !old(self).spec_slots().stop_recording ==> r is Ok
                && final(self).spec_callbacks() == old(self).spec_callbacks(),
    {
        if self.lifecycle.freed {
            return Ok(());
        }
        proof {
            self.log@ = self.log@.push(AudioDeviceModuleCall::StopRecording);
        }
        if self.slots.stop_recording {
            let ret = self.callbacks.stop_recording();
            if ret != 0 {
                return Err(Error::Message("AudioDeviceModule::StopRecording failed".to_owned()));
            }
        }
        Ok(())
    }

    /// The recording trampoline; an absent slot reports false.
    pub fn recording(&mut self) -> (r: bool)
        ensures
            adm_frame(*old(self), *final(self)),
            old(self).spec_freed() ==> *final(self) == *old(self) && !r,
            !old(self).spec_freed() ==> final(self).spec_log() == old(self).spec_log().push(
                AudioDeviceModuleCall::Recording,
            ),
            !old(self).spec_freed() && !old(self).spec_slots().recording ==> !r && final(self).spec_callbacks() == old(self).spec_callbacks(),
    {
        if self.lifecycle.freed {
            return false;
        }
        proof {
            self.log@ = self.log@.push(AudioDeviceModuleCall::Recording);
        }
        if self.slots.recording {
            self.callbacks.recording()
        } else {
            false
        }
    }

    /// The stats trampoline; an absent slot reports nothing.
    pub fn get_stats(&mut self) -> (r: Option<AudioDeviceModuleStats>)
        ensures
            adm_frame(*old(self), *final(self)),
            old(self).spec_freed() ==> *final(self) == *old(self) && r is None,
            !old(self).spec_freed() ==> final(self).spec_log() == old(self).spec_log().push(
                AudioDeviceModuleCall::GetStats,
            ),
            !old(self).spec_freed() && !old(self).spec_slots().get_stats ==> r is None && final(self).spec_callbacks() == old(self).spec_callbacks(),
    {
        if self.lifecycle.freed {
            return None;
        }
        proof {
            self.log@ = self.log@.push(AudioDeviceModuleCall::GetStats);
        }
        if self.slots.get_stats {
            self.callbacks.get_stats()
        } else {
            None
        }
    }

    /// The reserved teardown slot: the one code path that frees this
    /// registration, effective exactly once.
    pub fn on_destroy(&mut self) -> (freed_now: bool)
        requires
            crate::bundle::lifecycle_wf(old(self).spec_lifecycle()),
        ensures
            freed_now == !old(self).spec_freed(),
            final(self).spec_freed(),
            final(self).spec_log() == old(self).spec_log(),
            final(self).spec_callbacks() == old(self).spec_callbacks(),
            crate::bundle::lifecycle_wf(final(self).spec_lifecycle()),
            final(self).spec_lifecycle().teardowns == 1,
    {
        self.lifecycle.on_destroy()
    }
}

/// The callbacks an audio transport is built from. Buffers cross the
/// boundary as plain byte vectors.
pub trait AudioTransportCallbacks: Sized {
    /// Recorded audio is available; may update the microphone level.
    fn recorded_data_is_available(
        &mut self,
        audio_samples: &[u8],
        n_samples: usize,
        n_bytes_per_sample: usize,
        n_channels: usize,
        samples_per_sec: u32,
        total_delay_ms: u32,
        clock_drift: i32,
        current_mic_level: u32,
        key_pressed: bool,
        new_mic_level: &mut u32,
        estimated_capture_time_ns: Option<i64>,
    ) -> i32 {
        0
    }

    /// Playout needs more data; fills the buffer and reports how many
    /// samples were written.
    fn need_more_play_data(
        &mut self,
        n_samples: usize,
        n_bytes_per_sample: usize,
        n_channels: usize,
        samples_per_sec: u32,
        audio_samples: &mut Vec<u8>,
        n_samples_out: &mut usize,
    ) -> i32 {
        0
    }

    /// A renderer pulls data directly.
    fn pull_render_data(
        &mut self,
        bits_per_sample: i32,
        sample_rate: i32,
        number_of_channels: usize,
        number_of_frames: usize,
        audio_data: &mut Vec<u8>,
    ) {
    }
}

/// Which transport slots a bundle fills.
#[derive(Clone, Copy, Debug, PartialEq, Eq, Structural, Default)]
pub struct AudioTransportSlots {
    pub recorded_data_is_available: bool,
    pub need_more_play_data: bool,
    pub pull_render_data: bool,
}

/// One native call into an audio transport, as the ghost call log records
/// it: the samples and parameters exactly as handed over.
pub enum AudioTransportCall {
    RecordedData {
        audio_samples: Seq<u8>,
        n_samples: usize,
        n_bytes_per_sample: usize,
        n_channels: usize,
        samples_per_sec: u32,
        total_delay_ms: u32,
        clock_drift: i32,
        current_mic_level: u32,
        key_pressed: bool,
        estimated_capture_time_ns: Option<i64>,
    },
    NeedMorePlayData {
        n_samples: usize,
        n_bytes_per_sample: usize,
        n_channels: usize,
        samples_per_sec: u32,
    },
    PullRenderData {
        bits_per_sample: i32,
        sample_rate: i32,
        number_of_channels: usize,
        number_of_frames: usize,
    },
}

/// An audio transport implemented by a callback bundle.
pub struct AudioTransport<C: AudioTransportCallbacks> {
    callbacks: C,
    slots: AudioTransportSlots,
    lifecycle: BundleLifecycle,
    log: Ghost<Seq<AudioTransportCall>>,
}

impl<C: AudioTransportCallbacks> AudioTransport<C> {
    /// Which slots the bundle fills.
    pub closed spec fn spec_slots(self) -> AudioTransportSlots {
        self.slots
    }

    /// Whether the teardown slot has freed this registration.
    pub closed spec fn spec_freed(self) -> bool {
        self.lifecycle.freed
    }

    /// The lifecycle of this registration.
    pub closed spec fn spec_lifecycle(self) -> BundleLifecycle {
        self.lifecycle
    }

    /// Every dispatch so far, in native call order.
    pub closed spec fn spec_log(self) -> Seq<AudioTransportCall> {
        self.log@
    }

    /// Registers a transport bundle: the callbacks, with the slots they
    /// fill.
    pub fn new(callbacks: C, slots: AudioTransportSlots) -> (r: AudioTransport<C>)
        ensures
            r.spec_slots() == slots,
            !r.spec_freed(),
            r.spec_log().len() == 0,
            crate::bundle::lifecycle_wf(r.spec_lifecycle()),
    {
        AudioTransport {
            callbacks,
            slots,
            lifecycle: BundleLifecycle::register(),
            log: Ghost(Seq::empty()),
        }
    }

    /// A borrow-only view of the transport.
    pub fn as_ref(&self) -> (r: AudioTransportRef)
        ensures
            r.spec_registered(),
    {
        AudioTransportRef { registered: true }
    }

    /// The recorded-data trampoline: logs the captured samples and
    /// parameters exactly as handed over and dispatches the slot; an
    /// absent slot reports success without touching the level.
    pub fn recorded_data_is_available(
        &mut self,
        audio_samples: &[u8],
        n_samples: usize,
        n_bytes_per_sample: usize,
        n_channels: usize,
        samples_per_sec: u32,
        total_delay_ms: u32,
        clock_drift: i32,
        current_mic_level: u32,
        key_pressed: bool,
        new_mic_level: &mut u32,
        estimated_capture_time_ns: Option<i64>,
    ) -> (r: i32)
        ensures
            final(self).spec_freed() == old(self).spec_freed(),
            final(self).spec_slots() == old(self).spec_slots(),
            final(self).spec_lifecycle() == old(self).spec_lifecycle(),
            old(self).spec_freed() ==> *final(self) == *old(self) && r == 0 && *final(new_mic_level)
                == *old(new_mic_level),
            !old(self).spec_freed() ==> final(self).spec_log() == old(self).spec_log().push(
                (AudioTransportCall::RecordedData {
                    audio_samples: audio_samples@,
                    n_samples,
                    n_bytes_per_sample,
                    n_channels,
                    samples_per_sec,
                    total_delay_ms,
                    clock_drift,
                    current_mic_level,
                    key_pressed,
                    estimated_capture_time_ns,
                }),
            ),
            !old(self).spec_freed() && !old(self).spec_slots().recorded_data_is_available ==> r
                == 0 && *final(new_mic_level) == *old(new_mic_level),
    {
        if self.lifecycle.freed {
            return 0;
        }
        proof {
            self.log@ = self.log@.push(
                AudioTransportCall::RecordedData {
                    audio_samples: audio_samples@,
                    n_samples,
                    n_bytes_per_sample,
                    n_channels,
                    samples_per_sec,
                    total_delay_ms,
                    clock_drift,
                    current_mic_level,
                    key_pressed,
                    estimated_capture_time_ns,
                },
            );
        }
        if self.slots.recorded_data_is_available {
            self.callbacks.recorded_data_is_available(
                audio_samples,
                n_samples,
                n_bytes_per_sample,
                n_channels,
                samples_per_sec,
                total_delay_ms,
                clock_drift,
                current_mic_level,
                key_pressed,
                new_mic_level,
                estimated_capture_time_ns,
            )
        } else {
            0
        }
    }

    /// The playout trampoline: logs the request and hands the output
    /// buffer to the slot; an absent slot reports success and writes
    /// nothing.
    pub fn need_more_play_data(
        &mut self,
        n_samples: usize,
        n_bytes_per_sample: usize,
        n_channels: usize,
        samples_per_sec: u32,
        audio_samples: &mut Vec<u8>,
        n_samples_out: &mut usize,
    ) -> (r: i32)
        ensures
            final(self).spec_freed() == old(self).spec_freed(),
            final(self).spec_slots() == old(self).spec_slots(),
            final(self).spec_lifecycle() == old(self).spec_lifecycle(),
            old(self).spec_freed() ==> *final(self) == *old(self) && r == 0 && final(audio_samples)@
                == old(audio_samples)@ && *final(n_samples_out) == *old(n_samples_out),
            !old(self).spec_freed() ==> final(self).spec_log() == old(self).spec_log().push(
                (AudioTransportCall::NeedMorePlayData {
                    n_samples,
                    n_bytes_per_sample,
                    n_channels,
                    samples_per_sec,
                }),
            ),
            !old(self).spec_freed() && !old(self).spec_slots().need_more_play_data ==> r == 0
                && final(audio_samples)@ == old(audio_samples)@ && *final(n_samples_out) == *old(n_samples_out),
    {
        if self.lifecycle.freed {
            return 0;
        }
        proof {
            self.log@ = self.log@.push(
                AudioTransportCall::NeedMorePlayData {
                    n_samples,
                    n_bytes_per_sample,
                    n_channels,
                    samples_per_sec,
                },
            );
        }
        if self.slots.need_more_play_data {
            self.callbacks.need_more_play_data(
                n_samples,
                n_bytes_per_sample,
                n_channels,
                samples_per_sec,
                audio_samples,
                n_samples_out,
            )
        } else {
            0
        }
    }

    /// The render trampoline: logs the request and hands the render
    /// buffer to the slot; an absent slot writes nothing.
    pub fn pull_render_data(
        &mut self,
        bits_per_sample: i32,
        sample_rate: i32,
        number_of_channels: usize,
        number_of_frames: usize,
        audio_data: &mut Vec<u8>,
    )
        ensures
            final(self).spec_freed() == old(self).spec_freed(),
            final(self).spec_slots() == old(self).spec_slots(),
            final(self).spec_lifecycle() == old(self).spec_lifecycle(),
            old(self).spec_freed() ==> *final(self) == *old(self) && final(audio_data)@ == old(audio_data)@,
            !old(self).spec_freed() ==> final(self).spec_log() == old(self).spec_log().push(
                (AudioTransportCall::PullRenderData {
                    bits_per_sample,
                    sample_rate,
                    number_of_channels,
                    number_of_frames,
                }),
            ),
            !old(self).spec_freed() && !old(self).spec_slots().pull_render_data ==> final(audio_data)@
                == old(audio_data)@,
    {
        if self.lifecycle.freed {
            return ;
        }
        proof {
            self.log@ = self.log@.push(
                AudioTransportCall::PullRenderData {
                    bits_per_sample,
                    sample_rate,
                    number_of_channels,
                    number_of_frames,
                },
            );
        }
        if self.slots.pull_render_data {
            self.callbacks.pull_render_data(
                bits_per_sample,
                sample_rate,
                number_of_channels,
                number_of_frames,
                audio_data,
            );
        }
    }

    /// The reserved teardown slot: the one code path that frees this
    /// registration, effective exactly once.
    pub fn on_destroy(&mut self) -> (freed_now: bool)
        requires
            crate::bundle::lifecycle_wf(old(self).spec_lifecycle()),
        ensures
            freed_now == !old(self).spec_freed(),
            final(self).spec_freed(),
            final(self).spec_log() == old(self).spec_log(),
            crate::bundle::lifecycle_wf(final(self).spec_lifecycle()),
            final(self).spec_lifecycle().teardowns == 1,
    {
        self.lifecycle.on_destroy()
    }
}

/// A non-owning view of an audio transport, the shape in which the native
/// side hands a transport to the register slot. The capability it stands
/// for must not be invoked after the transport's teardown; the invoke
/// path reaches the transport it was taken from.
#[derive(Debug, Clone, Copy)]
pub struct AudioTransportRef {
    registered: bool,
}

impl AudioTransportRef {
    /// Whether the view names a registered transport.
    pub closed spec fn spec_registered(self) -> bool {
        self.registered
    }

    /// The native address of the transport; never null.
    pub fn as_ptr(&self) -> (r: NativePtr)
        ensures
            r == (NativePtr { addr: 1 }),
    {
        NativePtr { addr: 1 }
    }

    /// Invokes the recorded-data slot through the capability, against the
    /// transport the view was taken from; the owner's clauses apply.
    pub fn recorded_data_is_available<C: AudioTransportCallbacks>(
        &self,
        transport: &mut AudioTransport<C>,
        audio_samples: &[u8],
        n_samples: usize,
        n_bytes_per_sample: usize,
        n_channels: usize,
        samples_per_sec: u32,
        total_delay_ms: u32,
        clock_drift: i32,
        current_mic_level: u32,
        key_pressed: bool,
        new_mic_level: &mut u32,
        estimated_capture_time_ns: Option<i64>,
    ) -> (r: i32)
        requires
            self.spec_registered(),
            !old(transport).spec_freed(),
        ensures
            final(transport).spec_freed() == old(transport).spec_freed(),
            final(transport).spec_slots() == old(transport).spec_slots(),
            final(transport).spec_lifecycle() == old(transport).spec_lifecycle(),
            final(transport).spec_log() == old(transport).spec_log().push(
                (AudioTransportCall::RecordedData {
                    audio_samples: audio_samples@,
                    n_samples,
                    n_bytes_per_sample,
                    n_channels,
                    samples_per_sec,
                    total_delay_ms,
                    clock_drift,
                    current_mic_level,
                    key_pressed,
                    estimated_capture_time_ns,
                }),
            ),
            !old(transport).spec_slots().recorded_data_is_available ==> r == 0 && *final(new_mic_level)
                == *old(new_mic_level),
    {
        transport.recorded_data_is_available(
            audio_samples,
            n_samples,
            n_bytes_per_sample,
            n_channels,
            samples_per_sec,
            total_delay_ms,
            clock_drift,
            current_mic_level,
            key_pressed,
            new_mic_level,
            estimated_capture_time_ns,
        )
    }
}

/// An audio track source handle.
pub struct AudioTrackSource {
    created: bool,
}

impl AudioTrackSource {
    /// A fresh source.
    pub fn new() -> (r: AudioTrackSource)
        ensures
            r.allocated(),
    {
        AudioTrackSource { created: true }
    }

    /// Whether the source is allocated; it stays allocated for the value's
    /// whole lifetime.
    pub closed spec fn allocated(self) -> bool {
        self.created
    }

    /// The payload address of the source; never null.
    pub fn as_ptr(&self) -> (r: NativePtr)
        ensures
            r == (NativePtr { addr: 1 }),
    {
        NativePtr { addr: 1 }
    }

    /// The reference-pointer address of the source; never null.
    pub fn as_refcounted_ptr(&self) -> (r: NativePtr)
        ensures
            r == (NativePtr { addr: 1 }),
    {
        NativePtr { addr: 1 }
    }
}

/// An audio track: its id.
pub struct AudioTrack {
    track_id: String,
}

impl AudioTrack {
    /// A track with the given id.
    pub fn new(id: &str) -> (r: AudioTrack)
        ensures
            r.spec_id() == id@,
    {
        AudioTrack { track_id: id.to_owned() }
    }

    /// The id of the track.
    pub closed spec fn spec_id(self) -> Seq<char> {
        self.track_id@
    }

    /// The track viewed as a media stream track: one more shared owner.
    pub fn cast_to_media_stream_track(&self) -> (r: MediaStreamTrack)
        ensures
            r.spec_kind() == "audio"@,
            r.spec_id() == self.spec_id(),
    {
        MediaStreamTrack::new("audio", self.track_id.as_str())
    }
}

} // verus!
