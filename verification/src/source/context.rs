use vstd::prelude::*;

use crate::data::DataObj;
use crate::media::AudioRef;
use crate::string::ObsString;

verus! {

/// Proof of being inside a call from the host.
#[derive(Debug)]
pub struct GlobalContext;

/// Proof of being inside a call from the host that may draw.
#[derive(Debug)]
pub struct VideoRenderContext;

/// Proof of being inside a call from the host that mixes audio.
#[derive(Debug)]
pub struct AudioRenderContext {}

/// Proof of being inside a call from the host that asks for properties.
#[derive(Debug)]
pub struct PropertiesContext {}

impl GlobalContext {
    /// Calls `func` with a handle on the audio output of the host, which
    /// sits at `audio`, and hands on what it returns.
    pub fn with_audio<T, F: FnOnce(&AudioRef) -> T>(&self, audio: usize, func: F) -> (r: T)
        requires
            func.requires((&AudioRef { pointer: audio },)),
        ensures
            func.ensures((&AudioRef { pointer: audio },), r),
    {
        let audio = AudioRef::from_raw(audio);
        func(&audio)
    }
}

impl Default for VideoRenderContext {
    fn default() -> Self {
        Self
    }
}

impl Default for GlobalContext {
    fn default() -> Self {
        Self
    }
}

/// What a unit is given while it creates an instance: the settings of the
/// new instance, to read, and a way to ask for hotkeys.
pub struct CreatableSourceContext<'a, C> {
    hotkey_callbacks: Vec<(ObsString, ObsString, C)>,
    settings: &'a DataObj,
}

impl<'a, C> CreatableSourceContext<'a, C> {
    /// The hotkeys asked for so far, in the order of the requests.
    pub closed spec fn hotkeys(&self) -> Seq<(ObsString, ObsString, C)> {
        self.hotkey_callbacks@
    }

    /// The settings of the new instance.
    pub closed spec fn spec_settings(&self) -> DataObj {
        *self.settings
    }

    /// A context over `settings` in which no hotkey has been asked for.
    pub fn from_raw(settings: &'a DataObj) -> (r: Self)
        ensures
            r.hotkeys() == Seq::<(ObsString, ObsString, C)>::empty(),
            r.spec_settings() == *settings,
    {
        Self { hotkey_callbacks: Vec::new(), settings }
    }

    /// The settings of the new instance.
    pub fn settings(&self) -> (r: &'a DataObj)
        ensures
            *r == self.spec_settings(),
    {
        self.settings
    }

    /// Asks for a hotkey. The host registers it once the instance exists.
    pub fn register_hotkey(&mut self, name: ObsString, description: ObsString, func: C)
        ensures
            final(self).hotkeys() == old(self).hotkeys().push((name, description, func)),
            final(self).spec_settings() == old(self).spec_settings(),
    {
        self.hotkey_callbacks.push((name, description, func));
    }

    /// Calls `func` with a handle on the audio output of the host, which
    /// sits at `audio`, and hands on what it returns.
    pub fn with_audio<T, F: FnOnce(&AudioRef) -> T>(&self, audio: usize, func: F) -> (r: T)
        requires
            func.requires((&AudioRef { pointer: audio },)),
        ensures
            func.ensures((&AudioRef { pointer: audio },), r),
    {
        let global = GlobalContext;
        global.with_audio(audio, func)
    }

    /// Ends the context and hands over the hotkeys that were asked for.
    pub fn into_callbacks(self) -> (r: Vec<(ObsString, ObsString, C)>)
        ensures
            r@ == self.hotkeys(),
    {
        self.hotkey_callbacks
    }
}

} // verus!
