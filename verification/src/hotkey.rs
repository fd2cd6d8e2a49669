use vstd::prelude::*;

use crate::string::ObsString;

verus! {

/// One press or release of a registered hotkey, as the host reports it.
#[derive(Debug, Clone, Copy, PartialEq, Eq)]
pub struct Hotkey {
    /// The id under which the host registered the hotkey.
    pub id: u64,
    pub pressed: bool,
}

impl Hotkey {
    pub fn from_raw(id: u64, pressed: bool) -> (r: Self)
        ensures
            r == (Hotkey { id, pressed }),
    {
        Self { id, pressed }
    }

    /// The id under which the host registered the hotkey.
    pub fn id(&self) -> (r: u64)
        ensures
            r == self.id,
    {
        self.id
    }
}

/// What a plugin unit wants done when one of its hotkeys fires.
///
/// `fired` relates the callback and the unit's state before a call of `fire`
/// to both after it; the bridge promises of a dispatch exactly what `fired`
/// says of the one call it makes. A callback that does not say what it
/// does may do anything.
pub trait HotkeyCallback<D>: Sized {
    open spec fn fired(pre: Self, hotkey: Hotkey, data: D, post: Self, post_data: D) -> bool {
        true
    }

    fn fire(&mut self, hotkey: &mut Hotkey, data: &mut D)
        ensures
            Self::fired(*old(self), *old(hotkey), *old(data), *final(self), *final(data)),
    ;
}

/// A hotkey that a unit asked for while it was being created: name,
/// description and callback, in the order of the requests.
pub type HotkeyCallbacks<C> = Vec<(ObsString, ObsString, C)>;

} // verus!
