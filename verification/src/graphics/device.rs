use vstd::prelude::*;

use super::guard::{GraphicsLock, LockEvent, LockView};
use super::{GraphicsColorFormat, GraphicsSamplerInfo, ShaderParamType};
use crate::native_enum::NativeParsingError;
use crate::result::{Error, Result};
use crate::string::{ObsString, TryIntoObsString};
use crate::wrapper::{without_ref, NativeObjects};

verus! {

/// The graphics device as the bridge sees it: its lock, the objects that
/// live on it, and a count of the calls that tried to change it from
/// outside the lock.
///
/// Every call that makes or ends an object has to come from the thread
/// that is inside. A call from anywhere else is refused and counted.
pub struct GraphicsDevice {
    lock: GraphicsLock,
    objects: NativeObjects,
    issued: usize,
    violations: u64,
}

impl GraphicsDevice {
    /// The lock as a plain value.
    pub closed spec fn lock(&self) -> LockView {
        self.lock@
    }

    /// The live objects by address, each with its number of references.
    pub closed spec fn objects(&self) -> Map<usize, u64> {
        self.objects@
    }

    /// The greatest address that an object has had; zero before the first.
    pub closed spec fn issued(&self) -> usize {
        self.issued
    }

    /// The number of calls that were refused for coming from outside the
    /// lock. The count stops at the greatest number it can hold.
    pub closed spec fn violations(&self) -> u64 {
        self.violations
    }

    /// Every live object has one of the addresses that were given out.
    pub closed spec fn wf(&self) -> bool {
        &&& self.objects.wf()
        &&& forall|p: usize| self.objects@.contains_key(p) ==> p <= self.issued
    }

    /// The next address is fresh, and none is null.
    pub proof fn lemma_wf(&self)
        requires
            self.wf(),
        ensures
            !self.objects().contains_key(0),
            self.lock().wf(),
            forall|p: usize| self.objects().contains_key(p) ==> 0 < p <= self.issued(),
    {
        self.lock.lemma_wf();
    }

    /// A device without objects whose lock is free.
    pub fn new() -> (r: Self)
        ensures
            r.wf(),
            r.lock() == LockView::free(),
            r.objects() == Map::<usize, u64>::empty(),
            r.issued() == 0,
            r.violations() == 0,
    {
        GraphicsDevice {
            lock: GraphicsLock::new(),
            objects: NativeObjects::new(),
            issued: 0,
            violations: 0,
        }
    }

    /// Enters the device for `thread`, as [`GraphicsLock::try_enter`] does.
    pub fn try_enter(&mut self, thread: u64) -> (entered: bool)
        requires
            old(self).wf(),
        ensures
            final(self).wf(),
            entered == old(self).lock().accepts(LockEvent::Enter(thread)),
            final(self).lock() == old(self).lock().after(LockEvent::Enter(thread)),
            final(self).objects() == old(self).objects(),
            final(self).issued() == old(self).issued(),
            final(self).violations() == old(self).violations(),
    {
        self.lock.try_enter(thread)
    }

    /// Leaves the device for `thread`, as [`GraphicsLock::leave`] does.
    pub fn leave(&mut self, thread: u64) -> (left: bool)
        requires
            old(self).wf(),
        ensures
            final(self).wf(),
            left == old(self).lock().accepts(LockEvent::Leave(thread)),
            final(self).lock() == old(self).lock().after(LockEvent::Leave(thread)),
            final(self).objects() == old(self).objects(),
            final(self).issued() == old(self).issued(),
            final(self).violations() == old(self).violations(),
    {
        self.lock.leave(thread)
    }

    /// Whether an object lives at `ptr`.
    pub fn is_live(&self, ptr: usize) -> (r: bool)
        ensures
            r == self.objects().contains_key(ptr),
    {
        self.objects.contains(ptr)
    }

    /// The number of calls refused so far for coming from outside the lock.
    pub fn violation_count(&self) -> (r: u64)
        ensures
            r == self.violations(),
    {
        self.violations
    }

    /// Whether `thread` is inside the device.
    pub fn is_active(&self, thread: u64) -> (r: bool)
        ensures
            r == self.lock().held_by(thread),
    {
        self.lock.is_active(thread)
    }

    fn flag(&mut self)
        requires
            old(self).wf(),
        ensures
            final(self).wf(),
            final(self).lock() == old(self).lock(),
            final(self).objects() == old(self).objects(),
            final(self).issued() == old(self).issued(),
            final(self).violations() == if old(self).violations() < u64::MAX {
                (old(self).violations() + 1) as u64
            } else {
                u64::MAX
            },
    {
        if self.violations < u64::MAX {
            self.violations = self.violations + 1;
        }
    }

    /// Makes an object on the device and returns its address. The call has
    /// to come from the thread that is inside: from any other it is refused
    /// and counted. Nothing is made, either, once the device has run out
    /// of addresses.
    pub fn create_object(&mut self, thread: u64) -> (r: Option<usize>)
        requires
            old(self).wf(),
        ensures
            final(self).wf(),
            final(self).lock() == old(self).lock(),
            r is Some <==> old(self).lock().held_by(thread) && old(self).issued() < usize::MAX,
            r matches Some(ptr) ==> ptr == old(self).issued() + 1 && final(self).issued() == ptr
                && final(self).objects() == old(self).objects().insert(ptr, 1),
            r is None ==> final(self).objects() == old(self).objects() && final(self).issued()
                == old(self).issued(),
            final(self).violations() == if old(self).lock().held_by(thread) {
                old(self).violations()
            } else if old(self).violations() < u64::MAX {
                (old(self).violations() + 1) as u64
            } else {
                u64::MAX
            },
    {
        if !self.lock.is_active(thread) {
            self.flag();
            return None;
        }
        if self.issued == usize::MAX {
            return None;
        }
        let ptr = self.issued + 1;
        self.issued = ptr;
        let made = self.objects.create(ptr);
        assert(made);
        Some(ptr)
    }

    /// Takes in an object that the host has made at `raw`, with the one
    /// reference that its maker holds, and says whether it did. Nothing is
    /// taken in for the null address, which is how the host says that it
    /// made nothing, nor for an address that is in use. The call has to
    /// come from the thread that is inside: from any other it is refused
    /// and counted.
    pub fn adopt_object(&mut self, thread: u64, raw: usize) -> (adopted: bool)
        requires
            old(self).wf(),
        ensures
            final(self).wf(),
            final(self).lock() == old(self).lock(),
            adopted == (raw != 0 && old(self).lock().held_by(thread) && !old(self).objects().contains_key(raw)),
            final(self).objects() == if adopted {
                old(self).objects().insert(raw, 1)
            } else {
                old(self).objects()
            },
            final(self).issued() == if adopted && raw > old(self).issued() {
                raw
            } else {
                old(self).issued()
            },
            final(self).violations() == if old(self).lock().held_by(thread) {
                old(self).violations()
            } else if old(self).violations() < u64::MAX {
                (old(self).violations() + 1) as u64
            } else {
                u64::MAX
            },
    {
        if !self.lock.is_active(thread) {
            self.flag();
            return false;
        }
        if !self.objects.create(raw) {
            return false;
        }
        if raw > self.issued {
            self.issued = raw;
        }
        true
    }

    /// Ends the object at `ptr` and says whether there was one. The call
    /// has to come from the thread that is inside: from any other it is
    /// refused and counted.
    pub fn destroy_object(&mut self, thread: u64, ptr: usize) -> (destroyed: bool)
        requires
            old(self).wf(),
        ensures
            final(self).wf(),
            final(self).lock() == old(self).lock(),
            final(self).issued() == old(self).issued(),
            destroyed == (old(self).lock().held_by(thread) && old(self).objects().contains_key(
                ptr,
            )),
            final(self).objects() == if old(self).lock().held_by(thread) {
                without_ref(old(self).objects(), ptr)
            } else {
                old(self).objects()
            },
            final(self).violations() == if old(self).lock().held_by(thread) {
                old(self).violations()
            } else if old(self).violations() < u64::MAX {
                (old(self).violations() + 1) as u64
            } else {
                u64::MAX
            },
    {
        if !self.lock.is_active(thread) {
            self.flag();
            return false;
        }
        self.objects.release(ptr)
    }

    /// Makes an object from wherever `thread` stands: enters, makes the
    /// object and leaves again. Nothing is made while the thread has to
    /// wait or once the device has run out of addresses.
    pub fn create_guarded(&mut self, thread: u64) -> (r: Option<usize>)
        requires
            old(self).wf(),
        ensures
            final(self).wf(),
            final(self).lock() == if old(self).lock().accepts(LockEvent::Enter(thread)) {
                old(self).lock().passed()
            } else {
                old(self).lock()
            },
            final(self).violations() == old(self).violations(),
            r is Some <==> old(self).lock().accepts(LockEvent::Enter(thread)) && old(self).issued()
                < usize::MAX,
            r matches Some(ptr) ==> ptr == old(self).issued() + 1 && final(self).issued() == ptr
                && final(self).objects() == old(self).objects().insert(ptr, 1),
            r is None ==> final(self).objects() == old(self).objects() && final(self).issued()
                == old(self).issued(),
    {
        proof {
            self.lock.lemma_wf();
        }
        if !self.lock.try_enter(thread) {
            return None;
        }
        let r = self.create_object(thread);
        self.lock.leave(thread);
        r
    }

    /// Ends the object at `ptr` from wherever `thread` stands: enters, ends
    /// the object and leaves again. Says whether an object was ended;
    /// nothing is ended while the thread has to wait.
    pub fn destroy_guarded(&mut self, thread: u64, ptr: usize) -> (destroyed: bool)
        requires
            old(self).wf(),
        ensures
            final(self).wf(),
            final(self).lock() == if old(self).lock().accepts(LockEvent::Enter(thread)) {
                old(self).lock().passed()
            } else {
                old(self).lock()
            },
            final(self).violations() == old(self).violations(),
            final(self).issued() == old(self).issued(),
            destroyed == (old(self).lock().accepts(LockEvent::Enter(thread)) && old(self).objects().contains_key(ptr)),
            final(self).objects() == if old(self).lock().accepts(LockEvent::Enter(thread)) {
                without_ref(old(self).objects(), ptr)
            } else {
                old(self).objects()
            },
    {
        proof {
            self.lock.lemma_wf();
        }
        if !self.lock.try_enter(thread) {
            return false;
        }
        let destroyed = self.destroy_object(thread, ptr);
        self.lock.leave(thread);
        destroyed
    }
}

/// A texture on the device, owned by this handle alone: the handle cannot
/// be cloned, and ending it ends the texture.
#[derive(Debug)]
pub struct GraphicsTexture {
    raw: usize,
    width: u32,
    height: u32,
    format: GraphicsColorFormat,
}

impl GraphicsTexture {
    /// The address of the texture.
    pub closed spec fn addr(&self) -> usize {
        self.raw
    }

    pub closed spec fn spec_width(&self) -> u32 {
        self.width
    }

    pub closed spec fn spec_height(&self) -> u32 {
        self.height
    }

    pub closed spec fn spec_format(&self) -> GraphicsColorFormat {
        self.format
    }

    /// Makes a texture of `width` by `height` pixels. The handle enters
    /// the device on its own. Nothing comes back where the device makes no
    /// texture.
    pub fn new(
        device: &mut GraphicsDevice,
        thread: u64,
        width: u32,
        height: u32,
        format: GraphicsColorFormat,
    ) -> (r: Option<Self>)
        requires
            old(device).wf(),
        ensures
            final(device).wf(),
            final(device).lock() == if old(device).lock().accepts(LockEvent::Enter(thread)) {
                old(device).lock().passed()
            } else {
                old(device).lock()
            },
            final(device).violations() == old(device).violations(),
            r is Some <==> old(device).lock().accepts(LockEvent::Enter(thread)) && old(device).issued() < usize::MAX,
            r matches Some(texture) ==> {
                &&& texture.addr() == old(device).issued() + 1
                &&& texture.spec_width() == width
                &&& texture.spec_height() == height
                &&& texture.spec_format() == format
                &&& final(device).objects() == old(device).objects().insert(texture.addr(), 1)
            },
            r is None ==> final(device).objects() == old(device).objects(),
            final(device).issued() == if r is Some {
                (old(device).issued() + 1) as usize
            } else {
                old(device).issued()
            },
    {
        match device.create_guarded(thread) {
            Some(raw) => Some(Self { raw, width, height, format }),
            None => None,
        }
    }

    /// Wraps the texture that the host has made at `raw`, for the thread
    /// that is inside the device. Nothing comes back where the host made
    /// none (a null address), where the address is in use, or where the
    /// thread is not inside; the last is counted as a call from outside the
    /// lock.
    pub fn from_raw(
        device: &mut GraphicsDevice,
        thread: u64,
        raw: usize,
        width: u32,
        height: u32,
        format: GraphicsColorFormat,
    ) -> (r: Option<Self>)
        requires
            old(device).wf(),
        ensures
            final(device).wf(),
            final(device).lock() == old(device).lock(),
            r is Some <==> raw != 0 && old(device).lock().held_by(thread) && !old(device).objects().contains_key(raw),
            r matches Some(texture) ==> {
                &&& texture.addr() == raw
                &&& texture.spec_width() == width
                &&& texture.spec_height() == height
                &&& texture.spec_format() == format
                &&& final(device).objects() == old(device).objects().insert(raw, 1)
            },
            r is None ==> final(device).objects() == old(device).objects(),
            final(device).issued() == if r is Some && raw > old(device).issued() {
                raw
            } else {
                old(device).issued()
            },
            final(device).violations() == if old(device).lock().held_by(thread) {
                old(device).violations()
            } else if old(device).violations() < u64::MAX {
                (old(device).violations() + 1) as u64
            } else {
                u64::MAX
            },
    {
        if device.adopt_object(thread, raw) {
            Some(Self { raw, width, height, format })
        } else {
            None
        }
    }

    #[verifier::when_used_as_spec(spec_height)]
    pub fn height(&self) -> (r: u32)
        ensures
            r == self.spec_height(),
    {
        self.height
    }

    #[verifier::when_used_as_spec(spec_width)]
    pub fn width(&self) -> (r: u32)
        ensures
            r == self.spec_width(),
    {
        self.width
    }

    pub fn as_ptr(&self) -> (r: usize)
        ensures
            r == self.addr(),
    {
        self.raw
    }

    /// The number of bytes of the texture's image when a line takes
    /// `linesize` bytes; nothing where the number cannot be held.
    pub fn mapped_len(&self, linesize: u32) -> (r: Option<usize>)
        ensures
            r is Some <==> linesize * self.spec_height() <= usize::MAX,
            r matches Some(n) ==> n == linesize * self.spec_height(),
    {
        assert(linesize * self.height <= 0xffff_ffff * 0xffff_ffff) by (nonlinear_arith)
            requires
                linesize <= 0xffff_ffff,
                self.height <= 0xffff_ffff,
        ;
        let n: u64 = linesize as u64 * self.height as u64;
        if n <= usize::MAX as u64 {
            Some(n as usize)
        } else {
            None
        }
    }

    /// What the host's mapping of the texture gives: `mapped` tells whether
    /// the host could map it, `linesize` how many bytes a line takes. The
    /// error is the host's failure code where the host could not, or the
    /// image is too large to address.
    pub fn map(&self, mapped: bool, linesize: u32) -> (r: Result<MappedTexture>)
        ensures
            r is Ok <==> mapped && linesize * self.spec_height() <= usize::MAX,
            r matches Ok(view) ==> view.len == linesize * self.spec_height() && view.width
                == self.spec_width() && view.height == self.spec_height(),
            r matches Err(e) ==> e == Error::ObsError(-1i32),
    {
        if !mapped {
            return Err(Error::ObsError(-1));
        }
        match self.mapped_len(linesize) {
            Some(len) => Ok(MappedTexture { len, width: self.width, height: self.height }),
            None => Err(Error::ObsError(-1)),
        }
    }

    /// Ends the handle and the texture with it. The handle enters the
    /// device on its own; where it has to wait, nothing is ended and the
    /// handle comes back.
    pub fn destroy(self, device: &mut GraphicsDevice, thread: u64) -> (r: Result<(), Self>)
        requires
            old(device).wf(),
        ensures
            final(device).wf(),
            final(device).lock() == if old(device).lock().accepts(LockEvent::Enter(thread)) {
                old(device).lock().passed()
            } else {
                old(device).lock()
            },
            final(device).violations() == old(device).violations(),
            final(device).issued() == old(device).issued(),
            r is Ok <==> old(device).lock().accepts(LockEvent::Enter(thread)),
            r is Ok ==> final(device).objects() == without_ref(old(device).objects(), self.addr()),
            r matches Err(texture) ==> texture == self && final(device).objects() == old(device).objects(),
    {
        proof {
            device.lemma_wf();
        }
        if device.is_blocked_for(thread) {
            return Err(self);
        }
        device.destroy_guarded(thread, self.raw);
        Ok(())
    }
}

impl GraphicsDevice {
    /// Whether an enter for `thread` would have to wait.
    pub fn is_blocked_for(&self, thread: u64) -> (r: bool)
        ensures
            r == !self.lock().accepts(LockEvent::Enter(thread)),
    {
        proof {
            self.lock.lemma_wf();
        }
        let depth = self.lock.depth();
        !(depth == 0 || (self.lock.is_active(thread) && depth < u64::MAX))
    }
}

/// The image of a texture while the host has it mapped into memory: the
/// number of its bytes and the size of the texture.
#[derive(Debug, Clone, Copy, PartialEq, Eq, Structural)]
pub struct MappedTexture {
    pub len: usize,
    pub width: u32,
    pub height: u32,
}

impl MappedTexture {
    pub fn width(&self) -> (r: u32)
        ensures
            r == self.width,
    {
        self.width
    }

    pub fn height(&self) -> (r: u32)
        ensures
            r == self.height,
    {
        self.height
    }
}

/// A parameter of an effect: its address, its name and its type.
#[derive(Debug)]
pub struct GraphicsEffectParam {
    raw: usize,
    name: String,
    shader_type: ShaderParamType,
}

impl GraphicsEffectParam {
    pub closed spec fn addr(&self) -> usize {
        self.raw
    }

    pub closed spec fn name(&self) -> Seq<char> {
        self.name@
    }

    pub closed spec fn shader_type(&self) -> ShaderParamType {
        self.shader_type
    }

    /// Wraps what the host tells of the parameter at `raw`: the number of
    /// its type and the bytes of its name. A name that cannot be read is
    /// replaced by `{unknown-param-name}`. A number that names no type is
    /// an error.
    pub fn from_raw(raw: usize, type_: u32, name: Option<&[u8]>) -> (r: core::result::Result<
        Self,
        NativeParsingError,
    >)
        ensures
            r is Ok <==> ShaderParamType::of_native(type_) is Some,
            r matches Ok(param) ==> {
                &&& param.addr() == raw
                &&& Some(param.shader_type()) == ShaderParamType::of_native(type_)
                &&& param.name() == match name {
                    Some(bytes) => if vstd::utf8::valid_utf8(crate::string::until_nul(bytes@)) {
                        vstd::utf8::decode_utf8(crate::string::until_nul(bytes@))
                    } else {
                        "{unknown-param-name}"@
                    },
                    None => "{unknown-param-name}"@,
                }
            },
            r matches Err(e) ==> e.spec_value() == type_ as i64 && e.spec_struct_name()
                == "ShaderParamType",
    {
        let shader_type = match ShaderParamType::from_raw(type_) {
            Ok(t) => t,
            Err(e) => {
                return Err(e);
            },
        };
        let name = match name.try_into_obs_string() {
            Ok(s) => s.to_text(),
            Err(_) => String::from_str("{unknown-param-name}"),
        };
        Ok(Self { raw, name, shader_type })
    }

    pub fn get_name(&self) -> (r: &str)
        ensures
            r@ == self.name(),
    {
        self.name.as_str()
    }

    pub fn as_ptr(&self) -> (r: usize)
        ensures
            r == self.addr(),
    {
        self.raw
    }
}

/// A parameter of an effect that holds a vector of two floats.
#[derive(Debug)]
pub struct GraphicsEffectVec2Param {
    effect: GraphicsEffectParam,
}

impl GraphicsEffectVec2Param {
    pub closed spec fn effect(&self) -> GraphicsEffectParam {
        self.effect
    }

    /// Takes `effect` as a parameter of two floats; the error names the
    /// type that it has instead.
    pub fn try_from(effect: GraphicsEffectParam) -> (r: Result<Self>)
        ensures
            r is Ok <==> effect.shader_type() == ShaderParamType::Vec2,
            r matches Ok(param) ==> param.effect() == effect,
            r matches Err(e) ==> e == Error::EnumOutOfRange(
                "ShaderParamType",
                effect.shader_type().native() as i64,
            ),
    {
        match effect.shader_type {
            ShaderParamType::Vec2 => Ok(GraphicsEffectVec2Param { effect }),
            _ => Err(Error::EnumOutOfRange("ShaderParamType", effect.shader_type.as_raw() as i64)),
        }
    }

    pub fn as_ptr(&self) -> (r: usize)
        ensures
            r == self.effect().addr(),
    {
        self.effect.raw
    }
}

/// A parameter of an effect that holds a texture.
#[derive(Debug)]
pub struct GraphicsEffectTextureParam {
    effect: GraphicsEffectParam,
}

impl GraphicsEffectTextureParam {
    pub closed spec fn effect(&self) -> GraphicsEffectParam {
        self.effect
    }

    /// Takes `effect` as a texture parameter; the error names the type that
    /// it has instead.
    pub fn try_from(effect: GraphicsEffectParam) -> (r: Result<Self>)
        ensures
            r is Ok <==> effect.shader_type() == ShaderParamType::Texture,
            r matches Ok(param) ==> param.effect() == effect,
            r matches Err(e) ==> e == Error::EnumOutOfRange(
                "ShaderParamType",
                effect.shader_type().native() as i64,
            ),
    {
        match effect.shader_type {
            ShaderParamType::Texture => Ok(GraphicsEffectTextureParam { effect }),
            _ => Err(Error::EnumOutOfRange("ShaderParamType", effect.shader_type.as_raw() as i64)),
        }
    }

    pub fn as_ptr(&self) -> (r: usize)
        ensures
            r == self.effect().addr(),
    {
        self.effect.raw
    }
}

/// An effect on the device, owned by this handle alone.
#[derive(Debug)]
pub struct GraphicsEffect {
    raw: usize,
}

impl GraphicsEffect {
    /// The address of the effect.
    pub closed spec fn addr(&self) -> usize {
        self.raw
    }

    /// Makes an effect from the source text `value`, under the file name
    /// `name`. The handle enters the device on its own. Nothing comes back
    /// where one of the two strings is not terminated as the host needs it
    /// or the device makes no effect.
    pub fn from_effect_string(
        device: &mut GraphicsDevice,
        thread: u64,
        value: &ObsString,
        name: &ObsString,
    ) -> (r: Option<Self>)
        requires
            old(device).wf(),
        ensures
            final(device).wf(),
            final(device).lock() == if value.wf() && name.wf() && old(device).lock().accepts(
                LockEvent::Enter(thread),
            ) {
                old(device).lock().passed()
            } else {
                old(device).lock()
            },
            final(device).violations() == old(device).violations(),
            r is Some <==> value.wf() && name.wf() && old(device).lock().accepts(
                LockEvent::Enter(thread),
            ) && old(device).issued() < usize::MAX,
            r matches Some(effect) ==> {
                &&& effect.addr() == old(device).issued() + 1
                &&& final(device).objects() == old(device).objects().insert(effect.addr(), 1)
            },
            r is None ==> final(device).objects() == old(device).objects(),
            final(device).issued() == if r is Some {
                (old(device).issued() + 1) as usize
            } else {
                old(device).issued()
            },
    {
        if !value.is_terminated() || !name.is_terminated() {
            return None;
        }
        match device.create_guarded(thread) {
            Some(raw) => Some(Self { raw }),
            None => None,
        }
    }

    /// Wraps the effect that the host has made at `raw`, for the thread
    /// that is inside the device. Nothing comes back where the host made
    /// none (a null address), where the address is in use, or where the
    /// thread is not inside; the last is counted as a call from outside the
    /// lock.
    pub fn from_raw(device: &mut GraphicsDevice, thread: u64, raw: usize) -> (r: Option<
        Self,
    >)
        requires
            old(device).wf(),
        ensures
            final(device).wf(),
            final(device).lock() == old(device).lock(),
            r is Some <==> raw != 0 && old(device).lock().held_by(thread) && !old(device).objects().contains_key(raw),
            r matches Some(effect) ==> {
                &&& effect.addr() == raw
                &&& final(device).objects() == old(device).objects().insert(raw, 1)
            },
            r is None ==> final(device).objects() == old(device).objects(),
            final(device).issued() == if r is Some && raw > old(device).issued() {
                raw
            } else {
                old(device).issued()
            },
            final(device).violations() == if old(device).lock().held_by(thread) {
                old(device).violations()
            } else if old(device).violations() < u64::MAX {
                (old(device).violations() + 1) as u64
            } else {
                u64::MAX
            },
    {
        if device.adopt_object(thread, raw) {
            Some(Self { raw })
        } else {
            None
        }
    }

    pub fn as_ptr(&self) -> (r: usize)
        ensures
            r == self.addr(),
    {
        self.raw
    }

    /// Ends the handle and the effect with it; where the handle has to
    /// wait for the device, nothing is ended and the handle comes back.
    pub fn destroy(self, device: &mut GraphicsDevice, thread: u64) -> (r: Result<(), Self>)
        requires
            old(device).wf(),
        ensures
            final(device).wf(),
            final(device).lock() == if old(device).lock().accepts(LockEvent::Enter(thread)) {
                old(device).lock().passed()
            } else {
                old(device).lock()
            },
            final(device).violations() == old(device).violations(),
            final(device).issued() == old(device).issued(),
            r is Ok <==> old(device).lock().accepts(LockEvent::Enter(thread)),
            r is Ok ==> final(device).objects() == without_ref(old(device).objects(), self.addr()),
            r matches Err(effect) ==> effect == self && final(device).objects() == old(device).objects(),
    {
        if device.is_blocked_for(thread) {
            return Err(self);
        }
        device.destroy_guarded(thread, self.raw);
        Ok(())
    }
}

/// A sampler on the device, owned by this handle alone.
#[derive(Debug)]
pub struct GraphicsSamplerState {
    raw: usize,
    info: GraphicsSamplerInfo,
}

impl GraphicsSamplerState {
    /// The address of the sampler.
    pub closed spec fn addr(&self) -> usize {
        self.raw
    }

    /// How the sampler reads.
    pub closed spec fn info(&self) -> GraphicsSamplerInfo {
        self.info
    }

    /// Makes a sampler that reads as `info` says. The handle enters the
    /// device on its own. Nothing comes back where the device makes no
    /// sampler.
    pub fn create(device: &mut GraphicsDevice, thread: u64, info: GraphicsSamplerInfo) -> (r: Option<
        Self,
    >)
        requires
            old(device).wf(),
        ensures
            final(device).wf(),
            final(device).lock() == if old(device).lock().accepts(LockEvent::Enter(thread)) {
                old(device).lock().passed()
            } else {
                old(device).lock()
            },
            final(device).violations() == old(device).violations(),
            r is Some <==> old(device).lock().accepts(LockEvent::Enter(thread)) && old(device).issued() < usize::MAX,
            r matches Some(sampler) ==> sampler.addr() == old(device).issued() + 1 && sampler.info()
                == info && final(device).objects() == old(device).objects().insert(
                sampler.addr(),
                1,
            ),
            r is None ==> final(device).objects() == old(device).objects(),
            final(device).issued() == if r is Some {
                (old(device).issued() + 1) as usize
            } else {
                old(device).issued()
            },
    {
        match device.create_guarded(thread) {
            Some(raw) => Some(Self { raw, info }),
            None => None,
        }
    }

    /// Wraps the sampler that the host has made at `raw`, for the thread
    /// that is inside the device. Nothing comes back where the host made
    /// none (a null address), where the address is in use, or where the
    /// thread is not inside; the last is counted as a call from outside the
    /// lock.
    pub fn from_raw(device: &mut GraphicsDevice, thread: u64, raw: usize, info: GraphicsSamplerInfo) -> (r: Option<
        Self,
    >)
        requires
            old(device).wf(),
        ensures
            final(device).wf(),
            final(device).lock() == old(device).lock(),
            r is Some <==> raw != 0 && old(device).lock().held_by(thread) && !old(device).objects().contains_key(raw),
            r matches Some(sampler) ==> {
                &&& sampler.addr() == raw
                &&& sampler.info() == info
                &&& final(device).objects() == old(device).objects().insert(raw, 1)
            },
            r is None ==> final(device).objects() == old(device).objects(),
            final(device).issued() == if r is Some && raw > old(device).issued() {
                raw
            } else {
                old(device).issued()
            },
            final(device).violations() == if old(device).lock().held_by(thread) {
                old(device).violations()
            } else if old(device).violations() < u64::MAX {
                (old(device).violations() + 1) as u64
            } else {
                u64::MAX
            },
    {
        if device.adopt_object(thread, raw) {
            Some(Self { raw, info })
        } else {
            None
        }
    }

    pub fn as_ptr(&self) -> (r: usize)
        ensures
            r == self.addr(),
    {
        self.raw
    }

    /// Ends the handle and the sampler with it; where the handle has to
    /// wait for the device, nothing is ended and the handle comes back.
    pub fn destroy(self, device: &mut GraphicsDevice, thread: u64) -> (r: Result<(), Self>)
        requires
            old(device).wf(),
        ensures
            final(device).wf(),
            final(device).lock() == if old(device).lock().accepts(LockEvent::Enter(thread)) {
                old(device).lock().passed()
            } else {
                old(device).lock()
            },
            final(device).violations() == old(device).violations(),
            final(device).issued() == old(device).issued(),
            r is Ok <==> old(device).lock().accepts(LockEvent::Enter(thread)),
            r is Ok ==> final(device).objects() == without_ref(old(device).objects(), self.addr()),
            r matches Err(sampler) ==> sampler == self && final(device).objects() == old(device).objects(),
    {
        if device.is_blocked_for(thread) {
            return Err(self);
        }
        device.destroy_guarded(thread, self.raw);
        Ok(())
    }
}

} // verus!
