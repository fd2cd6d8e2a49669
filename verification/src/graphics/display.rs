use vstd::prelude::*;

use super::GraphicsColorFormat;
use crate::wrapper::{without_ref, NativeObjects, PtrWrapper, PtrWrapperInternal};

verus! {

/// A colour of four 8-bit channels.
#[derive(Debug, Clone, Copy, PartialEq, Eq, PartialOrd, Ord, Hash, Structural)]
pub struct Color {
    pub r: u8,
    pub g: u8,
    pub b: u8,
    pub a: u8,
}

/// The number whose bytes are `b0`, `b1`, `b2`, `b3`, least significant first.
pub open spec fn little_endian(b0: u8, b1: u8, b2: u8, b3: u8) -> u32 {
    (b0 as u32) | ((b1 as u32) << 8) | ((b2 as u32) << 16) | ((b3 as u32) << 24)
}

/// `u32::from_ne_bytes`: the number that has the four bytes in memory, in
/// their order. Which end is the least significant depends on the machine,
/// so the number is one of two.
#[verifier::external_body]
fn u32_from_ne_bytes(b0: u8, b1: u8, b2: u8, b3: u8) -> (r: u32)
    ensures
        r == little_endian(b0, b1, b2, b3) || r == little_endian(b3, b2, b1, b0),
{
    u32::from_ne_bytes([b0, b1, b2, b3])
}

impl Color {
    pub fn new(r: u8, g: u8, b: u8, a: u8) -> (c: Self)
        ensures
            c == (Color { r, g, b, a }),
    {
        Color { r, g, b, a }
    }

    pub fn black() -> (c: Self)
        ensures
            c == (Color { r: 0, g: 0, b: 0, a: 255 }),
    {
        Color::new(0, 0, 0, 255)
    }

    pub fn white() -> (c: Self)
        ensures
            c == (Color { r: 255, g: 255, b: 255, a: 255 }),
    {
        Color::new(255, 255, 255, 255)
    }

    pub fn red() -> (c: Self)
        ensures
            c == (Color { r: 255, g: 0, b: 0, a: 255 }),
    {
        Color::new(255, 0, 0, 255)
    }

    pub fn green() -> (c: Self)
        ensures
            c == (Color { r: 0, g: 255, b: 0, a: 255 }),
    {
        Color::new(0, 255, 0, 255)
    }

    pub fn blue() -> (c: Self)
        ensures
            c == (Color { r: 0, g: 0, b: 255, a: 255 }),
    {
        Color::new(0, 0, 255, 255)
    }

    /// Whether `v` is the colour's four channels in the order red, green,
    /// blue, alpha, as one number of this machine.
    pub open spec fn is_rgba(self, v: u32) -> bool {
        v == little_endian(self.r, self.g, self.b, self.a) || v == little_endian(
            self.a,
            self.b,
            self.g,
            self.r,
        )
    }

    /// Whether `v` is the colour's four channels in the order blue, green,
    /// red, alpha, as one number of this machine.
    pub open spec fn is_bgra(self, v: u32) -> bool {
        v == little_endian(self.b, self.g, self.r, self.a) || v == little_endian(
            self.a,
            self.r,
            self.g,
            self.b,
        )
    }

    /// The colour as a texture of `format` stores it. Only the two formats
    /// of four 8-bit channels are supported.
    pub fn as_format(self, format: GraphicsColorFormat) -> (v: u32)
        requires
            format == GraphicsColorFormat::RGBA || format == GraphicsColorFormat::BGRA,
        ensures
            format == GraphicsColorFormat::RGBA ==> self.is_rgba(v),
            format == GraphicsColorFormat::BGRA ==> self.is_bgra(v),
    {
        match format {
            GraphicsColorFormat::RGBA => self.as_rgba(),
            _ => self.as_bgra(),
        }
    }

    pub fn as_rgba(self) -> (v: u32)
        ensures
            self.is_rgba(v),
    {
        u32_from_ne_bytes(self.r, self.g, self.b, self.a)
    }

    pub fn as_bgra(self) -> (v: u32)
        ensures
            self.is_bgra(v),
    {
        u32_from_ne_bytes(self.b, self.g, self.r, self.a)
    }
}

/// Something that draws into a display whenever the display is rendered.
pub trait DrawCallback {
    fn draw(&self, cx: u32, cy: u32);
}

/// What the host calls to have `data` draw into a display of `cx` by `cy`
/// pixels.
pub fn draw_callback<S: DrawCallback>(data: &S, cx: u32, cy: u32) {
    data.draw(cx, cy);
}

/// A draw callback that was added to a display, kept together with the
/// address of that display so that it is taken off the same display.
#[derive(Debug)]
pub struct DrawCallbackId<S> {
    pub data: S,
    pub display: usize,
}

impl<S> DrawCallbackId<S> {
    pub fn new(data: S, display: &DisplayRef) -> (r: Self)
        ensures
            r.data == data,
            r.display == display.addr(),
    {
        DrawCallbackId { data, display: display.as_ptr() }
    }

    /// Whether the callback was added to `display`.
    pub fn belongs_to(&self, display: &DisplayRef) -> (r: bool)
        ensures
            r == (self.display == display.addr()),
    {
        self.display == display.as_ptr()
    }

    /// Takes the callback off `display`, which must be the display that it
    /// was added to, and gives it back.
    pub fn take(self, display: &DisplayRef) -> (r: S)
        requires
            self.display == display.addr(),
        ensures
            r == self.data,
    {
        self.data
    }
}

/// Draws the host's main output.
#[derive(Debug, Clone, Copy, PartialEq, Eq, Structural)]
pub struct RenderMainTexture;

/// A display of the host, owned by this handle alone. The host does not
/// count references on a display: making the handle takes none, there is
/// no second handle, and ending the handle ends the display.
#[derive(Debug)]
pub struct DisplayRef {
    inner: usize,
}

impl PtrWrapper for DisplayRef {
    closed spec fn addr(&self) -> usize {
        self.inner
    }

    open spec fn counted() -> bool {
        false
    }

    fn get_ref(objects: &mut NativeObjects, ptr: usize) -> (r: usize) {
        ptr
    }

    fn release(objects: &mut NativeObjects, ptr: usize) {
        objects.release(ptr);
    }

    fn from_raw_unchecked(raw: usize) -> (r: Option<Self>) {
        if raw == 0 {
            None
        } else {
            Some(Self { inner: raw })
        }
    }

    fn as_ptr(&self) -> (r: usize) {
        self.inner
    }
}

impl PtrWrapperInternal for DisplayRef {
    fn new_internal(ptr: usize) -> (r: Self) {
        Self { inner: ptr }
    }

    fn get_internal(&self) -> (r: usize) {
        self.inner
    }
}

impl DisplayRef {
    /// Adds `callback` to the display.
    pub fn add_draw_callback<S: DrawCallback>(&self, callback: S) -> (r: DrawCallbackId<S>)
        ensures
            r.data == callback,
            r.display == self.addr(),
    {
        DrawCallbackId::new(callback, self)
    }

    /// Takes a callback off the display that it was added to, and gives it
    /// back.
    pub fn remove_draw_callback<S: DrawCallback>(&self, data: DrawCallbackId<S>) -> (r: S)
        requires
            data.display == self.addr(),
        ensures
            r == data.data,
    {
        data.take(self)
    }

    /// Ends the handle and the display with it.
    pub fn destroy(self, objects: &mut NativeObjects)
        requires
            old(objects).wf(),
        ensures
            final(objects).wf(),
            final(objects)@ == without_ref(old(objects)@, self.addr()),
    {
        Self::release(objects, self.inner);
    }
}

} // verus!
