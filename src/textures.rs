use vstd::prelude::*;

verus! {

/// Driver enum of texture unit 0; unit `i` is `TEXTURE0 + i`.
pub const TEXTURE0: u32 = 0x84C0;

/// Number of bytes per pixel of a decoded RGB image with 8-bit channels.
pub const RGB_CHANNELS: usize = 3;

/// A 2D texture: a driver handle, the texture unit it was last bound to, and
/// the path of the image it was made from.
pub struct Texture2D {
    m_id: u32,
    m_slot: u32,
    m_file_path: String,
}

/// Byte length of a decoded `width` by `height` RGB image with 8-bit
/// channels; `None` when a side is not positive, which is how a failed decode
/// shows, or when the length does not fit.
pub fn rgb_image_byte_len(width: i32, height: i32) -> (r: Option<usize>)
    ensures
        r is Some <==> width > 0 && height > 0 && width * height * RGB_CHANNELS <= usize::MAX,
        r is Some ==> r->Some_0 == width * height * RGB_CHANNELS,
{
    if width <= 0 || height <= 0 {
        return None;
    }
    let w = width as usize;
    let h = height as usize;
    match w.checked_mul(h) {
        None => {
            assert(w * h * RGB_CHANNELS > usize::MAX) by (nonlinear_arith)
                requires
                    w * h > usize::MAX,
            ;
            None
        },
        Some(p) => match p.checked_mul(RGB_CHANNELS) {
            None => None,
            Some(n) => Some(n),
        },
    }
}

impl Texture2D {
    pub closed spec fn spec_id(&self) -> u32 {
        self.m_id
    }

    pub closed spec fn spec_slot(&self) -> u32 {
        self.m_slot
    }

    pub closed spec fn spec_file_path(&self) -> Seq<char> {
        self.m_file_path@
    }

    /// The texture for the driver handle `id`, made from the image at `path`,
    /// bound to no unit yet (unit 0 is remembered).
    pub fn new(id: u32, path: String) -> (r: Texture2D)
        ensures
            r.spec_id() == id,
            r.spec_file_path() == path@,
            r.spec_slot() == TEXTURE0,
    {
        Texture2D { m_id: id, m_slot: TEXTURE0, m_file_path: path }
    }

    pub fn get_id(&self) -> (r: u32)
        ensures
            r == self.spec_id(),
    {
        self.m_id
    }

    pub fn file_path(&self) -> (r: &String)
        ensures
            r@ == self.spec_file_path(),
    {
        &self.m_file_path
    }

    /// The texture unit to activate before this texture is used again, such
    /// as for mip-map generation: the one it was last bound to.
    pub fn active_unit(&self) -> (r: u32)
        ensures
            r == self.spec_slot(),
    {
        self.m_slot
    }

    /// Binds to unit `slot`: remembers the unit and returns its driver enum,
    /// `TEXTURE0 + slot`. `None`, and nothing remembered, when that enum does
    /// not fit.
    pub fn bind_to_slot(&mut self, slot: u32) -> (r: Option<u32>)
        ensures
            r is Some <==> TEXTURE0 + slot <= u32::MAX,
            final(self).spec_id() == old(self).spec_id(),
            final(self).spec_file_path() == old(self).spec_file_path(),
            final(self).spec_slot() == (if r is Some {
                (TEXTURE0 + slot) as u32
            } else {
                old(self).spec_slot()
            }),
            r is Some ==> r->Some_0 == TEXTURE0 + slot,
    {
        if slot > u32::MAX - TEXTURE0 {
            None
        } else {
            self.m_slot = TEXTURE0 + slot;
            Some(self.m_slot)
        }
    }
}

/// A 3D texture, which holds nothing yet.
pub struct Texture3D {}

} // verus!
