use vstd::prelude::*;

verus! {

/// The four bytes of `x`, least significant first.
pub open spec fn le_bytes(x: u32) -> Seq<u8> {
    seq![(x % 256) as u8, ((x / 256) % 256) as u8, ((x / 65536) % 256) as u8, (x / 16777216) as u8]
}

/// The four bytes of `x`, most significant first.
pub open spec fn be_bytes(x: u32) -> Seq<u8> {
    seq![(x / 16777216) as u8, ((x / 65536) % 256) as u8, ((x / 256) % 256) as u8, (x % 256) as u8]
}

/// The four bytes of `x` in the given byte order.
pub open spec fn word_bytes(x: u32, little: bool) -> Seq<u8> {
    if little { le_bytes(x) } else { be_bytes(x) }
}

/// Relies on `u32::to_ne_bytes`: the host's byte order is little or big endian.
#[verifier::external_body]
fn native_word_bytes(x: u32) -> (r: [u8; 4])
    ensures
        r@ == le_bytes(x) || r@ == be_bytes(x),
{
    x.to_ne_bytes()
}

/// Whether the host stores words least significant byte first.
fn host_is_little_endian() -> bool {
    let probe = native_word_bytes(1);
    probe[0] == 1
}

/// An axis-aligned rectangle in pixels.
#[derive(Clone, Copy, Debug)]
pub struct Rect {
    pub x: u32,
    pub y: u32,
    pub width: u32,
    pub height: u32,
}

/// The sixteen bytes of a rectangle: `x`, `y`, `width`, `height`, each in the given order.
pub open spec fn rect_bytes(r: Rect, little: bool) -> Seq<u8> {
    word_bytes(r.x, little) + word_bytes(r.y, little) + word_bytes(r.width, little)
        + word_bytes(r.height, little)
}

fn push_word(out: &mut Vec<u8>, x: u32, little: bool)
    ensures
        final(out)@ == old(out)@ + word_bytes(x, little),
{
    let b0: u8 = (x % 256) as u8;
    let b1: u8 = ((x / 256) % 256) as u8;
    let b2: u8 = ((x / 65536) % 256) as u8;
    let b3: u8 = (x / 16777216) as u8;
    if little {
        out.push(b0);
        out.push(b1);
        out.push(b2);
        out.push(b3);
    } else {
        out.push(b3);
        out.push(b2);
        out.push(b1);
        out.push(b0);
    }
    assert(final(out)@ =~= old(out)@ + word_bytes(x, little));
}

impl Rect {
    /// The rectangle as sixteen bytes in the host's byte order, as a shader reads it.
    pub fn to_ne_bytes(&self) -> (r: Vec<u8>)
        ensures
            r@ == rect_bytes(*self, true) || r@ == rect_bytes(*self, false),
            r@.len() == 16,
    {
        let little = host_is_little_endian();
        let mut out: Vec<u8> = Vec::new();
        push_word(&mut out, self.x, little);
        push_word(&mut out, self.y, little);
        push_word(&mut out, self.width, little);
        push_word(&mut out, self.height, little);
        assert(out@ =~= rect_bytes(*self, little));
        out
    }
}

} // verus!
