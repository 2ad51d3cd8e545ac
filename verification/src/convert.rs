//! Pixel layouts of captured frames, and their conversion to RGBA.

use vstd::prelude::*;

verus! {

/// The pixel layout of a frame in shared memory.
///
/// A pixel is one 32-bit word, stored with its least significant byte first;
/// the name of a layout lists its channels from the most significant bits
/// down.
#[derive(Debug, Clone, Copy, PartialEq, Eq, Structural)]
pub enum Format {
    /// Eight bits each of alpha, red, green and blue.
    Argb8888,
    /// Eight unused bits, then eight each of red, green and blue.
    Xrgb8888,
    /// Eight unused bits, then eight each of blue, green and red.
    Xbgr8888,
    /// Two bits of alpha, then ten each of blue, green and red.
    Abgr2101010,
    /// Two unused bits, then ten each of blue, green and red.
    Xbgr2101010,
    /// Any other layout, by the number that the compositor gave for it.
    Other(u32),
}

/// How the bytes of a converted frame are to be read.
#[derive(Debug, Clone, Copy, PartialEq, Eq, Structural)]
pub enum ColorType {
    /// Four bytes per pixel: red, green, blue, alpha.
    Rgba8,
}

/// The ways in which a supported layout is brought to RGBA.
#[derive(Debug, Clone, Copy, PartialEq, Eq, Structural)]
pub enum Converter {
    /// The bytes already stand in the order red, green, blue.
    ConvertNone,
    /// Red and blue change places.
    ConvertRGB8,
    /// Each ten-bit channel loses its two lowest bits; the pixel becomes opaque.
    ConvertBGR10,
}

/// The red, green and blue of a pixel, each in the precision of its layout.
pub struct Channels {
    pub red: int,
    pub green: int,
    pub blue: int,
}

/// The word that four bytes spell, least significant byte first.
pub open spec fn pixel_word(p: Seq<u8>) -> int
    recommends
        p.len() == 4,
{
    p[0] as int + 256 * (p[1] as int) + 65536 * (p[2] as int) + 16777216 * (p[3] as int)
}

impl Format {
    /// Whether frames in this layout can be converted.
    pub open spec fn spec_is_supported(self) -> bool {
        self is Argb8888 || self is Xrgb8888 || self is Xbgr8888 || self is Abgr2101010
            || self is Xbgr2101010
    }

    /// Whether frames in this layout can be converted.
    #[verifier::when_used_as_spec(spec_is_supported)]
    pub fn is_supported(self) -> (r: bool)
        ensures
            r == self.spec_is_supported(),
    {
        match self {
            Format::Argb8888
            | Format::Xrgb8888
            | Format::Xbgr8888
            | Format::Abgr2101010
            | Format::Xbgr2101010 => true,
            Format::Other(_) => false,
        }
    }

    /// The number of bits that this layout gives to each colour channel.
    pub open spec fn depth(self) -> int
        recommends
            self.spec_is_supported(),
    {
        if self is Abgr2101010 || self is Xbgr2101010 {
            10
        } else {
            8
        }
    }

    /// The colour that the four bytes `p` of one pixel hold in this layout.
    pub open spec fn channels(self, p: Seq<u8>) -> Channels
        recommends
            self.spec_is_supported(),
            p.len() == 4,
    {
        match self {
            Format::Argb8888 | Format::Xrgb8888 => Channels {
                red: p[2] as int,
                green: p[1] as int,
                blue: p[0] as int,
            },
            Format::Abgr2101010 | Format::Xbgr2101010 => Channels {
                red: pixel_word(p) % 1024,
                green: (pixel_word(p) / 1024) % 1024,
                blue: (pixel_word(p) / 1048576) % 1024,
            },
            _ => Channels { red: p[0] as int, green: p[1] as int, blue: p[2] as int },
        }
    }

    /// The converter for this layout, if it is supported.
    pub open spec fn converter(self) -> Option<Converter> {
        match self {
            Format::Argb8888 | Format::Xrgb8888 => Some(Converter::ConvertRGB8),
            Format::Xbgr8888 => Some(Converter::ConvertNone),
            Format::Abgr2101010 | Format::Xbgr2101010 => Some(Converter::ConvertBGR10),
            Format::Other(_) => None,
        }
    }
}

/// Picks the converter for `format`; there is none for a layout that is not
/// supported.
pub fn create_converter(format: Format) -> (r: Option<Converter>)
    ensures
        r == format.converter(),
        r is Some <==> format.spec_is_supported(),
{
    match format {
        Format::Argb8888 | Format::Xrgb8888 => Some(Converter::ConvertRGB8),
        Format::Xbgr8888 => Some(Converter::ConvertNone),
        Format::Abgr2101010 | Format::Xbgr2101010 => Some(Converter::ConvertBGR10),
        Format::Other(_) => None,
    }
}

impl Converter {
    /// The four bytes that the pixel `p` becomes.
    pub open spec fn pixel(self, p: Seq<u8>) -> Seq<u8>
        recommends
            p.len() == 4,
    {
        match self {
            Converter::ConvertNone => p,
            Converter::ConvertRGB8 => seq![p[2], p[1], p[0], p[3]],
            Converter::ConvertBGR10 => seq![
                ((pixel_word(p) % 1024) / 4) as u8,
                (((pixel_word(p) / 1024) % 1024) / 4) as u8,
                (((pixel_word(p) / 1048576) % 1024) / 4) as u8,
                255u8,
            ],
        }
    }

    /// The bytes that the frame `data` becomes: every whole pixel is converted
    /// where it stands, and the one to three bytes that may follow the last
    /// whole pixel stay.
    pub open spec fn converted(self, data: Seq<u8>) -> Seq<u8> {
        Seq::new(
            data.len(),
            |i: int|
                if i < 4 * (data.len() / 4) {
                    self.pixel(data.subrange(4 * (i / 4), 4 * (i / 4) + 4))[i % 4]
                } else {
                    data[i]
                },
        )
    }

    /// Converts the frame `data` to RGBA where it stands.
    pub fn convert_inplace(&self, data: &mut [u8]) -> (color_type: ColorType)
        ensures
            final(data)@ == self.converted(old(data)@),
            final(data)@.len() == old(data)@.len(),
            color_type == ColorType::Rgba8,
    {
        let ghost orig = data@;
        let n = data.len();
        let whole = n - n % 4;
        let mut i: usize = 0;
        while i < whole
            invariant
                n == orig.len(),
                data@.len() == n,
                whole == 4 * (n / 4),
                i <= whole,
                i % 4 == 0,
                forall|j: int| 0 <= j < i ==> data@[j] == self.converted(orig)[j],
                forall|j: int| i <= j < n ==> data@[j] == orig[j],
            decreases whole - i,
        {
            let b0 = data[i];
            let b1 = data[i + 1];
            let b2 = data[i + 2];
            let b3 = data[i + 3];
            let ghost p = orig.subrange(i as int, i + 4);
            assert(p =~= seq![b0, b1, b2, b3]);
            match self {
                Converter::ConvertNone => {},
                Converter::ConvertRGB8 => {
                    data[i] = b2;
                    data[i + 2] = b0;
                },
                Converter::ConvertBGR10 => {
                    let word: u32 = ((b3 as u32) << 24) | ((b2 as u32) << 16) | ((b1 as u32) << 8)
                        | (b0 as u32);
                    let red = convert10_to_8(word);
                    let green = convert10_to_8(word >> 10);
                    let blue = convert10_to_8(word >> 20);
                    proof {
                        assert(word == b0 as u32 + 256 * (b1 as u32) + 65536 * (b2 as u32)
                            + 16777216 * (b3 as u32)) by (bit_vector)
                            requires
                                word == ((b3 as u32) << 24) | ((b2 as u32) << 16) | ((b1 as u32)
                                    << 8) | (b0 as u32),
                        ;
                        assert(word as int == pixel_word(p));
                        assert((word >> 10) % 1024 == (word / 1024) % 1024) by (bit_vector);
                        assert((word >> 20) % 1024 == (word / 1048576) % 1024) by (bit_vector);
                    }
                    data[i] = red;
                    data[i + 1] = green;
                    data[i + 2] = blue;
                    data[i + 3] = 255;
                },
            }
            proof {
                let out = self.pixel(p);
                assert forall|j: int| 0 <= j < i + 4 implies data@[j] == self.converted(orig)[j] by {
                    if j >= i {
                        assert(4 * (j / 4) == i);
                        assert(orig.subrange(4 * (j / 4), 4 * (j / 4) + 4) == p);
                        assert(data@[j] == out[j % 4]);
                    }
                }
            }
            i += 4;
        }
        assert(data@ =~= self.converted(orig));
        ColorType::Rgba8
    }
}

/// The eight highest bits of the ten-bit channel in the low bits of `color`.
fn convert10_to_8(color: u32) -> (r: u8)
    ensures
        r as int == (color as int % 1024) / 4,
{
    let r = (color >> 2) & 255;
    assert(((color >> 2) & 255) == (color % 1024) / 4) by (bit_vector);
    assert(((color >> 2) & 255) < 256) by (bit_vector);
    r as u8
}

/// Conversion keeps every colour as far as eight bits can hold it: a channel
/// of an eight-bit layout arrives unchanged, and a channel of a ten-bit layout
/// arrives without its two lowest bits. The fourth byte of an eight-bit pixel
/// stays, and a ten-bit pixel becomes opaque.
pub proof fn lemma_conversion_keeps_channels(format: Format, p: Seq<u8>)
    requires
        format.spec_is_supported(),
        p.len() == 4,
    ensures
        format.converter() is Some,
        ({
            let out = format.converter().unwrap().pixel(p);
            let source = format.channels(p);
            &&& out.len() == 4
            &&& format.depth() == 8 ==> {
                &&& out[0] as int == source.red
                &&& out[1] as int == source.green
                &&& out[2] as int == source.blue
                &&& out[3] == p[3]
            }
            &&& format.depth() == 10 ==> {
                &&& 0 <= source.red < 1024
                &&& 0 <= source.green < 1024
                &&& 0 <= source.blue < 1024
                &&& out[0] as int == source.red / 4
                &&& out[1] as int == source.green / 4
                &&& out[2] as int == source.blue / 4
                &&& out[3] == 255
            }
        }),
{
}

} // verus!
