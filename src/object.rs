use vstd::prelude::*;

verus! {

/// The attribute byte of an object, bits 7..4.
#[derive(Debug, Clone, Copy, PartialEq, Eq, Structural)]
pub struct SpriteFlags {
    pub background_priority: bool,
    pub flip_y: bool,
    pub flip_x: bool,
    pub palette: bool,
}

impl SpriteFlags {
    pub open spec fn from_bits(v: u8) -> SpriteFlags {
        SpriteFlags {
            background_priority: v & 0x80 != 0,
            flip_y: v & 0x40 != 0,
            flip_x: v & 0x20 != 0,
            palette: v & 0x10 != 0,
        }
    }

    /// The attribute byte; bits 3..0 read as zero.
    pub open spec fn bits(self) -> u8 {
        ((if self.background_priority { 0x80int } else { 0 }) + (if self.flip_y {
            0x40int
        } else {
            0
        }) + (if self.flip_x { 0x20int } else { 0 }) + (if self.palette { 0x10int } else { 0 })) as u8
    }

    pub fn to_byte(&self) -> (r: u8)
        ensures
            r == self.bits(),
    {
        let mut r: u8 = 0;
        if self.background_priority {
            r = r + 0x80;
        }
        if self.flip_y {
            r = r + 0x40;
        }
        if self.flip_x {
            r = r + 0x20;
        }
        if self.palette {
            r = r + 0x10;
        }
        r
    }

    pub fn from_byte(v: u8) -> (r: Self)
        ensures
            r == SpriteFlags::from_bits(v),
    {
        SpriteFlags {
            background_priority: v & 0x80 != 0,
            flip_y: v & 0x40 != 0,
            flip_x: v & 0x20 != 0,
            palette: v & 0x10 != 0,
        }
    }
}

/// One of the forty entries of OAM.
#[derive(Debug, Clone, Copy, PartialEq, Eq, Structural)]
pub struct Object {
    pub pos_x: u8,
    pub pos_y: u8,
    pub tile_number: u8,
    pub sprite_flags: SpriteFlags,
}

/// Entry `i` of an OAM image: Y, X, tile number, attributes.
pub open spec fn object_at(oam: Seq<u8>, i: int) -> Object {
    Object {
        pos_y: oam[4 * i],
        pos_x: oam[4 * i + 1],
        tile_number: oam[4 * i + 2],
        sprite_flags: SpriteFlags::from_bits(oam[4 * i + 3]),
    }
}

impl Object {
    /// Whether the object's rows, `height` lines from Y - 16, cover line `ly`.
    pub open spec fn covers(self, ly: u8, height: int) -> bool {
        self.pos_y as int - 16 <= ly as int && (ly as int) < self.pos_y as int - 16 + height
    }

    pub fn from_oam(oam: &Vec<u8>, i: usize) -> (r: Object)
        requires
            i < 40,
            oam@.len() == 160,
        ensures
            r == object_at(oam@, i as int),
    {
        Object {
            pos_y: oam[4 * i],
            pos_x: oam[4 * i + 1],
            tile_number: oam[4 * i + 2],
            sprite_flags: SpriteFlags::from_byte(oam[4 * i + 3]),
        }
    }
}

} // verus!
