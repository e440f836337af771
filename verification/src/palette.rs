//! The 256-slot colour palette.
//!
//! Each slot holds one packed RGB word; a slot is written and read as a
//! whole, so concurrent access never sees a torn value. Indexes at or past
//! the table size read as absent and write as a no-op, never an error. The
//! table starts as the classic 16 console colours followed by a fixed ramp
//! of mixed shades.

use vstd::prelude::*;

use crate::colour::RGBColour;

verus! {

/// Number of palette slots.
pub const PALETTE_SIZE: usize = 256;

/// What reading slot `i` of a palette with contents `s` yields.
pub open spec fn palette_get(s: Seq<u32>, i: int) -> Option<u32> {
    if 0 <= i < PALETTE_SIZE {
        Some(s[i])
    } else {
        None
    }
}

/// The contents after writing `v` to slot `i`: updated in range, untouched
/// out of range.
pub open spec fn palette_set(s: Seq<u32>, i: int, v: u32) -> Seq<u32> {
    if 0 <= i < PALETTE_SIZE {
        s.update(i, v)
    } else {
        s
    }
}

/// Slot `i` of the default colour table, as a packed RGB word.
pub open spec fn default_palette_entry(i: int) -> u32 {
    if i == 0 {
        0x000000u32
    } else if i == 1 {
        0x0000aau32
    } else if i == 2 {
        0x00aa00u32
    } else if i == 3 {
        0x00aaaau32
    } else if i == 4 {
        0xaa0000u32
    } else if i == 5 {
        0xaa00aau32
    } else if i == 6 {
        0xaaaa00u32
    } else if i == 7 {
        0xaaaaaau32
    } else if i == 8 {
        0x666666u32
    } else if i == 9 {
        0x0000ffu32
    } else if i == 10 {
        0x00ff00u32
    } else if i == 11 {
        0x00ffffu32
    } else if i == 12 {
        0xff0000u32
    } else if i == 13 {
        0xff00ffu32
    } else if i == 14 {
        0xffff00u32
    } else if i == 15 {
        0xffffffu32
    } else if i == 16 {
        0x000033u32
    } else if i == 17 {
        0x000066u32
    } else if i == 18 {
        0x0000ccu32
    } else if i == 19 {
        0x002200u32
    } else if i == 20 {
        0x002233u32
    } else if i == 21 {
        0x002266u32
    } else if i == 22 {
        0x002288u32
    } else if i == 23 {
        0x0022ccu32
    } else if i == 24 {
        0x0022ffu32
    } else if i == 25 {
        0x004400u32
    } else if i == 26 {
        0x004433u32
    } else if i == 27 {
        0x004466u32
    } else if i == 28 {
        0x004488u32
    } else if i == 29 {
        0x0044ccu32
    } else if i == 30 {
        0x0044ffu32
    } else if i == 31 {
        0x008833u32
    } else if i == 32 {
        0x008866u32
    } else if i == 33 {
        0x0088ccu32
    } else if i == 34 {
        0x0088ffu32
    } else if i == 35 {
        0x00aa00u32
    } else if i == 36 {
        0x00aa33u32
    } else if i == 37 {
        0x00aa66u32
    } else if i == 38 {
        0x00aa88u32
    } else if i == 39 {
        0x00aaccu32
    } else if i == 40 {
        0x00aaffu32
    } else if i == 41 {
        0x00ee00u32
    } else if i == 42 {
        0x00ee33u32
    } else if i == 43 {
        0x00ee66u32
    } else if i == 44 {
        0x00ee88u32
    } else if i == 45 {
        0x00eeccu32
    } else if i == 46 {
        0x00eeffu32
    } else if i == 47 {
        0x00ff33u32
    } else if i == 48 {
        0x00ff66u32
    } else if i == 49 {
        0x00ff88u32
    } else if i == 50 {
        0x00ffccu32
    } else if i == 51 {
        0x330000u32
    } else if i == 52 {
        0x330033u32
    } else if i == 53 {
        0x330066u32
    } else if i == 54 {
        0x330088u32
    } else if i == 55 {
        0x3300ccu32
    } else if i == 56 {
        0x3300ffu32
    } else if i == 57 {
        0x332200u32
    } else if i == 58 {
        0x332233u32
    } else if i == 59 {
        0x332266u32
    } else if i == 60 {
        0x332288u32
    } else if i == 61 {
        0x3322ccu32
    } else if i == 62 {
        0x3322ffu32
    } else if i == 63 {
        0x334400u32
    } else if i == 64 {
        0x334433u32
    } else if i == 65 {
        0x334466u32
    } else if i == 66 {
        0x334488u32
    } else if i == 67 {
        0x3344ccu32
    } else if i == 68 {
        0x3344ffu32
    } else if i == 69 {
        0x338800u32
    } else if i == 70 {
        0x338833u32
    } else if i == 71 {
        0x338866u32
    } else if i == 72 {
        0x338888u32
    } else if i == 73 {
        0x3388ccu32
    } else if i == 74 {
        0x3388ffu32
    } else if i == 75 {
        0x33aa00u32
    } else if i == 76 {
        0x33aa33u32
    } else if i == 77 {
        0x33aa66u32
    } else if i == 78 {
        0x33aa88u32
    } else if i == 79 {
        0x33aaccu32
    } else if i == 80 {
        0x33aaffu32
    } else if i == 81 {
        0x33ee00u32
    } else if i == 82 {
        0x33ee33u32
    } else if i == 83 {
        0x33ee66u32
    } else if i == 84 {
        0x33ee88u32
    } else if i == 85 {
        0x33eeccu32
    } else if i == 86 {
        0x33eeffu32
    } else if i == 87 {
        0x33ff00u32
    } else if i == 88 {
        0x33ff33u32
    } else if i == 89 {
        0x33ff66u32
    } else if i == 90 {
        0x33ff88u32
    } else if i == 91 {
        0x33ffccu32
    } else if i == 92 {
        0x33ffffu32
    } else if i == 93 {
        0x660000u32
    } else if i == 94 {
        0x660033u32
    } else if i == 95 {
        0x660066u32
    } else if i == 96 {
        0x660088u32
    } else if i == 97 {
        0x6600ccu32
    } else if i == 98 {
        0x6600ffu32
    } else if i == 99 {
        0x662200u32
    } else if i == 100 {
        0x662233u32
    } else if i == 101 {
        0x662266u32
    } else if i == 102 {
        0x662288u32
    } else if i == 103 {
        0x6622ccu32
    } else if i == 104 {
        0x6622ffu32
    } else if i == 105 {
        0x664400u32
    } else if i == 106 {
        0x664433u32
    } else if i == 107 {
        0x664466u32
    } else if i == 108 {
        0x664488u32
    } else if i == 109 {
        0x6644ccu32
    } else if i == 110 {
        0x6644ffu32
    } else if i == 111 {
        0x668800u32
    } else if i == 112 {
        0x668833u32
    } else if i == 113 {
        0x668866u32
    } else if i == 114 {
        0x668888u32
    } else if i == 115 {
        0x6688ccu32
    } else if i == 116 {
        0x6688ffu32
    } else if i == 117 {
        0x66aa00u32
    } else if i == 118 {
        0x66aa33u32
    } else if i == 119 {
        0x66aa66u32
    } else if i == 120 {
        0x66aa88u32
    } else if i == 121 {
        0x66aaccu32
    } else if i == 122 {
        0x66aaffu32
    } else if i == 123 {
        0x66ee00u32
    } else if i == 124 {
        0x66ee33u32
    } else if i == 125 {
        0x66ee66u32
    } else if i == 126 {
        0x66ee88u32
    } else if i == 127 {
        0x66eeccu32
    } else if i == 128 {
        0x66eeffu32
    } else if i == 129 {
        0x66ff00u32
    } else if i == 130 {
        0x66ff33u32
    } else if i == 131 {
        0x66ff66u32
    } else if i == 132 {
        0x66ff88u32
    } else if i == 133 {
        0x66ffccu32
    } else if i == 134 {
        0x66ffffu32
    } else if i == 135 {
        0x880033u32
    } else if i == 136 {
        0x880066u32
    } else if i == 137 {
        0x8800ccu32
    } else if i == 138 {
        0x8800ffu32
    } else if i == 139 {
        0x882200u32
    } else if i == 140 {
        0x882233u32
    } else if i == 141 {
        0x882266u32
    } else if i == 142 {
        0x882288u32
    } else if i == 143 {
        0x8822ccu32
    } else if i == 144 {
        0x8822ffu32
    } else if i == 145 {
        0x884400u32
    } else if i == 146 {
        0x884433u32
    } else if i == 147 {
        0x884466u32
    } else if i == 148 {
        0x884488u32
    } else if i == 149 {
        0x8844ccu32
    } else if i == 150 {
        0x8844ffu32
    } else if i == 151 {
        0x888833u32
    } else if i == 152 {
        0x888866u32
    } else if i == 153 {
        0x8888ccu32
    } else if i == 154 {
        0x8888ffu32
    } else if i == 155 {
        0x88aa00u32
    } else if i == 156 {
        0x88aa33u32
    } else if i == 157 {
        0x88aa66u32
    } else if i == 158 {
        0x88aa88u32
    } else if i == 159 {
        0x88aaccu32
    } else if i == 160 {
        0x88aaffu32
    } else if i == 161 {
        0x88ee00u32
    } else if i == 162 {
        0x88ee33u32
    } else if i == 163 {
        0x88ee66u32
    } else if i == 164 {
        0x88ee88u32
    } else if i == 165 {
        0x88eeccu32
    } else if i == 166 {
        0x88eeffu32
    } else if i == 167 {
        0x88ff00u32
    } else if i == 168 {
        0x88ff33u32
    } else if i == 169 {
        0x88ff66u32
    } else if i == 170 {
        0x88ff88u32
    } else if i == 171 {
        0x88ffccu32
    } else if i == 172 {
        0x88ffffu32
    } else if i == 173 {
        0xcc0000u32
    } else if i == 174 {
        0xcc0033u32
    } else if i == 175 {
        0xcc0066u32
    } else if i == 176 {
        0xcc0088u32
    } else if i == 177 {
        0xcc00ccu32
    } else if i == 178 {
        0xcc00ffu32
    } else if i == 179 {
        0xcc2200u32
    } else if i == 180 {
        0xcc2233u32
    } else if i == 181 {
        0xcc2266u32
    } else if i == 182 {
        0xcc2288u32
    } else if i == 183 {
        0xcc22ccu32
    } else if i == 184 {
        0xcc22ffu32
    } else if i == 185 {
        0xcc4400u32
    } else if i == 186 {
        0xcc4433u32
    } else if i == 187 {
        0xcc4466u32
    } else if i == 188 {
        0xcc4488u32
    } else if i == 189 {
        0xcc44ccu32
    } else if i == 190 {
        0xcc44ffu32
    } else if i == 191 {
        0xcc8800u32
    } else if i == 192 {
        0xcc8833u32
    } else if i == 193 {
        0xcc8866u32
    } else if i == 194 {
        0xcc8888u32
    } else if i == 195 {
        0xcc88ccu32
    } else if i == 196 {
        0xcc88ffu32
    } else if i == 197 {
        0xccaa00u32
    } else if i == 198 {
        0xccaa33u32
    } else if i == 199 {
        0xccaa66u32
    } else if i == 200 {
        0xccaa88u32
    } else if i == 201 {
        0xccaaccu32
    } else if i == 202 {
        0xccaaffu32
    } else if i == 203 {
        0xccee00u32
    } else if i == 204 {
        0xccee33u32
    } else if i == 205 {
        0xccee66u32
    } else if i == 206 {
        0xccee88u32
    } else if i == 207 {
        0xcceeccu32
    } else if i == 208 {
        0xcceeffu32
    } else if i == 209 {
        0xccff00u32
    } else if i == 210 {
        0xccff33u32
    } else if i == 211 {
        0xccff66u32
    } else if i == 212 {
        0xccff88u32
    } else if i == 213 {
        0xccffccu32
    } else if i == 214 {
        0xccffffu32
    } else if i == 215 {
        0xff0033u32
    } else if i == 216 {
        0xff0066u32
    } else if i == 217 {
        0xff0088u32
    } else if i == 218 {
        0xff00ccu32
    } else if i == 219 {
        0xff2200u32
    } else if i == 220 {
        0xff2233u32
    } else if i == 221 {
        0xff2266u32
    } else if i == 222 {
        0xff2288u32
    } else if i == 223 {
        0xff22ccu32
    } else if i == 224 {
        0xff22ffu32
    } else if i == 225 {
        0xff4400u32
    } else if i == 226 {
        0xff4433u32
    } else if i == 227 {
        0xff4466u32
    } else if i == 228 {
        0xff4488u32
    } else if i == 229 {
        0xff44ccu32
    } else if i == 230 {
        0xff44ffu32
    } else if i == 231 {
        0xff8800u32
    } else if i == 232 {
        0xff8833u32
    } else if i == 233 {
        0xff8866u32
    } else if i == 234 {
        0xff8888u32
    } else if i == 235 {
        0xff88ccu32
    } else if i == 236 {
        0xff88ffu32
    } else if i == 237 {
        0xffaa00u32
    } else if i == 238 {
        0xffaa33u32
    } else if i == 239 {
        0xffaa66u32
    } else if i == 240 {
        0xffaa88u32
    } else if i == 241 {
        0xffaaccu32
    } else if i == 242 {
        0xffaaffu32
    } else if i == 243 {
        0xffee00u32
    } else if i == 244 {
        0xffee33u32
    } else if i == 245 {
        0xffee66u32
    } else if i == 246 {
        0xffee88u32
    } else if i == 247 {
        0xffeeccu32
    } else if i == 248 {
        0xffeeffu32
    } else if i == 249 {
        0xffff33u32
    } else if i == 250 {
        0xffff66u32
    } else if i == 251 {
        0xffff88u32
    } else if i == 252 {
        0xffffccu32
    } else if i == 253 {
        0xbbbbbbu32
    } else if i == 254 {
        0x333333u32
    } else {
        0x777777u32
    }
}

/// The default colour table, all slots in order.
pub open spec fn default_palette() -> Seq<u32> {
    Seq::new(PALETTE_SIZE as nat, |i: int| default_palette_entry(i))
}

/// Slot `index` of the default colour table.
pub fn default_palette_entry_at(index: usize) -> (r: u32)
    requires
        index < PALETTE_SIZE,
    ensures
        r == default_palette_entry(index as int),
{
    if index == 0 {
        0x000000u32
    } else if index == 1 {
        0x0000aau32
    } else if index == 2 {
        0x00aa00u32
    } else if index == 3 {
        0x00aaaau32
    } else if index == 4 {
        0xaa0000u32
    } else if index == 5 {
        0xaa00aau32
    } else if index == 6 {
        0xaaaa00u32
    } else if index == 7 {
        0xaaaaaau32
    } else if index == 8 {
        0x666666u32
    } else if index == 9 {
        0x0000ffu32
    } else if index == 10 {
        0x00ff00u32
    } else if index == 11 {
        0x00ffffu32
    } else if index == 12 {
        0xff0000u32
    } else if index == 13 {
        0xff00ffu32
    } else if index == 14 {
        0xffff00u32
    } else if index == 15 {
        0xffffffu32
    } else if index == 16 {
        0x000033u32
    } else if index == 17 {
        0x000066u32
    } else if index == 18 {
        0x0000ccu32
    } else if index == 19 {
        0x002200u32
    } else if index == 20 {
        0x002233u32
    } else if index == 21 {
        0x002266u32
    } else if index == 22 {
        0x002288u32
    } else if index == 23 {
        0x0022ccu32
    } else if index == 24 {
        0x0022ffu32
    } else if index == 25 {
        0x004400u32
    } else if index == 26 {
        0x004433u32
    } else if index == 27 {
        0x004466u32
    } else if index == 28 {
        0x004488u32
    } else if index == 29 {
        0x0044ccu32
    } else if index == 30 {
        0x0044ffu32
    } else if index == 31 {
        0x008833u32
    } else if index == 32 {
        0x008866u32
    } else if index == 33 {
        0x0088ccu32
    } else if index == 34 {
        0x0088ffu32
    } else if index == 35 {
        0x00aa00u32
    } else if index == 36 {
        0x00aa33u32
    } else if index == 37 {
        0x00aa66u32
    } else if index == 38 {
        0x00aa88u32
    } else if index == 39 {
        0x00aaccu32
    } else if index == 40 {
        0x00aaffu32
    } else if index == 41 {
        0x00ee00u32
    } else if index == 42 {
        0x00ee33u32
    } else if index == 43 {
        0x00ee66u32
    } else if index == 44 {
        0x00ee88u32
    } else if index == 45 {
        0x00eeccu32
    } else if index == 46 {
        0x00eeffu32
    } else if index == 47 {
        0x00ff33u32
    } else if index == 48 {
        0x00ff66u32
    } else if index == 49 {
        0x00ff88u32
    } else if index == 50 {
        0x00ffccu32
    } else if index == 51 {
        0x330000u32
    } else if index == 52 {
        0x330033u32
    } else if index == 53 {
        0x330066u32
    } else if index == 54 {
        0x330088u32
    } else if index == 55 {
        0x3300ccu32
    } else if index == 56 {
        0x3300ffu32
    } else if index == 57 {
        0x332200u32
    } else if index == 58 {
        0x332233u32
    } else if index == 59 {
        0x332266u32
    } else if index == 60 {
        0x332288u32
    } else if index == 61 {
        0x3322ccu32
    } else if index == 62 {
        0x3322ffu32
    } else if index == 63 {
        0x334400u32
    } else if index == 64 {
        0x334433u32
    } else if index == 65 {
        0x334466u32
    } else if index == 66 {
        0x334488u32
    } else if index == 67 {
        0x3344ccu32
    } else if index == 68 {
        0x3344ffu32
    } else if index == 69 {
        0x338800u32
    } else if index == 70 {
        0x338833u32
    } else if index == 71 {
        0x338866u32
    } else if index == 72 {
        0x338888u32
    } else if index == 73 {
        0x3388ccu32
    } else if index == 74 {
        0x3388ffu32
    } else if index == 75 {
        0x33aa00u32
    } else if index == 76 {
        0x33aa33u32
    } else if index == 77 {
        0x33aa66u32
    } else if index == 78 {
        0x33aa88u32
    } else if index == 79 {
        0x33aaccu32
    } else if index == 80 {
        0x33aaffu32
    } else if index == 81 {
        0x33ee00u32
    } else if index == 82 {
        0x33ee33u32
    } else if index == 83 {
        0x33ee66u32
    } else if index == 84 {
        0x33ee88u32
    } else if index == 85 {
        0x33eeccu32
    } else if index == 86 {
        0x33eeffu32
    } else if index == 87 {
        0x33ff00u32
    } else if index == 88 {
        0x33ff33u32
    } else if index == 89 {
        0x33ff66u32
    } else if index == 90 {
        0x33ff88u32
    } else if index == 91 {
        0x33ffccu32
    } else if index == 92 {
        0x33ffffu32
    } else if index == 93 {
        0x660000u32
    } else if index == 94 {
        0x660033u32
    } else if index == 95 {
        0x660066u32
    } else if index == 96 {
        0x660088u32
    } else if index == 97 {
        0x6600ccu32
    } else if index == 98 {
        0x6600ffu32
    } else if index == 99 {
        0x662200u32
    } else if index == 100 {
        0x662233u32
    } else if index == 101 {
        0x662266u32
    } else if index == 102 {
        0x662288u32
    } else if index == 103 {
        0x6622ccu32
    } else if index == 104 {
        0x6622ffu32
    } else if index == 105 {
        0x664400u32
    } else if index == 106 {
        0x664433u32
    } else if index == 107 {
        0x664466u32
    } else if index == 108 {
        0x664488u32
    } else if index == 109 {
        0x6644ccu32
    } else if index == 110 {
        0x6644ffu32
    } else if index == 111 {
        0x668800u32
    } else if index == 112 {
        0x668833u32
    } else if index == 113 {
        0x668866u32
    } else if index == 114 {
        0x668888u32
    } else if index == 115 {
        0x6688ccu32
    } else if index == 116 {
        0x6688ffu32
    } else if index == 117 {
        0x66aa00u32
    } else if index == 118 {
        0x66aa33u32
    } else if index == 119 {
        0x66aa66u32
    } else if index == 120 {
        0x66aa88u32
    } else if index == 121 {
        0x66aaccu32
    } else if index == 122 {
        0x66aaffu32
    } else if index == 123 {
        0x66ee00u32
    } else if index == 124 {
        0x66ee33u32
    } else if index == 125 {
        0x66ee66u32
    } else if index == 126 {
        0x66ee88u32
    } else if index == 127 {
        0x66eeccu32
    } else if index == 128 {
        0x66eeffu32
    } else if index == 129 {
        0x66ff00u32
    } else if index == 130 {
        0x66ff33u32
    } else if index == 131 {
        0x66ff66u32
    } else if index == 132 {
        0x66ff88u32
    } else if index == 133 {
        0x66ffccu32
    } else if index == 134 {
        0x66ffffu32
    } else if index == 135 {
        0x880033u32
    } else if index == 136 {
        0x880066u32
    } else if index == 137 {
        0x8800ccu32
    } else if index == 138 {
        0x8800ffu32
    } else if index == 139 {
        0x882200u32
    } else if index == 140 {
        0x882233u32
    } else if index == 141 {
        0x882266u32
    } else if index == 142 {
        0x882288u32
    } else if index == 143 {
        0x8822ccu32
    } else if index == 144 {
        0x8822ffu32
    } else if index == 145 {
        0x884400u32
    } else if index == 146 {
        0x884433u32
    } else if index == 147 {
        0x884466u32
    } else if index == 148 {
        0x884488u32
    } else if index == 149 {
        0x8844ccu32
    } else if index == 150 {
        0x8844ffu32
    } else if index == 151 {
        0x888833u32
    } else if index == 152 {
        0x888866u32
    } else if index == 153 {
        0x8888ccu32
    } else if index == 154 {
        0x8888ffu32
    } else if index == 155 {
        0x88aa00u32
    } else if index == 156 {
        0x88aa33u32
    } else if index == 157 {
        0x88aa66u32
    } else if index == 158 {
        0x88aa88u32
    } else if index == 159 {
        0x88aaccu32
    } else if index == 160 {
        0x88aaffu32
    } else if index == 161 {
        0x88ee00u32
    } else if index == 162 {
        0x88ee33u32
    } else if index == 163 {
        0x88ee66u32
    } else if index == 164 {
        0x88ee88u32
    } else if index == 165 {
        0x88eeccu32
    } else if index == 166 {
        0x88eeffu32
    } else if index == 167 {
        0x88ff00u32
    } else if index == 168 {
        0x88ff33u32
    } else if index == 169 {
        0x88ff66u32
    } else if index == 170 {
        0x88ff88u32
    } else if index == 171 {
        0x88ffccu32
    } else if index == 172 {
        0x88ffffu32
    } else if index == 173 {
        0xcc0000u32
    } else if index == 174 {
        0xcc0033u32
    } else if index == 175 {
        0xcc0066u32
    } else if index == 176 {
        0xcc0088u32
    } else if index == 177 {
        0xcc00ccu32
    } else if index == 178 {
        0xcc00ffu32
    } else if index == 179 {
        0xcc2200u32
    } else if index == 180 {
        0xcc2233u32
    } else if index == 181 {
        0xcc2266u32
    } else if index == 182 {
        0xcc2288u32
    } else if index == 183 {
        0xcc22ccu32
    } else if index == 184 {
        0xcc22ffu32
    } else if index == 185 {
        0xcc4400u32
    } else if index == 186 {
        0xcc4433u32
    } else if index == 187 {
        0xcc4466u32
    } else if index == 188 {
        0xcc4488u32
    } else if index == 189 {
        0xcc44ccu32
    } else if index == 190 {
        0xcc44ffu32
    } else if index == 191 {
        0xcc8800u32
    } else if index == 192 {
        0xcc8833u32
    } else if index == 193 {
        0xcc8866u32
    } else if index == 194 {
        0xcc8888u32
    } else if index == 195 {
        0xcc88ccu32
    } else if index == 196 {
        0xcc88ffu32
    } else if index == 197 {
        0xccaa00u32
    } else if index == 198 {
        0xccaa33u32
    } else if index == 199 {
        0xccaa66u32
    } else if index == 200 {
        0xccaa88u32
    } else if index == 201 {
        0xccaaccu32
    } else if index == 202 {
        0xccaaffu32
    } else if index == 203 {
        0xccee00u32
    } else if index == 204 {
        0xccee33u32
    } else if index == 205 {
        0xccee66u32
    } else if index == 206 {
        0xccee88u32
    } else if index == 207 {
        0xcceeccu32
    } else if index == 208 {
        0xcceeffu32
    } else if index == 209 {
        0xccff00u32
    } else if index == 210 {
        0xccff33u32
    } else if index == 211 {
        0xccff66u32
    } else if index == 212 {
        0xccff88u32
    } else if index == 213 {
        0xccffccu32
    } else if index == 214 {
        0xccffffu32
    } else if index == 215 {
        0xff0033u32
    } else if index == 216 {
        0xff0066u32
    } else if index == 217 {
        0xff0088u32
    } else if index == 218 {
        0xff00ccu32
    } else if index == 219 {
        0xff2200u32
    } else if index == 220 {
        0xff2233u32
    } else if index == 221 {
        0xff2266u32
    } else if index == 222 {
        0xff2288u32
    } else if index == 223 {
        0xff22ccu32
    } else if index == 224 {
        0xff22ffu32
    } else if index == 225 {
        0xff4400u32
    } else if index == 226 {
        0xff4433u32
    } else if index == 227 {
        0xff4466u32
    } else if index == 228 {
        0xff4488u32
    } else if index == 229 {
        0xff44ccu32
    } else if index == 230 {
        0xff44ffu32
    } else if index == 231 {
        0xff8800u32
    } else if index == 232 {
        0xff8833u32
    } else if index == 233 {
        0xff8866u32
    } else if index == 234 {
        0xff8888u32
    } else if index == 235 {
        0xff88ccu32
    } else if index == 236 {
        0xff88ffu32
    } else if index == 237 {
        0xffaa00u32
    } else if index == 238 {
        0xffaa33u32
    } else if index == 239 {
        0xffaa66u32
    } else if index == 240 {
        0xffaa88u32
    } else if index == 241 {
        0xffaaccu32
    } else if index == 242 {
        0xffaaffu32
    } else if index == 243 {
        0xffee00u32
    } else if index == 244 {
        0xffee33u32
    } else if index == 245 {
        0xffee66u32
    } else if index == 246 {
        0xffee88u32
    } else if index == 247 {
        0xffeeccu32
    } else if index == 248 {
        0xffeeffu32
    } else if index == 249 {
        0xffff33u32
    } else if index == 250 {
        0xffff66u32
    } else if index == 251 {
        0xffff88u32
    } else if index == 252 {
        0xffffccu32
    } else if index == 253 {
        0xbbbbbbu32
    } else if index == 254 {
        0x333333u32
    } else {
        0x777777u32
    }
}

/// The palette store.
pub struct Palette {
    slots: Vec<u32>,
}

impl Palette {
    /// The packed words of all slots, in order.
    pub closed spec fn spec_slots(self) -> Seq<u32> {
        self.slots@
    }

    /// The table always spans exactly the full slot count.
    pub open spec fn wf(self) -> bool {
        self.spec_slots().len() == PALETTE_SIZE
    }

    /// A palette holding the default colour table.
    pub fn new_default() -> (r: Palette)
        ensures
            r.wf(),
            r.spec_slots() =~= default_palette(),
    {
        let mut slots: Vec<u32> = Vec::new();
        let mut i: usize = 0;
        while i < PALETTE_SIZE
            invariant
                i <= PALETTE_SIZE,
                slots@.len() == i,
                forall|j: int| 0 <= j < i ==> slots@[j] == default_palette_entry(j),
            decreases PALETTE_SIZE - i,
        {
            slots.push(default_palette_entry_at(i));
            i += 1;
        }
        Palette { slots }
    }
    /// Read one slot: the packed colour in range, absent past the table.
    pub fn get(&self, index: usize) -> (r: Option<RGBColour>)
        requires
            self.wf(),
        ensures
            match palette_get(self.spec_slots(), index as int) {
                Some(v) => r is Some && r->Some_0.spec_packed() == v,
                None => r is None,
            },
    {
        if index < PALETTE_SIZE {
            Some(RGBColour::from_packed(self.slots[index]))
        } else {
            None
        }
    }

    /// Write one slot: updated in range, a no-op past the table, and no
    /// other slot changes either way.
    pub fn set(&mut self, index: usize, rgb: RGBColour)
        requires
            old(self).wf(),
        ensures
            final(self).wf(),
            final(self).spec_slots() == palette_set(
                old(self).spec_slots(),
                index as int,
                rgb.spec_packed(),
            ),
    {
        if index < PALETTE_SIZE {
            self.slots.set(index, rgb.as_packed());
        }
    }

    /// Replace slots pairwise from the start: extra input entries are
    /// ignored, slots past the input are left unchanged.
    pub fn set_all(&mut self, values: &Vec<RGBColour>)
        requires
            old(self).wf(),
        ensures
            final(self).wf(),
            forall|i: int|
                0 <= i < PALETTE_SIZE && i < values@.len()
                    ==> #[trigger] final(self).spec_slots()[i] == values@[i].spec_packed(),
            forall|i: int|
                values@.len() <= i < PALETTE_SIZE ==> #[trigger] final(self).spec_slots()[i]
                    == old(self).spec_slots()[i],
    {
        let count = if values.len() < PALETTE_SIZE {
            values.len()
        } else {
            PALETTE_SIZE
        };
        let mut i: usize = 0;
        while i < count
            invariant
                i <= count,
                count <= values@.len(),
                count <= PALETTE_SIZE,
                count == if values@.len() < PALETTE_SIZE { values@.len() as int } else {
                    PALETTE_SIZE as int
                },
                self.wf(),
                forall|j: int|
                    0 <= j < i ==> #[trigger] self.spec_slots()[j] == values@[j].spec_packed(),
                forall|j: int|
                    i <= j < PALETTE_SIZE ==> #[trigger] self.spec_slots()[j] == old(
                        self,
                    ).spec_slots()[j],
            decreases count - i,
        {
            self.slots.set(i, values[i].as_packed());
            i += 1;
        }
    }
}

/// Writing a colour to a slot and reading the same slot back yields exactly
/// that colour; reading any slot past the table yields nothing; and a write,
/// in range or not, never alters any other slot.
pub proof fn lemma_palette_round_trip(s: Seq<u32>, i: int, v: u32)
    requires
        s.len() == PALETTE_SIZE,
    ensures
        0 <= i < PALETTE_SIZE ==> palette_get(palette_set(s, i, v), i) == Some(v),
        !(0 <= i < PALETTE_SIZE) ==> palette_get(s, i) is None && palette_set(s, i, v) == s,
        forall|j: int|
            0 <= j < PALETTE_SIZE && j != i ==> #[trigger] palette_set(s, i, v)[j] == s[j],
{
}

} // verus!
