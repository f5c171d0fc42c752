//! The blackbody temperature-to-colour table.
//!
//! Disk temperatures are turned into RGB estimates through a 111-entry
//! table covering 1000 K to 12000 K in 100 K steps, with linear
//! interpolation between entries.  Channels are returned scaled by 100
//! (so `COLOR_SCALE` is full brightness), which keeps the interpolation
//! exact; outside the table the boundary colour is returned together
//! with the distance used by the renderer's Gaussian falloff, so the
//! result never extrapolates beyond the table's range.
use vstd::prelude::*;

verus! {

/// Full scale of an interpolated colour channel: 255 * 100.
pub const COLOR_SCALE: u32 = 25_500;

/// Number of table entries.
pub const TABLE_LEN: usize = 111;

/// Temperature of the first table entry (Kelvin).
pub const TABLE_BASE_KELVIN: u64 = 1_000;

/// Temperature of the last table entry (Kelvin).
pub const TABLE_TOP_KELVIN: u64 = 12_000;

/// Centre of the hot-side Gaussian falloff (Kelvin): the distance is
/// measured from two entries past the table top.
pub const FALLOFF_HIGH_ORIGIN: u64 = 12_200;

/// The table: RGB at 1000 K + 100 K * index.
pub open spec fn blackbody_table() -> Seq<(u8, u8, u8)> {
    seq![
        (255u8, 56u8, 0u8), (255u8, 71u8, 0u8), (255u8, 83u8, 0u8),
        (255u8, 93u8, 0u8), (255u8, 101u8, 0u8), (255u8, 109u8, 0u8),
        (255u8, 115u8, 0u8), (255u8, 121u8, 0u8), (255u8, 126u8, 0u8),
        (255u8, 131u8, 0u8), (255u8, 138u8, 18u8), (255u8, 142u8, 33u8),
        (255u8, 147u8, 44u8), (255u8, 152u8, 54u8), (255u8, 157u8, 63u8),
        (255u8, 161u8, 72u8), (255u8, 165u8, 79u8), (255u8, 169u8, 87u8),
        (255u8, 173u8, 94u8), (255u8, 177u8, 101u8), (255u8, 180u8, 107u8),
        (255u8, 184u8, 114u8), (255u8, 187u8, 120u8), (255u8, 190u8, 126u8),
        (255u8, 193u8, 132u8), (255u8, 196u8, 137u8), (255u8, 199u8, 143u8),
        (255u8, 201u8, 148u8), (255u8, 204u8, 153u8), (255u8, 206u8, 159u8),
        (255u8, 209u8, 163u8), (255u8, 211u8, 168u8), (255u8, 213u8, 173u8),
        (255u8, 215u8, 177u8), (255u8, 217u8, 182u8), (255u8, 219u8, 186u8),
        (255u8, 221u8, 190u8), (255u8, 223u8, 194u8), (255u8, 225u8, 198u8),
        (255u8, 227u8, 202u8), (255u8, 228u8, 206u8), (255u8, 230u8, 210u8),
        (255u8, 232u8, 213u8), (255u8, 233u8, 217u8), (255u8, 235u8, 220u8),
        (255u8, 236u8, 224u8), (255u8, 238u8, 227u8), (255u8, 239u8, 230u8),
        (255u8, 240u8, 233u8), (255u8, 242u8, 236u8), (255u8, 243u8, 239u8),
        (255u8, 244u8, 242u8), (255u8, 245u8, 245u8), (255u8, 246u8, 247u8),
        (255u8, 248u8, 251u8), (255u8, 249u8, 253u8), (254u8, 249u8, 255u8),
        (252u8, 247u8, 255u8), (249u8, 246u8, 255u8), (247u8, 245u8, 255u8),
        (245u8, 243u8, 255u8), (243u8, 242u8, 255u8), (240u8, 241u8, 255u8),
        (239u8, 240u8, 255u8), (237u8, 239u8, 255u8), (235u8, 238u8, 255u8),
        (233u8, 237u8, 255u8), (231u8, 236u8, 255u8), (230u8, 235u8, 255u8),
        (228u8, 234u8, 255u8), (227u8, 233u8, 255u8), (225u8, 232u8, 255u8),
        (224u8, 231u8, 255u8), (222u8, 230u8, 255u8), (221u8, 230u8, 255u8),
        (220u8, 229u8, 255u8), (218u8, 229u8, 255u8), (217u8, 227u8, 255u8),
        (216u8, 227u8, 255u8), (215u8, 226u8, 255u8), (214u8, 225u8, 255u8),
        (212u8, 225u8, 255u8), (211u8, 224u8, 255u8), (210u8, 223u8, 255u8),
        (209u8, 223u8, 255u8), (208u8, 222u8, 255u8), (207u8, 221u8, 255u8),
        (207u8, 221u8, 255u8), (206u8, 220u8, 255u8), (205u8, 220u8, 255u8),
        (207u8, 218u8, 255u8), (207u8, 218u8, 255u8), (206u8, 217u8, 255u8),
        (205u8, 217u8, 255u8), (204u8, 216u8, 255u8), (204u8, 216u8, 255u8),
        (203u8, 215u8, 255u8), (202u8, 215u8, 255u8), (202u8, 214u8, 255u8),
        (201u8, 214u8, 255u8), (200u8, 213u8, 255u8), (200u8, 213u8, 255u8),
        (199u8, 212u8, 255u8), (198u8, 212u8, 255u8), (198u8, 212u8, 255u8),
        (197u8, 211u8, 255u8), (197u8, 211u8, 255u8), (197u8, 210u8, 255u8),
        (196u8, 210u8, 255u8), (195u8, 210u8, 255u8), (195u8, 209u8, 255u8),
    ]
}

/// Table lookup.
fn table_entry(i: usize) -> (c: (u8, u8, u8))
    requires
        i < TABLE_LEN,
    ensures
        c == blackbody_table()[i as int],
{
    let table: [(u8, u8, u8); 111] = [
            (255u8, 56u8, 0u8), (255u8, 71u8, 0u8), (255u8, 83u8, 0u8),
            (255u8, 93u8, 0u8), (255u8, 101u8, 0u8), (255u8, 109u8, 0u8),
            (255u8, 115u8, 0u8), (255u8, 121u8, 0u8), (255u8, 126u8, 0u8),
            (255u8, 131u8, 0u8), (255u8, 138u8, 18u8), (255u8, 142u8, 33u8),
            (255u8, 147u8, 44u8), (255u8, 152u8, 54u8), (255u8, 157u8, 63u8),
            (255u8, 161u8, 72u8), (255u8, 165u8, 79u8), (255u8, 169u8, 87u8),
            (255u8, 173u8, 94u8), (255u8, 177u8, 101u8), (255u8, 180u8, 107u8),
            (255u8, 184u8, 114u8), (255u8, 187u8, 120u8), (255u8, 190u8, 126u8),
            (255u8, 193u8, 132u8), (255u8, 196u8, 137u8), (255u8, 199u8, 143u8),
            (255u8, 201u8, 148u8), (255u8, 204u8, 153u8), (255u8, 206u8, 159u8),
            (255u8, 209u8, 163u8), (255u8, 211u8, 168u8), (255u8, 213u8, 173u8),
            (255u8, 215u8, 177u8), (255u8, 217u8, 182u8), (255u8, 219u8, 186u8),
            (255u8, 221u8, 190u8), (255u8, 223u8, 194u8), (255u8, 225u8, 198u8),
            (255u8, 227u8, 202u8), (255u8, 228u8, 206u8), (255u8, 230u8, 210u8),
            (255u8, 232u8, 213u8), (255u8, 233u8, 217u8), (255u8, 235u8, 220u8),
            (255u8, 236u8, 224u8), (255u8, 238u8, 227u8), (255u8, 239u8, 230u8),
            (255u8, 240u8, 233u8), (255u8, 242u8, 236u8), (255u8, 243u8, 239u8),
            (255u8, 244u8, 242u8), (255u8, 245u8, 245u8), (255u8, 246u8, 247u8),
            (255u8, 248u8, 251u8), (255u8, 249u8, 253u8), (254u8, 249u8, 255u8),
            (252u8, 247u8, 255u8), (249u8, 246u8, 255u8), (247u8, 245u8, 255u8),
            (245u8, 243u8, 255u8), (243u8, 242u8, 255u8), (240u8, 241u8, 255u8),
            (239u8, 240u8, 255u8), (237u8, 239u8, 255u8), (235u8, 238u8, 255u8),
            (233u8, 237u8, 255u8), (231u8, 236u8, 255u8), (230u8, 235u8, 255u8),
            (228u8, 234u8, 255u8), (227u8, 233u8, 255u8), (225u8, 232u8, 255u8),
            (224u8, 231u8, 255u8), (222u8, 230u8, 255u8), (221u8, 230u8, 255u8),
            (220u8, 229u8, 255u8), (218u8, 229u8, 255u8), (217u8, 227u8, 255u8),
            (216u8, 227u8, 255u8), (215u8, 226u8, 255u8), (214u8, 225u8, 255u8),
            (212u8, 225u8, 255u8), (211u8, 224u8, 255u8), (210u8, 223u8, 255u8),
            (209u8, 223u8, 255u8), (208u8, 222u8, 255u8), (207u8, 221u8, 255u8),
            (207u8, 221u8, 255u8), (206u8, 220u8, 255u8), (205u8, 220u8, 255u8),
            (207u8, 218u8, 255u8), (207u8, 218u8, 255u8), (206u8, 217u8, 255u8),
            (205u8, 217u8, 255u8), (204u8, 216u8, 255u8), (204u8, 216u8, 255u8),
            (203u8, 215u8, 255u8), (202u8, 215u8, 255u8), (202u8, 214u8, 255u8),
            (201u8, 214u8, 255u8), (200u8, 213u8, 255u8), (200u8, 213u8, 255u8),
            (199u8, 212u8, 255u8), (198u8, 212u8, 255u8), (198u8, 212u8, 255u8),
            (197u8, 211u8, 255u8), (197u8, 211u8, 255u8), (197u8, 210u8, 255u8),
            (196u8, 210u8, 255u8), (195u8, 210u8, 255u8), (195u8, 209u8, 255u8),
    ];
    proof {
        assert(table@ =~= blackbody_table());
    }
    table[i]
}

/// Linear interpolation between two adjacent channel values, in
/// hundredths: the result is `hi * frac + lo * (100 - frac)`.
pub open spec fn interp_spec(lo: int, hi: int, frac: int) -> int {
    hi * frac + lo * (100 - frac)
}

fn interp(lo: u8, hi: u8, frac: u64) -> (v: u32)
    requires
        frac <= 100,
    ensures
        v == interp_spec(lo as int, hi as int, frac as int),
        v <= COLOR_SCALE,
{
    proof {
        assert((hi as int) * (frac as int) + (lo as int) * (100 - frac as int)
            <= 255 * (frac as int) + 255 * (100 - frac as int)) by (nonlinear_arith)
            requires
                hi <= 255,
                lo <= 255,
                frac <= 100,
        ;
    }
    (hi as u32) * (frac as u32) + (lo as u32) * (100 - frac as u32)
}

/// A colour estimate for one temperature: channels scaled by 100, a
/// flag saying whether the temperature fell inside the table, and — for
/// temperatures outside it — the falloff distance in hundredths of a
/// table index, from which the renderer computes the Gaussian damping
/// `exp(-(d/100)^2 / 1000)`.
pub struct ColorSample {
    pub red: u32,
    pub green: u32,
    pub blue: u32,
    pub in_table: bool,
    pub falloff_centi: u64,
}

/// What `temp_to_color` returns for each temperature (Kelvin): below
/// the table, the first entry with the distance to the table base;
/// inside the table, exact linear interpolation between the two
/// neighbouring entries; above it, the last entry with the distance
/// from `FALLOFF_HIGH_ORIGIN`.
pub open spec fn color_sample_ok(temp: int, c: ColorSample) -> bool {
    if temp < TABLE_BASE_KELVIN {
        &&& c.red == 100 * blackbody_table()[0].0
        &&& c.green == 100 * blackbody_table()[0].1
        &&& c.blue == 100 * blackbody_table()[0].2
        &&& !c.in_table
        &&& c.falloff_centi == TABLE_BASE_KELVIN - temp
    } else if temp <= TABLE_TOP_KELVIN {
        let idx = (temp - TABLE_BASE_KELVIN) / 100;
        let frac = (temp - TABLE_BASE_KELVIN) % 100;
        &&& c.in_table
        &&& c.falloff_centi == 0
        &&& if frac == 0 {
            &&& c.red == 100 * blackbody_table()[idx].0
            &&& c.green == 100 * blackbody_table()[idx].1
            &&& c.blue == 100 * blackbody_table()[idx].2
        } else {
            &&& c.red == interp_spec(blackbody_table()[idx].0 as int,
                blackbody_table()[idx + 1].0 as int, frac)
            &&& c.green == interp_spec(blackbody_table()[idx].1 as int,
                blackbody_table()[idx + 1].1 as int, frac)
            &&& c.blue == interp_spec(blackbody_table()[idx].2 as int,
                blackbody_table()[idx + 1].2 as int, frac)
        }
    } else {
        &&& c.red == 100 * blackbody_table()[TABLE_LEN - 1].0
        &&& c.green == 100 * blackbody_table()[TABLE_LEN - 1].1
        &&& c.blue == 100 * blackbody_table()[TABLE_LEN - 1].2
        &&& !c.in_table
        &&& c.falloff_centi == vstd::math::abs(temp - FALLOFF_HIGH_ORIGIN)
    }
}

/// Colour of a blackbody at `temp` Kelvin.  Every channel stays within
/// `COLOR_SCALE`; outside the table the boundary entry is returned with
/// the falloff distance, never an extrapolated value.
pub fn temp_to_color(temp: u64) -> (c: ColorSample)
    ensures
        color_sample_ok(temp as int, c),
        c.red <= COLOR_SCALE,
        c.green <= COLOR_SCALE,
        c.blue <= COLOR_SCALE,
{
    if temp < TABLE_BASE_KELVIN {
        let e = table_entry(0);
        ColorSample {
            red: 100 * (e.0 as u32),
            green: 100 * (e.1 as u32),
            blue: 100 * (e.2 as u32),
            in_table: false,
            falloff_centi: TABLE_BASE_KELVIN - temp,
        }
    } else if temp <= TABLE_TOP_KELVIN {
        let fc: u64 = temp - TABLE_BASE_KELVIN;
        let idx: usize = (fc / 100) as usize;
        let frac: u64 = fc % 100;
        if frac == 0 {
            let e = table_entry(idx);
            ColorSample {
                red: 100 * (e.0 as u32),
                green: 100 * (e.1 as u32),
                blue: 100 * (e.2 as u32),
                in_table: true,
                falloff_centi: 0,
            }
        } else {
            let lo = table_entry(idx);
            let hi = table_entry(idx + 1);
            ColorSample {
                red: interp(lo.0, hi.0, frac),
                green: interp(lo.1, hi.1, frac),
                blue: interp(lo.2, hi.2, frac),
                in_table: true,
                falloff_centi: 0,
            }
        }
    } else {
        let e = table_entry(TABLE_LEN - 1);
        let d: u64 = if temp >= FALLOFF_HIGH_ORIGIN {
            temp - FALLOFF_HIGH_ORIGIN
        } else {
            FALLOFF_HIGH_ORIGIN - temp
        };
        ColorSample {
            red: 100 * (e.0 as u32),
            green: 100 * (e.1 as u32),
            blue: 100 * (e.2 as u32),
            in_table: false,
            falloff_centi: d,
        }
    }
}

} // verus!
