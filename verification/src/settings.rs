//! Per-request transform configuration.
//!
//! The host owns a source description per transform request; each frame the
//! render side projects it down to the minimal settings block the GPU
//! consumes. The projection is a pure copy, and configuration errors (a
//! grid that is not a square power of two matching the stage count) are
//! reported synchronously when the request is validated, never coerced.

use vstd::prelude::*;

verus! {

use vstd::arithmetic::power2::pow2;

use crate::Extent2;
use crate::FftError;
use crate::pow2_u32;
use crate::twiddle::FftRoots;
use crate::twiddle::TABLE_LEN;
use crate::twiddle::TwiddleEntry;
use crate::twiddle::zero_table;

/// Largest accepted stage count per axis: the grid may not exceed
/// `4096 × 4096`, so at most `2^12` elements per axis.
pub const MAX_AXIS_ORDERS: u32 = 12;

/// IEEE-754 bit pattern of the value one, carried opaquely in the settings
/// uniform as the default normalization coefficient.
pub const NORMALIZATION_ONE_BITS: u32 = 0x3F80_0000;

/// Whether a grid size and stage count form a valid configuration: a
/// square grid whose side is `2^orders`, with `orders` between 1 and
/// `MAX_AXIS_ORDERS`.
pub open spec fn config_valid(size: Extent2, orders: u32) -> bool {
    &&& 1 <= orders <= MAX_AXIS_ORDERS
    &&& size.x as nat == pow2(orders as nat)
    &&& size.y == size.x
}

/// The host-facing description of one transform request.
pub struct FftSource {
    /// Size of the transform grid.
    pub size: Extent2,
    /// Number of butterfly stages per axis (log2 of the grid side).
    pub orders: u32,
    /// Padding around the source texture.
    pub padding: Extent2,
    /// The twiddle table for this request.
    pub roots: FftRoots,
    /// Whether the inverse transform is requested.
    pub inverse: bool,
}

impl FftSource {
    /// Reports `InvalidConfiguration` exactly when the grid size and stage
    /// count do not form a valid configuration.
    pub fn validate(&self) -> (r: Result<(), FftError>)
        ensures
            r is Ok <==> config_valid(self.size, self.orders),
            r is Err ==> r == Err::<(), FftError>(FftError::InvalidConfiguration),
    {
        if self.orders < 1 || self.orders > MAX_AXIS_ORDERS {
            return Err(FftError::InvalidConfiguration);
        }
        let side: u32 = pow2_u32(self.orders);
        if self.size.x == side && self.size.y == self.size.x {
            Ok(())
        } else {
            Err(FftError::InvalidConfiguration)
        }
    }
}

impl Default for FftSource {
    /// A 256×256 forward request with no padding and a zeroed table.
    fn default() -> (r: FftSource)
        ensures
            r.size == (Extent2 { x: 256, y: 256 }),
            r.orders == 8,
            r.padding == (Extent2 { x: 0, y: 0 }),
            !r.inverse,
            r.roots.wf(),
            !r.roots.inverse,
            forall|i: int| 0 <= i < TABLE_LEN ==> r.roots.roots@[i] == TwiddleEntry::Zero,
    {
        FftSource {
            size: Extent2 { x: 256, y: 256 },
            orders: 8,
            padding: Extent2 { x: 0, y: 0 },
            roots: zero_table(),
            inverse: false,
        }
    }
}

/// The settings block consumed by every compute pass, one uniform per
/// request. The window and normalization coefficients are numeric tuning
/// knobs the shaders interpret; they are carried here as raw IEEE-754 bit
/// patterns, opaque to the planning logic.
#[derive(Clone, Copy, Debug, PartialEq, Eq, Structural)]
pub struct FftSettings {
    pub size: Extent2,
    pub orders: u32,
    pub padding: Extent2,
    /// 1 for an inverse transform, 0 otherwise.
    pub inverse: u32,
    pub window_type: u32,
    pub window_strength_bits: u32,
    pub radial_falloff_bits: u32,
    pub normalization_bits: u32,
}

impl FftSettings {
    /// The per-frame projection of the host-owned source description:
    /// a pure copy of the geometry, with default post-processing
    /// coefficients.
    pub fn extract_component(item: &FftSource) -> (r: Option<FftSettings>)
        ensures
            r == Some(
                FftSettings {
                    size: item.size,
                    orders: item.orders,
                    padding: item.padding,
                    inverse: if item.inverse {
                        1u32
                    } else {
                        0u32
                    },
                    window_type: 0u32,
                    window_strength_bits: 0u32,
                    radial_falloff_bits: 0u32,
                    normalization_bits: NORMALIZATION_ONE_BITS,
                },
            ),
    {
        Some(
            FftSettings {
                size: item.size,
                orders: item.orders,
                padding: item.padding,
                inverse: if item.inverse {
                    1
                } else {
                    0
                },
                window_type: 0,
                window_strength_bits: 0,
                radial_falloff_bits: 0,
                normalization_bits: NORMALIZATION_ONE_BITS,
            },
        )
    }
}

impl FftRoots {
    /// The per-frame projection of the host-owned twiddle table: an
    /// element-wise copy of the table carried by the source description.
    pub fn extract_component(item: &FftSource) -> (r: Option<FftRoots>)
        ensures
            r matches Some(t) && t.roots@ == item.roots.roots@ && t.inverse == item.roots.inverse,
    {
        Some(item.roots.duplicate())
    }
}

} // verus!
