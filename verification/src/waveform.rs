//! The waveform tables: what the controller's lookup-table register holds
//! for each refresh profile.

use vstd::prelude::*;

verus! {

/// The refresh profile: which waveform table drives the panel.
#[derive(Clone, Copy, Debug, PartialEq, Eq, Structural)]
pub enum RefreshLut {
    /// Redraws the whole panel: slower, with the best contrast.
    Full,
    /// Redraws quickly, at the price of ghosting.
    Quick,
}

/// The number of bytes of the controller's lookup-table register.
pub const LUT_LEN: usize = 70;

/// The waveform table of the full profile.
pub const LUT_FULL_UPDATE: [u8; 70] = [
    0x80, 0x60, 0x40, 0x00, 0x00, 0x00, 0x00,
    0x10, 0x60, 0x20, 0x00, 0x00, 0x00, 0x00,
    0x80, 0x60, 0x40, 0x00, 0x00, 0x00, 0x00,
    0x10, 0x60, 0x20, 0x00, 0x00, 0x00, 0x00,
    0x00, 0x00, 0x00, 0x00, 0x00, 0x00, 0x00,
    0x03, 0x03, 0x00, 0x00, 0x02,
    0x09, 0x09, 0x00, 0x00, 0x02,
    0x03, 0x03, 0x00, 0x00, 0x02,
    0x00, 0x00, 0x00, 0x00, 0x00,
    0x00, 0x00, 0x00, 0x00, 0x00,
    0x00, 0x00, 0x00, 0x00, 0x00,
    0x00, 0x00, 0x00, 0x00, 0x00,
];

/// The waveform table of the quick profile.
pub const LUT_PARTIAL_UPDATE: [u8; 70] = [
    0x00, 0x00, 0x00, 0x00, 0x00, 0x00, 0x00,
    0x80, 0x00, 0x00, 0x00, 0x00, 0x00, 0x00,
    0x40, 0x00, 0x00, 0x00, 0x00, 0x00, 0x00,
    0x00, 0x00, 0x00, 0x00, 0x00, 0x00, 0x00,
    0x00, 0x00, 0x00, 0x00, 0x00, 0x00, 0x00,
    0x0A, 0x00, 0x00, 0x00, 0x00,
    0x00, 0x00, 0x00, 0x00, 0x00,
    0x00, 0x00, 0x00, 0x00, 0x00,
    0x00, 0x00, 0x00, 0x00, 0x00,
    0x00, 0x00, 0x00, 0x00, 0x00,
    0x00, 0x00, 0x00, 0x00, 0x00,
    0x00, 0x00, 0x00, 0x00, 0x00,
];

/// The table of a profile.
pub open spec fn spec_waveform_table(refresh: RefreshLut) -> Seq<u8> {
    match refresh {
        RefreshLut::Full => LUT_FULL_UPDATE@,
        RefreshLut::Quick => LUT_PARTIAL_UPDATE@,
    }
}

/// Looks up the table of a profile.
pub fn waveform_table(refresh: RefreshLut) -> (table: [u8; 70])
    ensures
        table@ == spec_waveform_table(refresh),
{
    match refresh {
        RefreshLut::Full => LUT_FULL_UPDATE,
        RefreshLut::Quick => LUT_PARTIAL_UPDATE,
    }
}

/// Each table fills the lookup-table register exactly, and the two tables
/// differ.
pub proof fn lemma_waveform_tables(refresh: RefreshLut)
    ensures
        spec_waveform_table(refresh).len() == LUT_LEN,
        spec_waveform_table(RefreshLut::Full) != spec_waveform_table(RefreshLut::Quick),
{
    assert(LUT_FULL_UPDATE@[0] == 0x80u8);
    assert(LUT_PARTIAL_UPDATE@[0] == 0x00u8);
}

} // verus!
