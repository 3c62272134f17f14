//! Pages of `cb7` (7z) archives: entries are read as in `cbt` archives.
use vstd::prelude::*;

pub use crate::read::cbt::{
    first_matching_entry, normalize_current_dir, same_entry_path, top_level_page_names,
};

verus! {

/// Whether a file is read from the entries unpacked into spooled temporary files
/// (unpacking a solid archive once), rather than from the archive itself: only
/// when that is enabled and the archive is solid.
pub fn reads_from_spool(use_spooled_for_solid_archives: bool, is_solid: bool) -> (r: bool)
    ensures
        r == (use_spooled_for_solid_archives && is_solid),
{
    use_spooled_for_solid_archives && is_solid
}

} // verus!
