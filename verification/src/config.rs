//! The settings of a game: the size of the grid and the number of decoy files.

use vstd::prelude::*;

verus! {

/// The size of the grid in cells, and the number of extra blank files that
/// are written beside the cells' files to pad the arrangement of the icons.
#[derive(Clone, Copy, Debug, PartialEq, Eq, Structural)]
pub struct Config {
    width: u32,
    height: u32,
    offset: u32,
}

impl Config {
    /// The number of columns.
    pub closed spec fn spec_width(&self) -> u32 {
        self.width
    }

    /// The number of rows.
    pub closed spec fn spec_height(&self) -> u32 {
        self.height
    }

    /// The number of decoy files.
    pub closed spec fn spec_offset(&self) -> u32 {
        self.offset
    }

    /// A grid has cells only if it has at least one column and one row.
    pub open spec fn has_cells(&self) -> bool {
        self.spec_width() > 0 && self.spec_height() > 0
    }

    /// Two settings with the same three numbers are the same settings.
    pub proof fn lemma_determined_by_fields(self, other: Config)
        requires
            self.spec_width() == other.spec_width(),
            self.spec_height() == other.spec_height(),
            self.spec_offset() == other.spec_offset(),
        ensures
            self == other,
    {
    }

    /// Settings for a grid of `width` columns and `height` rows, with
    /// `offset` decoy files.
    pub fn new(width: u32, height: u32, offset: u32) -> (config: Config)
        ensures
            config.spec_width() == width,
            config.spec_height() == height,
            config.spec_offset() == offset,
    {
        Config { width, height, offset }
    }

    /// The number of columns.
    #[verifier::when_used_as_spec(spec_width)]
    pub fn width(&self) -> (width: u32)
        ensures
            width == self.spec_width(),
    {
        self.width
    }

    /// The number of rows.
    #[verifier::when_used_as_spec(spec_height)]
    pub fn height(&self) -> (height: u32)
        ensures
            height == self.spec_height(),
    {
        self.height
    }

    /// The number of decoy files.
    #[verifier::when_used_as_spec(spec_offset)]
    pub fn offset(&self) -> (offset: u32)
        ensures
            offset == self.spec_offset(),
    {
        self.offset
    }

    /// Whether the grid has at least one cell.
    #[verifier::when_used_as_spec(has_cells)]
    pub fn is_playable(&self) -> (playable: bool)
        ensures
            playable == self.has_cells(),
    {
        self.width > 0 && self.height > 0
    }
}

} // verus!
