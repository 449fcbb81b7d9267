use vstd::prelude::*;

verus! {

/// The four glyphs needed to draw one full horizontal border row (top or
/// bottom) of a table: the renderer emits `left_corner`, then repeats
/// `horizontal_line` for the width of each column with `column_separator`
/// between columns, and closes the row with `right_corner`.
#[derive(Clone, Copy, Debug, PartialEq, Eq, Structural)]
pub struct BorderElements {
    pub left_corner: char,
    pub horizontal_line: char,
    pub column_separator: char,
    pub right_corner: char,
}

/// Style of the border around the rendered table.
#[derive(Clone, Copy, Debug, PartialEq, Eq, Structural)]
pub enum BorderStyle {
    /// Box-drawing characters. This is the nicest one.
    Unicode,
    /// Plain ASCII approximations. Looks okish.
    Ascii,
    /// No visible border: separators render as blank space, and the
    /// header and footer rows are omitted altogether.
    Borderless,
}

impl BorderStyle {
    /// The glyphs of the top border row, absent for the borderless style.
    pub open spec fn header_elems_spec(self) -> Option<BorderElements> {
        match self {
            BorderStyle::Unicode => Some(BorderElements {
                left_corner: '┌',
                horizontal_line: '─',
                column_separator: '┬',
                right_corner: '┐',
            }),
            BorderStyle::Ascii => Some(BorderElements {
                left_corner: '+',
                horizontal_line: '-',
                column_separator: '+',
                right_corner: '+',
            }),
            BorderStyle::Borderless => None,
        }
    }

    /// The glyphs of the bottom border row, absent for the borderless style.
    pub open spec fn footer_elems_spec(self) -> Option<BorderElements> {
        match self {
            BorderStyle::Unicode => Some(BorderElements {
                left_corner: '└',
                horizontal_line: '─',
                column_separator: '┴',
                right_corner: '┘',
            }),
            BorderStyle::Ascii => Some(BorderElements {
                left_corner: '+',
                horizontal_line: '-',
                column_separator: '+',
                right_corner: '+',
            }),
            BorderStyle::Borderless => None,
        }
    }

    /// The glyph drawn at the leftmost and rightmost edge of a content row.
    pub open spec fn outer_sep_spec(self) -> char {
        match self {
            BorderStyle::Unicode => '│',
            BorderStyle::Ascii => '|',
            BorderStyle::Borderless => ' ',
        }
    }

    /// The glyph drawn between adjacent content columns within a row.
    pub open spec fn inner_sep_spec(self) -> char {
        match self {
            BorderStyle::Unicode => '┊',
            BorderStyle::Ascii => '|',
            BorderStyle::Borderless => ' ',
        }
    }

    /// Glyphs for the top border row, or `None` when no top border row is
    /// to be drawn at all.
    pub fn header_elems(&self) -> (r: Option<BorderElements>)
        ensures
            r == self.header_elems_spec(),
    {
        match self {
            BorderStyle::Unicode => Some(BorderElements {
                left_corner: '┌',
                horizontal_line: '─',
                column_separator: '┬',
                right_corner: '┐',
            }),
            BorderStyle::Ascii => Some(BorderElements {
                left_corner: '+',
                horizontal_line: '-',
                column_separator: '+',
                right_corner: '+',
            }),
            BorderStyle::Borderless => None,
        }
    }

    /// Glyphs for the bottom border row, or `None` when no bottom border
    /// row is to be drawn at all.
    pub fn footer_elems(&self) -> (r: Option<BorderElements>)
        ensures
            r == self.footer_elems_spec(),
    {
        match self {
            BorderStyle::Unicode => Some(BorderElements {
                left_corner: '└',
                horizontal_line: '─',
                column_separator: '┴',
                right_corner: '┘',
            }),
            BorderStyle::Ascii => Some(BorderElements {
                left_corner: '+',
                horizontal_line: '-',
                column_separator: '+',
                right_corner: '+',
            }),
            BorderStyle::Borderless => None,
        }
    }

    /// The separator at the left and right edges of every content row.
    /// Always a single character, a blank for the borderless style.
    pub fn outer_sep(&self) -> (r: char)
        ensures
            r == self.outer_sep_spec(),
    {
        match self {
            BorderStyle::Unicode => '│',
            BorderStyle::Ascii => '|',
            BorderStyle::Borderless => ' ',
        }
    }

    /// The separator between adjacent content columns within a row.
    /// Always a single character, a blank for the borderless style.
    pub fn inner_sep(&self) -> (r: char)
        ensures
            r == self.inner_sep_spec(),
    {
        match self {
            BorderStyle::Unicode => '┊',
            BorderStyle::Ascii => '|',
            BorderStyle::Borderless => ' ',
        }
    }
}

/// Repeated queries with the same style value always give identical
/// results: each of the four queries is a pure function of the style alone.
pub proof fn lemma_queries_deterministic(a: BorderStyle, b: BorderStyle)
    requires
        a == b,
    ensures
        a.header_elems_spec() == b.header_elems_spec(),
        a.footer_elems_spec() == b.footer_elems_spec(),
        a.outer_sep_spec() == b.outer_sep_spec(),
        a.inner_sep_spec() == b.inner_sep_spec(),
{
}

/// Every style has a defined result for all four queries: the bordered
/// styles carry both a header and a footer row, the borderless style
/// carries neither, and the two separators are defined for every style.
pub proof fn lemma_queries_total(s: BorderStyle)
    ensures
        s is Unicode || s is Ascii <==> s.header_elems_spec() is Some,
        s is Unicode || s is Ascii <==> s.footer_elems_spec() is Some,
        s is Borderless <==> s.header_elems_spec() is None,
        s is Borderless <==> s.footer_elems_spec() is None,
        s is Borderless ==> s.outer_sep_spec() == ' ' && s.inner_sep_spec() == ' ',
{
}

} // verus!
