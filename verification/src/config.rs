//! What the environment says about the output: whether header cells are
//! bold, and how wide the terminal is.

use vstd::prelude::*;
use vstd::string::*;

verus! {

/// The width that is assumed where the output is no interactive terminal and
/// no width is known.
pub const DEFAULT_WIDTH_IF_NO_TTY: u16 = 120;

/// The name of the environment variable that switches bold headers.
pub const BOLD_TABLE_HEADERS_IN_DISPLAY: &'static str = "DAFT_BOLD_TABLE_HEADERS";

/// The settings of one rendering, read by the caller before it renders.
#[derive(Clone, Copy, Debug)]
pub struct DisplayConfig {
    /// Whether the text of header cells is bold.
    pub bold_headers: bool,
    /// Whether the output goes to an interactive terminal.
    pub interactive: bool,
    /// The width that was configured, or that the terminal reports.
    pub width: Option<u16>,
}

impl DisplayConfig {
    /// Whether the default width is applied: only where the output is not
    /// interactive and no width is known.
    pub open spec fn uses_default_width(self) -> bool {
        self.width is None && !self.interactive
    }

    /// Whether a width can be had: a known one, or the default.
    pub open spec fn width_known(self) -> bool {
        self.width is Some || !self.interactive
    }

    /// The width that the layout is planned for: the known width as it is,
    /// else the default.
    pub open spec fn terminal_width_spec(self) -> nat {
        match self.width {
            Some(w) => w as nat,
            None => DEFAULT_WIDTH_IF_NO_TTY as nat,
        }
    }

    pub fn has_width(&self) -> (known: bool)
        ensures
            known == self.width_known(),
    {
        self.width.is_some() || !self.interactive
    }

    /// The width that the layout is planned for.
    pub fn terminal_width(&self) -> (width: usize)
        requires
            self.width_known(),
        ensures
            width == self.terminal_width_spec(),
            self.width matches Some(w) ==> width == w,
            self.uses_default_width() ==> width == 120,
    {
        match self.width {
            Some(w) => w as usize,
            None => DEFAULT_WIDTH_IF_NO_TTY as usize,
        }
    }
}

impl Default for DisplayConfig {
    /// Bold headers, on an output that is no terminal and has no known width.
    fn default() -> (config: DisplayConfig)
        ensures
            config.bold_headers,
            !config.interactive,
            config.width is None,
    {
        DisplayConfig { bold_headers: true, interactive: false, width: None }
    }
}

/// Reads the switch for bold headers from the value of its environment
/// variable: headers are bold unless the variable is set to something other
/// than `1`.
pub fn bold_headers_from(value: Option<&str>) -> (bold: bool)
    ensures
        bold == (value matches Some(v) ==> v@ == seq!['1']),
{
    match value {
        None => true,
        Some(v) => {
            let bold = v.unicode_len() == 1 && v.get_char(0) == '1';
            assert(bold == (v@ =~= seq!['1']));
            bold
        },
    }
}

} // verus!
