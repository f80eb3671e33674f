use vstd::prelude::*;

verus! {

/// The validated run configuration: the inputs to read, in order, and the
/// formatting flags that drive the per-line pipeline.
pub struct Config {
    pub files: Vec<String>,
    pub number_lines: bool,
    pub number_nonblank_lines: bool,
    pub show_tabs: bool,
    pub show_ends: bool,
    pub show_nonprinting: bool,
    pub squeeze_blank: bool,
}

impl Config {
    /// Numbering every line and numbering only non-blank lines are mutually
    /// exclusive; a well-formed configuration never enables both.
    pub open spec fn wf(&self) -> bool {
        !(self.number_lines && self.number_nonblank_lines)
    }

    /// The configuration derived from the raw command-line switches: the
    /// combined switches (show-all, and the two caret shorthands) expand into
    /// the elementary flags once, before any line is processed.
    pub open spec fn spec_from_flags(
        files: Vec<String>,
        show_all: bool,
        number_nonblank: bool,
        ve: bool,
        show_ends: bool,
        number: bool,
        squeeze_blank: bool,
        vt: bool,
        show_tabs: bool,
        show_nonprinting: bool,
    ) -> Config {
        Config {
            files: files,
            number_lines: number,
            number_nonblank_lines: number_nonblank,
            show_tabs: show_tabs || show_all || vt,
            show_ends: show_ends || show_all || ve,
            show_nonprinting: show_nonprinting || show_all || ve || vt,
            squeeze_blank: squeeze_blank,
        }
    }

    /// Build the configuration from the raw switches, expanding the combined
    /// switches into the elementary flags.
    pub fn from_flags(
        files: Vec<String>,
        show_all: bool,
        number_nonblank: bool,
        ve: bool,
        show_ends: bool,
        number: bool,
        squeeze_blank: bool,
        vt: bool,
        show_tabs: bool,
        show_nonprinting: bool,
    ) -> (c: Config)
        requires
            !(number && number_nonblank),
        ensures
            c == Config::spec_from_flags(
                files,
                show_all,
                number_nonblank,
                ve,
                show_ends,
                number,
                squeeze_blank,
                vt,
                show_tabs,
                show_nonprinting,
            ),
            c.wf(),
    {
        Config {
            files: files,
            number_lines: number,
            number_nonblank_lines: number_nonblank,
            show_tabs: show_tabs || show_all || vt,
            show_ends: show_ends || show_all || ve,
            show_nonprinting: show_nonprinting || show_all || ve || vt,
            squeeze_blank: squeeze_blank,
        }
    }
}

/// Enabling the show-all switch yields exactly the configuration obtained by
/// independently enabling show-tabs, show-line-ends and show-nonprinting,
/// whatever the other switches are.
pub proof fn lemma_show_all_composition(
    files: Vec<String>,
    number_nonblank: bool,
    ve: bool,
    show_ends: bool,
    number: bool,
    squeeze_blank: bool,
    vt: bool,
    show_tabs: bool,
    show_nonprinting: bool,
)
    ensures
        Config::spec_from_flags(
            files,
            true,
            number_nonblank,
            ve,
            show_ends,
            number,
            squeeze_blank,
            vt,
            show_tabs,
            show_nonprinting,
        ) == Config::spec_from_flags(
            files,
            false,
            number_nonblank,
            ve,
            true,
            number,
            squeeze_blank,
            vt,
            true,
            true,
        ),
{
}

} // verus!
