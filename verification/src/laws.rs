use vstd::prelude::*;
use crate::config::Config;
use crate::config::lemma_show_all_composition;
use crate::numbering::dec_digit;
use crate::numbering::dec_rep;
use crate::numbering::number_prefix;
use crate::transform::tab_vis_char;
use crate::transform::tab_expansion;
use crate::transform::escape_char;
use crate::transform::escape_expansion;
use crate::transform::transformed;
use crate::pipeline::LineState;
use crate::pipeline::step_spec;
use crate::pipeline::skip_line;
use crate::pipeline::state_after;
use crate::pipeline::outputs_upto;
use crate::pipeline::process_input_spec;

verus! {

/// No character of s is the dollar sign used as the end marker.
pub open spec fn no_dollar(s: Seq<char>) -> bool {
    forall|i: int| 0 <= i < s.len() ==> s[i] != '$'
}

proof fn lemma_tab_expansion_no_dollar(s: Seq<char>)
    requires
        no_dollar(s),
    ensures
        no_dollar(tab_expansion(s)),
    decreases s.len(),
{
    if s.len() == 0 {
    } else {
        assert(no_dollar(s.drop_last()));
        lemma_tab_expansion_no_dollar(s.drop_last());
        let a = tab_expansion(s.drop_last());
        let b = tab_vis_char(s.last());
        assert(s.last() != '$');
        assert forall|i: int| 0 <= i < tab_expansion(s).len() implies tab_expansion(s)[i]
            != '$' by {
            if i < a.len() {
                assert(tab_expansion(s)[i] == a[i]);
            } else {
                assert(tab_expansion(s)[i] == b[i - a.len()]);
            }
        }
    }
}

proof fn lemma_dec_rep_digits(n: int)
    requires
        n >= 0,
    ensures
        forall|i: int|
            0 <= i < dec_rep(n).len() ==> '0' <= #[trigger] dec_rep(n)[i] && dec_rep(n)[i] <= '9',
    decreases n,
{
    if n < 10 {
        assert(dec_rep(n)[0] == dec_digit(n));
        assert('0' <= dec_digit(n) && dec_digit(n) <= '9');
    } else {
        lemma_dec_rep_digits(n / 10);
        let a = dec_rep(n / 10);
        assert forall|i: int|
            0 <= i < dec_rep(n).len() implies '0' <= #[trigger] dec_rep(n)[i] && dec_rep(n)[i]
            <= '9' by {
            if i < a.len() {
                assert(dec_rep(n)[i] == a[i]);
            } else {
                assert(dec_rep(n)[i] == dec_digit(n % 10));
                assert('0' <= dec_digit(n % 10) && dec_digit(n % 10) <= '9');
            }
        }
    }
}

proof fn lemma_escape_char_no_dollar(c: char)
    requires
        c != '$',
    ensures
        no_dollar(escape_char(c)),
{
    let n = c as u32;
    if 0x80 <= n && n <= 0xff {
        lemma_dec_rep_digits(n as int);
    }
}

proof fn lemma_escape_expansion_no_dollar(s: Seq<char>)
    requires
        no_dollar(s),
    ensures
        no_dollar(escape_expansion(s)),
    decreases s.len(),
{
    if s.len() == 0 {
    } else {
        assert(no_dollar(s.drop_last()));
        lemma_escape_expansion_no_dollar(s.drop_last());
        let a = escape_expansion(s.drop_last());
        let b = escape_char(s.last());
        assert(s.last() != '$');
        lemma_escape_char_no_dollar(s.last());
        assert forall|i: int| 0 <= i < escape_expansion(s).len() implies escape_expansion(s)[i]
            != '$' by {
            if i < a.len() {
                assert(escape_expansion(s)[i] == a[i]);
            } else {
                assert(escape_expansion(s)[i] == b[i - a.len()]);
            }
        }
    }
}

/// The end marker is appended exactly once: with show-line-ends enabled, a
/// line containing no dollar sign is transformed into a line whose last
/// character is the one appended dollar sign and which holds no other, so a
/// doubled marker can never appear.
pub proof fn lemma_end_marker_applied_once(cfg: Config, s: Seq<char>)
    requires
        cfg.show_ends,
        no_dollar(s),
    ensures
        transformed(cfg, s).len() > 0,
        transformed(cfg, s).last() == '$',
        no_dollar(transformed(cfg, s).drop_last()),
{
    let t = if cfg.show_tabs {
        tab_expansion(s)
    } else {
        s
    };
    if cfg.show_tabs {
        lemma_tab_expansion_no_dollar(s);
    }
    let u = t.push('$');
    assert(u.drop_last() =~= t);
    assert(u.last() == '$');
    if cfg.show_nonprinting {
        lemma_escape_expansion_no_dollar(t);
        assert(escape_char('$') =~= seq!['$']);
        assert(u.len() > 0);
        assert(transformed(cfg, s) == escape_expansion(t) + escape_char('$'));
        assert(transformed(cfg, s).drop_last() =~= escape_expansion(t));
    } else {
        assert(transformed(cfg, s) == u);
    }
}

/// A blank transformed line can only come from a blank raw line; the only
/// way a non-blank raw line could ever shrink is the impossible one, since
/// each transformation step keeps or grows every character.
pub proof fn lemma_transformed_blank(cfg: Config, s: Seq<char>)
    ensures
        (transformed(cfg, s).len() == 0) == (s.len() == 0 && !cfg.show_ends),
{
    lemma_tab_expansion_len(s);
    let t = if cfg.show_tabs {
        tab_expansion(s)
    } else {
        s
    };
    let u = if cfg.show_ends {
        t.push('$')
    } else {
        t
    };
    lemma_escape_expansion_len(u);
}

proof fn lemma_tab_expansion_len(s: Seq<char>)
    ensures
        tab_expansion(s).len() >= s.len(),
    decreases s.len(),
{
    if s.len() == 0 {
    } else {
        lemma_tab_expansion_len(s.drop_last());
    }
}

proof fn lemma_escape_expansion_len(s: Seq<char>)
    ensures
        escape_expansion(s).len() >= s.len(),
    decreases s.len(),
{
    if s.len() == 0 {
    } else {
        lemma_escape_expansion_len(s.drop_last());
        if 0x80 <= s.last() as u32 && s.last() as u32 <= 0xff {
            assert(dec_rep(s.last() as u32 as int).len() >= 1);
        }
    }
}

proof fn lemma_number_prefix_len(n: int)
    ensures
        number_prefix(n).len() >= 1,
{
    assert(dec_rep(n).len() >= 1);
}

/// An emitted blank output line can only come from a blank raw line.
proof fn lemma_step_blank_output(cfg: Config, st: LineState, line_num: int, line: Seq<char>)
    ensures
        (step_spec(cfg, st, line_num, line).1 matches Some(o) && o.len() == 0) ==> line.len()
            == 0,
{
    if !skip_line(cfg, st, line) {
        lemma_transformed_blank(cfg, line);
        if cfg.number_lines {
            lemma_number_prefix_len(line_num + 1);
        } else if cfg.number_nonblank_lines {
            if line.len() != 0 {
                lemma_number_prefix_len(st.last_num + 1);
            }
        }
    }
}

/// No two adjacent lines of outs are both empty.
pub open spec fn no_adjacent_blanks(outs: Seq<Seq<char>>) -> bool {
    forall|k: int|
        0 <= k && k + 1 < outs.len() ==> !(#[trigger] outs[k].len() == 0 && outs[k + 1].len()
            == 0)
}

proof fn lemma_squeeze_invariant(cfg: Config, lines: Seq<Seq<char>>, i: int)
    requires
        cfg.squeeze_blank,
    ensures
        no_adjacent_blanks(outputs_upto(cfg, lines, i)),
        (outputs_upto(cfg, lines, i).len() > 0 && outputs_upto(cfg, lines, i).last().len() == 0)
            ==> state_after(cfg, lines, i).blank_appear,
    decreases i,
{
    if i <= 0 {
    } else {
        lemma_squeeze_invariant(cfg, lines, i - 1);
        let st = state_after(cfg, lines, i - 1);
        let stepped = step_spec(cfg, st, i - 1, lines[i - 1]);
        let prev = outputs_upto(cfg, lines, i - 1);
        let outs = outputs_upto(cfg, lines, i);
        match stepped.1 {
            None => {
                assert(outs =~= prev);
            },
            Some(o) => {
                assert(outs =~= prev + seq![o]);
                assert(outs.last() == o);
                if o.len() == 0 {
                    lemma_step_blank_output(cfg, st, i - 1, lines[i - 1]);
                    assert(lines[i - 1].len() == 0);
                    if prev.len() > 0 && prev.last().len() == 0 {
                        assert(st.blank_appear);
                        assert(skip_line(cfg, st, lines[i - 1]));
                        assert(false);
                    }
                }
                assert forall|k: int| 0 <= k && k + 1 < outs.len() implies !(#[trigger] outs[k].len()
                    == 0 && outs[k + 1].len() == 0) by {
                    if k + 1 < prev.len() {
                        assert(outs[k] == prev[k]);
                        assert(outs[k + 1] == prev[k + 1]);
                    } else {
                        assert(k + 1 == prev.len());
                        assert(outs[k + 1] == o);
                        if prev.len() > 0 {
                            assert(outs[k] == prev[prev.len() - 1]);
                        }
                    }
                }
            },
        }
    }
}

/// With blank-run squeezing enabled, no two adjacent output lines of one
/// input are both empty: every run of blank input lines collapses to at most
/// one blank output line.
pub proof fn lemma_squeeze_no_adjacent_blanks(cfg: Config, lines: Seq<Seq<char>>)
    requires
        cfg.squeeze_blank,
    ensures
        no_adjacent_blanks(process_input_spec(cfg, lines)),
{
    lemma_squeeze_invariant(cfg, lines, lines.len() as int);
}

/// The show-all switch and the three elementary switches it stands for give
/// the same configuration, and therefore the same output on every input.
pub proof fn lemma_show_all_same_output(
    files: Vec<String>,
    number_nonblank: bool,
    ve: bool,
    show_ends: bool,
    number: bool,
    squeeze_blank: bool,
    vt: bool,
    show_tabs: bool,
    show_nonprinting: bool,
    lines: Seq<Seq<char>>,
)
    ensures
        process_input_spec(
            Config::spec_from_flags(
                files,
                true,
                number_nonblank,
                ve,
                show_ends,
                number,
                squeeze_blank,
                vt,
                show_tabs,
                show_nonprinting,
            ),
            lines,
        ) == process_input_spec(
            Config::spec_from_flags(
                files,
                false,
                number_nonblank,
                ve,
                true,
                number,
                squeeze_blank,
                vt,
                true,
                true,
            ),
            lines,
        ),
{
    lemma_show_all_composition(
        files,
        number_nonblank,
        ve,
        show_ends,
        number,
        squeeze_blank,
        vt,
        show_tabs,
        show_nonprinting,
    );
}

} // verus!
