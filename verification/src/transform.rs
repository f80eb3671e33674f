use vstd::prelude::*;
use crate::config::Config;
use crate::numbering::dec_rep;
use crate::numbering::format_digits;
use crate::strbuild::push_char;

verus! {

/// What tab visualization makes of one character: a horizontal tab becomes
/// the two characters caret and capital I; everything else stands.
pub open spec fn tab_vis_char(c: char) -> Seq<char> {
    if c == '\t' {
        seq!['^', 'I']
    } else {
        seq![c]
    }
}

/// The line with every tab made visible.
pub open spec fn tab_expansion(s: Seq<char>) -> Seq<char>
    decreases s.len(),
{
    if s.len() == 0 {
        Seq::empty()
    } else {
        tab_expansion(s.drop_last()) + tab_vis_char(s.last())
    }
}

/// What the non-printing escape makes of one character: code points 0x01
/// through 0x1E become a caret followed by the character 0x40 higher, 0x7F
/// becomes caret and question mark, and 0x80 through 0xFF become "M-"
/// followed by the decimal numeral of the code point; everything else stands.
pub open spec fn escape_char(c: char) -> Seq<char> {
    let n = c as u32;
    if 1 <= n && n <= 0x1e {
        seq!['^', (((n + 0x40) as u8) as char)]
    } else if n == 0x7f {
        seq!['^', '?']
    } else if 0x80 <= n && n <= 0xff {
        seq!['M', '-'] + dec_rep(n as int)
    } else {
        seq![c]
    }
}

/// The line with every non-printing character escaped.
pub open spec fn escape_expansion(s: Seq<char>) -> Seq<char>
    decreases s.len(),
{
    if s.len() == 0 {
        Seq::empty()
    } else {
        escape_expansion(s.drop_last()) + escape_char(s.last())
    }
}

/// The fully transformed line: tabs made visible, then the end marker
/// appended, then non-printing characters escaped, each step only when its
/// flag is enabled, and each applied exactly once, in this order.
pub open spec fn transformed(cfg: Config, s: Seq<char>) -> Seq<char> {
    let t = if cfg.show_tabs {
        tab_expansion(s)
    } else {
        s
    };
    let u = if cfg.show_ends {
        t.push('$')
    } else {
        t
    };
    if cfg.show_nonprinting {
        escape_expansion(u)
    } else {
        u
    }
}

/// The line with every tab replaced by the two-character sequence `^I`.
pub fn visualize_tabs(line: &str) -> (r: String)
    ensures
        r@ == tab_expansion(line@),
{
    let n: usize = line.unicode_len();
    let mut r = String::new();
    let mut i: usize = 0;
    while i < n
        invariant
            i <= n,
            n == line@.len(),
            r@ == tab_expansion(line@.take(i as int)),
        decreases n - i,
    {
        let c = line.get_char(i);
        if c == '\t' {
            push_char(&mut r, '^');
            push_char(&mut r, 'I');
        } else {
            push_char(&mut r, c);
        }
        i = i + 1;
        proof {
            let pre = line@.take(i - 1);
            let cur = line@.take(i as int);
            assert(cur.drop_last() =~= pre);
            assert(cur.last() == line@[i - 1]);
            assert(r@ =~= tab_expansion(pre) + tab_vis_char(line@[i - 1]));
        }
    }
    proof {
        assert(line@.take(n as int) =~= line@);
    }
    r
}

/// The line with every non-printing character rewritten in the caret and
/// `M-` notation.
pub fn escape_nonprinting(line: &str) -> (r: String)
    ensures
        r@ == escape_expansion(line@),
{
    let n: usize = line.unicode_len();
    let mut r = String::new();
    let mut i: usize = 0;
    while i < n
        invariant
            i <= n,
            n == line@.len(),
            r@ == escape_expansion(line@.take(i as int)),
        decreases n - i,
    {
        let c = line.get_char(i);
        let code: u32 = c as u32;
        if 1 <= code && code <= 0x1e {
            push_char(&mut r, '^');
            push_char(&mut r, (((code + 0x40) as u8) as char));
        } else if code == 0x7f {
            push_char(&mut r, '^');
            push_char(&mut r, '?');
        } else if 0x80 <= code && code <= 0xff {
            push_char(&mut r, 'M');
            push_char(&mut r, '-');
            let digits = format_digits(code as u64);
            r.append(digits.as_str());
        } else {
            push_char(&mut r, c);
        }
        i = i + 1;
        proof {
            let pre = line@.take(i - 1);
            let cur = line@.take(i as int);
            assert(cur.drop_last() =~= pre);
            assert(cur.last() == line@[i - 1]);
            assert(r@ =~= escape_expansion(pre) + escape_char(line@[i - 1]));
        }
    }
    proof {
        assert(line@.take(n as int) =~= line@);
    }
    r
}

/// The whole per-line transformation, driven by the configuration's flags.
pub fn transform_line(cfg: &Config, line: &str) -> (r: String)
    ensures
        r@ == transformed(*cfg, line@),
{
    let mut cur: String = if cfg.show_tabs {
        visualize_tabs(line)
    } else {
        String::from_str(line)
    };
    if cfg.show_ends {
        push_char(&mut cur, '$');
    }
    if cfg.show_nonprinting {
        cur = escape_nonprinting(cur.as_str());
    }
    cur
}

} // verus!
