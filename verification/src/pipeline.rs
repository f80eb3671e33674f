use vstd::prelude::*;
use crate::config::Config;
use crate::numbering::number_prefix;
use crate::numbering::format_line_number;
use crate::transform::transformed;
use crate::transform::transform_line;

verus! {

/// Per-input pipeline state: how many non-blank lines have been numbered so
/// far, and whether the previously considered line was blank.
pub struct LineState {
    pub last_num: u64,
    pub blank_appear: bool,
}

/// The state at the start of each input: no line numbered yet, no blank seen.
pub open spec fn initial_state() -> LineState {
    LineState { last_num: 0, blank_appear: false }
}

/// The state a fresh input starts from.
pub fn start_state() -> (s: LineState)
    ensures
        s == initial_state(),
{
    LineState { last_num: 0, blank_appear: false }
}

/// The squeeze check: a line is suppressed entirely when blank-run squeezing
/// is enabled, the raw line is empty, and the previously considered line was
/// blank as well.  The check looks at the line before any transformation.
pub open spec fn skip_line(cfg: Config, st: LineState, line: Seq<char>) -> bool {
    cfg.squeeze_blank && line.len() == 0 && st.blank_appear
}

/// One step of the per-line pipeline: the state after considering the line,
/// and the emitted output line, or None when the squeeze check suppresses it.
/// line_num is the 0-based position of the line within its input.
pub open spec fn step_spec(cfg: Config, st: LineState, line_num: int, line: Seq<char>) -> (
    LineState,
    Option<Seq<char>>,
) {
    if skip_line(cfg, st, line) {
        (st, None::<Seq<char>>)
    } else {
        let t = transformed(cfg, line);
        if cfg.number_lines {
            (
                LineState { last_num: st.last_num, blank_appear: line.len() == 0 },
                Some(number_prefix(line_num + 1) + t),
            )
        } else if cfg.number_nonblank_lines {
            if line.len() == 0 {
                (
                    LineState { last_num: st.last_num, blank_appear: true },
                    Some(Seq::<char>::empty()),
                )
            } else {
                (
                    LineState { last_num: (st.last_num + 1) as u64, blank_appear: false },
                    Some(number_prefix(st.last_num + 1) + t),
                )
            }
        } else {
            (
                LineState { last_num: st.last_num, blank_appear: line.len() == 0 },
                Some(t),
            )
        }
    }
}

/// Apply the pipeline to one line, threading the per-input state; returns the
/// output line to emit, or None when the squeeze check suppresses the line.
pub fn process_line(cfg: &Config, st: &mut LineState, line_num: u64, line: &str) -> (out: Option<
    String,
>)
    requires
        old(st).last_num < u64::MAX,
        line_num < u64::MAX,
    ensures
        *final(st) == step_spec(*cfg, *old(st), line_num as int, line@).0,
        out.deep_view() == step_spec(*cfg, *old(st), line_num as int, line@).1,
{
    let is_blank = line.unicode_len() == 0;
    if cfg.squeeze_blank && is_blank && st.blank_appear {
        return None;
    }
    let t = transform_line(cfg, line);
    if cfg.number_lines {
        st.blank_appear = is_blank;
        let mut r = format_line_number(line_num + 1);
        r.append(t.as_str());
        Some(r)
    } else if cfg.number_nonblank_lines {
        if is_blank {
            st.blank_appear = true;
            Some(String::new())
        } else {
            st.last_num = st.last_num + 1;
            st.blank_appear = false;
            let mut r = format_line_number(st.last_num);
            r.append(t.as_str());
            Some(r)
        }
    } else {
        st.blank_appear = is_blank;
        Some(t)
    }
}

/// The outputs of one step, as a sequence: one line, or none when suppressed.
pub open spec fn opt_out_seq(o: Option<Seq<char>>) -> Seq<Seq<char>> {
    match o {
        Some(l) => seq![l],
        None => Seq::empty(),
    }
}

/// The pipeline state after the first i lines of an input.
pub open spec fn state_after(cfg: Config, lines: Seq<Seq<char>>, i: int) -> LineState
    decreases i,
{
    if i <= 0 {
        initial_state()
    } else {
        step_spec(cfg, state_after(cfg, lines, i - 1), i - 1, lines[i - 1]).0
    }
}

/// The output lines produced by the first i lines of an input.
pub open spec fn outputs_upto(cfg: Config, lines: Seq<Seq<char>>, i: int) -> Seq<Seq<char>>
    decreases i,
{
    if i <= 0 {
        Seq::empty()
    } else {
        outputs_upto(cfg, lines, i - 1) + opt_out_seq(
            step_spec(cfg, state_after(cfg, lines, i - 1), i - 1, lines[i - 1]).1,
        )
    }
}

/// Everything one input's lines produce on the output, in order.
pub open spec fn process_input_spec(cfg: Config, lines: Seq<Seq<char>>) -> Seq<Seq<char>> {
    outputs_upto(cfg, lines, lines.len() as int)
}

/// Apply the pipeline to all lines of one input, starting from a fresh state.
pub fn process_lines(cfg: &Config, lines: &Vec<String>) -> (out: Vec<String>)
    ensures
        out.deep_view() == process_input_spec(*cfg, lines.deep_view()),
{
    let ghost glines: Seq<Seq<char>> = lines.deep_view();
    let mut out: Vec<String> = Vec::new();
    let mut st = start_state();
    let mut i: usize = 0;
    while i < lines.len()
        invariant
            i <= lines.len(),
            glines == lines.deep_view(),
            glines.len() == lines.len(),
            st == state_after(*cfg, glines, i as int),
            st.last_num <= i,
            out.deep_view() == outputs_upto(*cfg, glines, i as int),
        decreases lines.len() - i,
    {
        let ghost out_pre = out.deep_view();
        proof {
            assert(glines[i as int] == lines[i as int].deep_view());
        }
        let line_out = process_line(cfg, &mut st, i as u64, &lines[i]);
        if let Some(l) = line_out {
            out.push(l);
        }
        i = i + 1;
        proof {
            let stepped = step_spec(*cfg, state_after(*cfg, glines, i - 1), i - 1, glines[i - 1]);
            assert(out.deep_view() =~= out_pre + opt_out_seq(stepped.1));
        }
    }
    out
}

/// Whether any input failed to be acquired.
pub open spec fn any_failure(inputs: Seq<Option<Seq<Seq<char>>>>) -> bool {
    exists|i: int| 0 <= i < inputs.len() && inputs[i] is None
}

/// The output of the whole run over the first i inputs: each successfully
/// acquired input contributes its pipeline output, a failed one contributes
/// nothing, and processing continues past failures.
pub open spec fn run_upto(cfg: Config, inputs: Seq<Option<Seq<Seq<char>>>>, i: int) -> Seq<
    Seq<char>,
>
    decreases i,
{
    if i <= 0 {
        Seq::empty()
    } else {
        run_upto(cfg, inputs, i - 1) + (match inputs[i - 1] {
            Some(lines) => process_input_spec(cfg, lines),
            None => Seq::empty(),
        })
    }
}

/// The output of the whole run, over every input in order.
pub open spec fn run_spec(cfg: Config, inputs: Seq<Option<Seq<Seq<char>>>>) -> Seq<Seq<char>> {
    run_upto(cfg, inputs, inputs.len() as int)
}

/// Run the pipeline over every input, in order.  Each entry stands for one
/// input identifier: the lines acquired from it, or None when acquiring its
/// stream failed.  A failed input contributes no output but does not stop the
/// run; the returned flag records whether at least one input failed, so the
/// run's overall status can reflect it.  The per-input counter and blank flag
/// start afresh for every input.
pub fn run(cfg: &Config, inputs: &Vec<Option<Vec<String>>>) -> (r: (Vec<String>, bool))
    ensures
        r.0.deep_view() == run_spec(*cfg, inputs.deep_view()),
        r.1 == any_failure(inputs.deep_view()),
{
    let ghost gin: Seq<Option<Seq<Seq<char>>>> = inputs.deep_view();
    let mut out: Vec<String> = Vec::new();
    let mut failed = false;
    let mut i: usize = 0;
    while i < inputs.len()
        invariant
            i <= inputs.len(),
            gin == inputs.deep_view(),
            gin.len() == inputs.len(),
            out.deep_view() == run_upto(*cfg, gin, i as int),
            failed == exists|k: int| 0 <= k < i && gin[k] is None,
        decreases inputs.len() - i,
    {
        let ghost out_pre = out.deep_view();
        proof {
            assert(gin[i as int] == inputs[i as int].deep_view());
        }
        match &inputs[i] {
            Some(lines) => {
                let mut produced = process_lines(cfg, lines);
                proof {
                    assert(gin[i as int] matches Some(g) && g == lines.deep_view());
                }
                let ghost produced_view = produced.deep_view();
                out.append(&mut produced);
                proof {
                    assert(out.deep_view() =~= out_pre + produced_view);
                }
            },
            None => {
                failed = true;
            },
        }
        i = i + 1;
        proof {
            assert(out.deep_view() =~= run_upto(*cfg, gin, i as int));
        }
    }
    (out, failed)
}

} // verus!
