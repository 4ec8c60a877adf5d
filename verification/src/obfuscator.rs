//! Control-flow flattening of kernel source: opaque predicates are injected
//! after every line that declares a kernel or a function.
use crate::text::push_str;
use vstd::prelude::*;
use vstd::string::*;

verus! {

broadcast use vstd::seq_lib::group_seq_properties;

/// A line without its trailing carriage return, if it has one.
pub open spec fn strip_cr(l: Seq<char>) -> Seq<char> {
    if l.len() > 0 && l.last() == '\r' {
        l.drop_last()
    } else {
        l
    }
}

/// Scanning text for line breaks: the finished lines and the line in progress.
pub open spec fn split_state(s: Seq<char>) -> (Seq<Seq<char>>, Seq<char>)
    decreases s.len(),
{
    if s.len() == 0 {
        (seq![], seq![])
    } else {
        let (done, cur) = split_state(s.drop_last());
        if s.last() == '\n' {
            (done.push(strip_cr(cur)), seq![])
        } else {
            (done, cur.push(s.last()))
        }
    }
}

/// The lines of a text as `str::lines` yields them: split at `\n`, a `\r`
/// right before the `\n` removed, and no empty line after a final `\n`.
pub open spec fn code_lines(s: Seq<char>) -> Seq<Seq<char>> {
    let (done, cur) = split_state(s);
    if cur.len() == 0 {
        done
    } else {
        done.push(cur)
    }
}

/// Whether `pat` occurs as a contiguous run of `s`.
pub open spec fn contains_run(s: Seq<char>, pat: Seq<char>) -> bool {
    exists|i: int| 0 <= i && i + pat.len() <= s.len() && #[trigger] s.subrange(i, i + pat.len()) == pat
}

/// Whether a line declares a kernel or a function.
pub open spec fn is_entry_line(l: Seq<char>) -> bool {
    contains_run(l, seq!['v', 'o', 'i', 'd']) || contains_run(l, seq!['k', 'e', 'r', 'n', 'e', 'l'])
}

/// The opaque-predicate block inserted after an entry line.
pub open spec fn opaque_block() -> Seq<char> {
    "\n\t// Opaque predicates for obfuscation"@ + "\n\tint dummy_pred = 0;"@
        + "\n\tfor(int dummy_i=0; dummy_i < 10; ++dummy_i) { dummy_pred += dummy_i * 3; }"@
}

/// The output for the lines so far: each line on a new line, followed by the
/// opaque block when it is an entry line.
pub open spec fn flattened_lines(ls: Seq<Seq<char>>) -> Seq<char>
    decreases ls.len(),
{
    if ls.len() == 0 {
        seq![]
    } else {
        flattened_lines(ls.drop_last()) + seq!['\n'] + ls.last() + if is_entry_line(ls.last()) {
            opaque_block()
        } else {
            seq![]
        }
    }
}

/// The first line of every flattened text.
pub open spec fn flattened_header() -> Seq<char> {
    "// Flat control flow obfuscated by Omni-Net"@
}

/// The flattened form of a kernel source.
pub open spec fn flattened(code: Seq<char>) -> Seq<char> {
    flattened_header() + flattened_lines(code_lines(code))
}

fn run_at(s: &Vec<char>, pat: &[char], at: usize) -> (r: bool)
    requires
        at + pat@.len() <= s@.len(),
    ensures
        r == (s@.subrange(at as int, at + pat@.len()) == pat@),
{
    let n = s.len();
    let mut j: usize = 0;
    while j < pat.len()
        invariant
            j <= pat@.len(),
            at + pat@.len() <= s@.len(),
            n == s@.len(),
            forall|k: int| 0 <= k < j ==> s@[at + k] == pat@[k],
        decreases pat@.len() - j,
    {
        if s[at + j] != pat[j] {
            assert(s@.subrange(at as int, at + pat@.len())[j as int] != pat@[j as int]);
            return false;
        }
        j = j + 1;
    }
    assert(s@.subrange(at as int, at + pat@.len()) =~= pat@);
    true
}

fn has_run(s: &Vec<char>, pat: &[char]) -> (r: bool)
    requires
        pat@.len() > 0,
    ensures
        r == contains_run(s@, pat@),
{
    if pat.len() > s.len() {
        return false;
    }
    let last: usize = s.len() - pat.len();
    let mut i: usize = 0;
    loop
        invariant
            last + pat@.len() == s@.len(),
            i <= last,
            forall|k: int| 0 <= k < i ==> #[trigger] s@.subrange(k, k + pat@.len()) != pat@,
        decreases last - i,
    {
        if run_at(s, pat, i) {
            return true;
        }
        if i == last {
            return false;
        }
        i = i + 1;
    }
}

fn emit_line(out: &mut String, line: &Vec<char>)
    ensures
        final(out)@ == old(out)@ + seq!['\n'] + line@ + if is_entry_line(line@) {
            opaque_block()
        } else {
            seq![]
        },
{
    let ghost start = out@;
    crate::text::push_char(out, '\n');
    let mut i: usize = 0;
    while i < line.len()
        invariant
            i <= line@.len(),
            out@ == start + seq!['\n'] + line@.subrange(0, i as int),
        decreases line@.len() - i,
    {
        crate::text::push_char(out, line[i]);
        i = i + 1;
        proof {
            assert(out@ =~= start + seq!['\n'] + line@.subrange(0, i as int));
        }
    }
    let void_pat: [char; 4] = ['v', 'o', 'i', 'd'];
    let kernel_pat: [char; 6] = ['k', 'e', 'r', 'n', 'e', 'l'];
    let entry = has_run(line, void_pat.as_slice()) || has_run(line, kernel_pat.as_slice());
    assert(void_pat@ == seq!['v', 'o', 'i', 'd']);
    assert(kernel_pat@ == seq!['k', 'e', 'r', 'n', 'e', 'l']);
    if entry {
        push_str(out, "\n\t// Opaque predicates for obfuscation");
        push_str(out, "\n\tint dummy_pred = 0;");
        push_str(
            out,
            "\n\tfor(int dummy_i=0; dummy_i < 10; ++dummy_i) { dummy_pred += dummy_i * 3; }",
        );
    }
    assert(line@.subrange(0, line@.len() as int) =~= line@);
    assert(out@ =~= start + seq!['\n'] + line@ + if is_entry_line(line@) {
        opaque_block()
    } else {
        seq![]
    });
}

/// Control-flow flattening.
pub struct ControlFlowObfuscator;

impl ControlFlowObfuscator {
    /// Prefixes the code with a marker line and injects opaque predicates
    /// after every line that mentions `void` or `kernel`. Lines are separated
    /// by `\n`.
    pub fn flatten_control_flow(code: &str) -> (r: String)
        ensures
            r@ == flattened(code@),
    {
        let mut out = String::new();
        push_str(&mut out, "// Flat control flow obfuscated by Omni-Net");
        let mut cur: Vec<char> = Vec::new();
        let ghost mut seen: Seq<char> = seq![];
        for c in it: code.chars()
            invariant
                it.seq() == code@,
                seen == code@.subrange(0, it.index() as int),
                cur@ == split_state(seen).1,
                out@ == flattened_header() + flattened_lines(split_state(seen).0),
        {
            let ghost old_done = split_state(seen).0;
            let ghost old_cur = split_state(seen).1;
            proof {
                assert(code@.subrange(0, it.index() + 1).drop_last() =~= seen);
                seen = code@.subrange(0, it.index() + 1);
                assert(seen.last() == c);
            }
            if c == '\n' {
                if cur.len() > 0 && cur[cur.len() - 1] == '\r' {
                    cur.pop();
                }
                assert(cur@ =~= strip_cr(old_cur));
                emit_line(&mut out, &cur);
                cur = Vec::new();
                proof {
                    assert(cur@ =~= seq![]);
                    let nd = old_done.push(strip_cr(old_cur));
                    assert(split_state(seen).0 == nd);
                    assert(nd.drop_last() =~= old_done);
                    assert(out@ =~= flattened_header() + flattened_lines(nd));
                }
            } else {
                cur.push(c);
            }
        }
        proof {
            assert(seen =~= code@);
        }
        let ghost done = split_state(code@).0;
        if cur.len() > 0 {
            emit_line(&mut out, &cur);
            proof {
                assert(done.push(cur@).drop_last() =~= done);
                assert(out@ =~= flattened_header() + flattened_lines(done.push(cur@)));
            }
        }
        out
    }
}

} // verus!
