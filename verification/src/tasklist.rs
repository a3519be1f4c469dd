//! Duplicate-instance discovery.
//!
//! On teardown the backend terminates every other running instance of its own
//! executable. The process list arrives as CSV text, one process per line
//! with a header line first; the process identifier stands in the second
//! field, wrapped in quotes. This module picks out of that text exactly the
//! identifiers to terminate: those on lines naming the executable image,
//! other than the identifier of the current process.

use vstd::prelude::*;
use crate::bytes::{
    contains_bytes, contains_seq, digits_val, is_u32_digits, lines_of, parse_u32, spec_lines,
    split_bytes, split_on, trim_quotes, trim_quotes_exec,
};

verus! {

/// The executable image name that marks a line as one of this program's
/// instances, as bytes: `snippet-ai.exe`.
pub open spec fn spec_image_name() -> Seq<u8> {
    seq![115u8, 110u8, 105u8, 112u8, 112u8, 101u8, 116u8, 45u8, 97u8, 105u8, 46u8, 101u8, 120u8, 101u8]
}

/// The executable image name `snippet-ai.exe`, as bytes.
pub fn image_name() -> (v: Vec<u8>)
    ensures
        v@ == spec_image_name(),
{
    let v: Vec<u8> = vec![115u8, 110u8, 105u8, 112u8, 112u8, 101u8, 116u8, 45u8, 97u8, 105u8, 46u8, 101u8, 120u8, 101u8];
    proof {
        assert(v@ =~= spec_image_name());
    }
    v
}

/// The process identifier a line of the process list yields: present exactly
/// when the line names the executable image, has a second comma-separated
/// field, and that field, stripped of surrounding quotes, is a decimal
/// number that fits in a `u32`.
pub open spec fn line_pid(l: Seq<u8>) -> Option<u32> {
    if contains_seq(l, spec_image_name()) {
        let parts = split_on(l, 44);
        if parts.len() >= 2 {
            let f = trim_quotes(parts[1]);
            if is_u32_digits(f) {
                Some(digits_val(f) as u32)
            } else {
                None
            }
        } else {
            None
        }
    } else {
        None
    }
}

/// The process identifier of one line, as [`line_pid`] states it.
pub fn line_pid_exec(l: &Vec<u8>) -> (r: Option<u32>)
    ensures
        r == line_pid(l@),
{
    let needle = image_name();
    if !contains_bytes(l, &needle) {
        return None;
    }
    let parts = split_bytes(l, 44);
    proof {
        assert(parts@.len() == split_on(l@, 44).len());
    }
    if parts.len() < 2 {
        return None;
    }
    proof {
        assert(parts@.map_values(|p: Vec<u8>| p@)[1] == parts@[1]@);
    }
    let field = trim_quotes_exec(&parts[1]);
    parse_u32(&field)
}

/// The identifiers to terminate among `lines`: each line's [`line_pid`], in
/// order, leaving out `current`.
pub open spec fn kill_list(lines: Seq<Seq<u8>>, current: u32) -> Seq<u32>
    decreases lines.len(),
{
    if lines.len() == 0 {
        Seq::empty()
    } else {
        let rest = kill_list(lines.drop_first(), current);
        match line_pid(lines[0]) {
            Some(p) => if p != current {
                seq![p] + rest
            } else {
                rest
            },
            None => rest,
        }
    }
}

/// The kill list never names the process it was computed for: termination
/// spares the current instance, whatever the process list holds.
pub proof fn lemma_kill_list_spares_current(lines: Seq<Seq<u8>>, current: u32)
    ensures
        forall|k: int|
            0 <= k < kill_list(lines, current).len() ==> #[trigger] kill_list(lines, current)[k]
                != current,
    decreases lines.len(),
{
    if lines.len() == 0 {
    } else {
        lemma_kill_list_spares_current(lines.drop_first(), current);
        let rest = kill_list(lines.drop_first(), current);
        match line_pid(lines[0]) {
            Some(p) => {
                if p != current {
                    assert forall|k: int|
                        0 <= k < kill_list(lines, current).len() implies #[trigger] kill_list(
                        lines,
                        current,
                    )[k] != current by {
                        if k > 0 {
                            assert((seq![p] + rest)[k] == rest[k - 1]);
                        }
                    }
                }
            },
            None => {},
        }
    }
}

/// The whole parse spares the current instance too.
pub proof fn lemma_duplicate_pids_spare_current(out: Seq<u8>, current: u32)
    ensures
        forall|k: int|
            0 <= k < spec_duplicate_pids(out, current).len() ==> #[trigger] spec_duplicate_pids(
                out,
                current,
            )[k] != current,
{
    let ls = spec_lines(out);
    if ls.len() != 0 {
        lemma_kill_list_spares_current(ls.skip(1), current);
    }
}

/// The identifiers to terminate in the whole process-list text `out`: the
/// [`kill_list`] of its lines after the header line.
pub open spec fn spec_duplicate_pids(out: Seq<u8>, current: u32) -> Seq<u32> {
    let ls = spec_lines(out);
    if ls.len() == 0 {
        Seq::empty()
    } else {
        kill_list(ls.skip(1), current)
    }
}

/// Pick out of the process-list text `output` the identifiers of every other
/// instance of this executable: skip the header line, keep each line's
/// process identifier when the line names the image and the identifier is
/// not `current_pid`.
pub fn duplicate_instance_pids(output: &Vec<u8>, current_pid: u32) -> (pids: Vec<u32>)
    ensures
        pids@ == spec_duplicate_pids(output@, current_pid),
{
    let lines = lines_of(output);
    let ghost lv: Seq<Seq<u8>> = lines@.map_values(|l: Vec<u8>| l@);
    let mut pids: Vec<u32> = Vec::new();
    if lines.len() == 0 {
        return pids;
    }
    let n = lines.len();
    let mut k: usize = 1;
    while k < n
        invariant
            1 <= k <= n,
            n == lines@.len(),
            lv == lines@.map_values(|l: Vec<u8>| l@),
            lv == spec_lines(output@),
            lv.len() == n,
            pids@ + kill_list(lv.skip(k as int), current_pid) == kill_list(
                lv.skip(1),
                current_pid,
            ),
        decreases n - k,
    {
        proof {
            assert(lines@.map_values(|l: Vec<u8>| l@)[k as int] == lines@[k as int]@);
            assert(lv.skip(k as int).drop_first() =~= lv.skip(k + 1));
            assert(lv.skip(k as int)[0] == lv[k as int]);
        }
        let r = line_pid_exec(&lines[k]);
        match r {
            Some(p) => {
                if p != current_pid {
                    pids.push(p);
                }
            },
            None => {},
        }
        proof {
            assert(pids@ + kill_list(lv.skip(k + 1), current_pid) =~= kill_list(
                lv.skip(1),
                current_pid,
            ));
        }
        k += 1;
    }
    proof {
        assert(lv.skip(n as int) =~= Seq::<Seq<u8>>::empty());
        assert(pids@ + kill_list(lv.skip(n as int), current_pid) =~= pids@);
    }
    pids
}

} // verus!
