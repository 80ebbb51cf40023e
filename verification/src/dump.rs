//! The memory dump text form: one non-zero cell per line, rendered in
//! the codec's file-string form, in ascending address order. A run of
//! zero cells is skipped; when a non-zero cell follows a skipped run,
//! a resynchronization marker line `@` followed by the cell's absolute
//! address in hexadecimal precedes its value line.

use vstd::prelude::*;
use crate::memory::Memory;
use crate::parse::{CommandInfo, Parser};
use crate::text::{push_hex4, spec_hex4};

verus! {

/// The dump text of `vals` from position `i` on, where `prev_zero`
/// says whether a marker is owed before the next non-zero cell.
pub open spec fn spec_dump_from<T: CommandInfo, P: Parser<T>>(
    p: P,
    vals: Seq<u16>,
    i: int,
    prev_zero: bool,
) -> Seq<char>
    decreases vals.len() - i,
{
    if i < 0 || i >= vals.len() {
        Seq::empty()
    } else if vals[i] == 0 {
        spec_dump_from(p, vals, i + 1, true)
    } else {
        let marker: Seq<char> = if prev_zero {
            "@"@ + spec_hex4(i as u16) + "\n"@
        } else {
            Seq::empty()
        };
        marker + p.spec_file_render(vals[i]) + "\n"@ + spec_dump_from(p, vals, i + 1, false)
    }
}

/// The whole dump text of `vals`: the first non-zero cell always gets
/// a marker.
pub open spec fn spec_dump<T: CommandInfo, P: Parser<T>>(p: P, vals: Seq<u16>) -> Seq<char> {
    spec_dump_from(p, vals, 0, true)
}

/// Renders the bank in the dump text form.
pub fn dump_string<T: CommandInfo, P: Parser<T>>(mem: &Memory<P>) -> (r: String)
    requires
        mem.spec_parser().wf(),
        mem@.len() <= 0x10000,
    ensures
        r@ == spec_dump::<T, P>(mem.spec_parser(), mem@),
{
    proof {
        reveal_strlit("@");
        reveal_strlit("\n");
    }
    let n = mem.size();
    let mut s = String::new();
    let mut prev_zero = true;
    let mut i: usize = 0;
    while i < n
        invariant
            i <= n,
            n == mem@.len(),
            n <= 0x10000,
            mem.spec_parser().wf(),
            spec_dump::<T, P>(mem.spec_parser(), mem@) == s@ + spec_dump_from::<T, P>(
                mem.spec_parser(),
                mem@,
                i as int,
                prev_zero,
            ),
        decreases n - i,
    {
        let v = mem.get(i);
        if v == 0 {
            prev_zero = true;
        } else {
            if prev_zero {
                s.append("@");
                push_hex4(&mut s, i as u16);
                s.append("\n");
            }
            let info = mem.codec().parse(v);
            let line = info.file_string();
            s.append(line.as_str());
            s.append("\n");
            prev_zero = false;
        }
        proof {
            assert(spec_dump::<T, P>(mem.spec_parser(), mem@) =~= s@ + spec_dump_from::<T, P>(
                mem.spec_parser(),
                mem@,
                i + 1,
                v == 0,
            ));
        }
        i = i + 1;
    }
    proof {
        assert(spec_dump_from::<T, P>(mem.spec_parser(), mem@, n as int, prev_zero)
            =~= Seq::<char>::empty());
        assert(spec_dump::<T, P>(mem.spec_parser(), mem@) =~= s@);
    }
    s
}

} // verus!
