//! Derivation of the interface-file path from the source-file path.
//!
//! The target path is the source path with its extension replaced by the
//! interface-file extension `mli`: if the last path component has an
//! extension (a dot after its first character), everything after that dot is
//! replaced; otherwise `.mli` is appended.

use vstd::prelude::*;
use vstd::string::StrSliceExecFns;
use vstd::string::StringExecFns;

verus! {

/// The index of the last occurrence of `c` in `s`, or -1 when `c` does not
/// occur.
pub open spec fn last_index_of(s: Seq<char>, c: char) -> int
    decreases s.len(),
{
    if s.len() == 0 {
        -1
    } else if s.last() == c {
        s.len() - 1
    } else {
        last_index_of(s.drop_last(), c)
    }
}

/// The value an optional index stands for: the index itself, or -1 for none.
pub open spec fn opt_index(found: Option<usize>) -> int {
    match found {
        Some(k) => k as int,
        None => -1,
    }
}

/// The interface-file path for a source path: when the last path component
/// has an extension — a dot later than the first character after the last
/// separator — the text after that dot is replaced by `mli`; otherwise
/// `.mli` is appended to the whole path.
pub open spec fn interface_path_spec(path: Seq<char>) -> Seq<char> {
    let slash = last_index_of(path, '/');
    let dot = last_index_of(path, '.');
    if dot > slash + 1 {
        path.subrange(0, dot + 1) + "mli"@
    } else {
        path + ".mli"@
    }
}

/// Derives the interface-file path from the source path by changing the
/// source's extension to `mli` (appending it when the last component has no
/// extension).
pub fn interface_path(path: &str) -> (result: String)
    ensures
        result@ == interface_path_spec(path@),
{
    let n = path.unicode_len();
    let mut slash: Option<usize> = None;
    let mut dot: Option<usize> = None;
    let mut i: usize = 0;
    proof {
        assert(path@.take(0) =~= Seq::<char>::empty());
    }
    while i < n
        invariant
            0 <= i <= n,
            n == path@.len(),
            opt_index(slash) == last_index_of(path@.take(i as int), '/'),
            opt_index(dot) == last_index_of(path@.take(i as int), '.'),
            opt_index(slash) < i as int,
            opt_index(dot) < i as int,
        decreases n - i,
    {
        let c = path.get_char(i);
        proof {
            assert(path@.take(i as int + 1).drop_last() =~= path@.take(i as int));
            assert(path@.take(i as int + 1).last() == path@[i as int]);
        }
        if c == '/' {
            slash = Some(i);
        }
        if c == '.' {
            dot = Some(i);
        }
        i += 1;
    }
    proof {
        assert(path@.take(n as int) =~= path@);
    }
    let cut = match (dot, slash) {
        (Some(d), Some(sl)) => if d > sl + 1 {
            Some(d)
        } else {
            None
        },
        (Some(d), None) => if d > 0 {
            Some(d)
        } else {
            None
        },
        (None, _) => None,
    };
    match cut {
        Some(d) => {
            let stem = path.substring_char(0, d + 1);
            let mut result = String::from_str(stem);
            result.append("mli");
            result
        },
        None => {
            let mut result = String::from_str(path);
            result.append(".mli");
            result
        },
    }
}

} // verus!
