//! Batch-mode naming: for an input path, the name of the sibling `.txt`
//! file the transcript is exported to — the path's stem plus `.txt`.

use vstd::prelude::*;
use vstd::string::StrSliceExecFns;
use vstd::string::StringExecFns;
use crate::upload::{extension_of, spec_ext_from, spec_extension};

verus! {

/// Scans `s` right to left from index `i` for the last path separator;
/// the final component is what follows it.
pub open spec fn spec_component_from(s: Seq<char>, i: int) -> Seq<char>
    decreases i + 1,
{
    if i < 0 {
        s
    } else if s[i] == '/' {
        s.subrange(i + 1, s.len() as int)
    } else {
        spec_component_from(s, i - 1)
    }
}

/// The final component of a path: what follows its last `/`.
pub open spec fn spec_last_component(s: Seq<char>) -> Seq<char> {
    spec_component_from(s, s.len() - 1)
}

/// The stem of a path: its final component, with the extension and its
/// dot stripped when there is one.
pub open spec fn spec_stem(s: Seq<char>) -> Seq<char> {
    let comp = spec_last_component(s);
    match spec_extension(comp) {
        Some(e) => comp.take(comp.len() - e.len() - 1),
        None => comp,
    }
}

/// The export file name for a path: its stem followed by `.txt`, or
/// nothing when the path has no stem to name the file after.
pub open spec fn spec_export_name(s: Seq<char>) -> Option<Seq<char>> {
    if spec_stem(s).len() == 0 {
        None
    } else {
        Some(spec_stem(s) + ".txt"@)
    }
}

/// An extension is a proper suffix of its component: the dot and at least
/// one character stand before it.
proof fn lemma_extension_shorter(s: Seq<char>, i: int, e: Seq<char>)
    requires
        i < s.len(),
        spec_ext_from(s, i) == Some(e),
    ensures
        e.len() + 2 <= s.len(),
        e == s.subrange(s.len() - e.len(), s.len() as int),
    decreases i + 1,
{
    if i >= 0 && s[i] != '/' && s[i] != '.' {
        lemma_extension_shorter(s, i - 1, e);
    }
}

fn last_component(path: &str) -> (r: String)
    ensures
        r@ == spec_last_component(path@),
{
    let n = path.unicode_len();
    let mut i: usize = n;
    while i > 0
        invariant
            n == path@.len(),
            i <= n,
            spec_last_component(path@) == spec_component_from(path@, i as int - 1),
        decreases i,
    {
        let c = path.get_char(i - 1);
        if c == '/' {
            let piece = path.substring_char(i, n);
            return String::from_str(piece);
        }
        i = i - 1;
    }
    String::from_str(path)
}

/// The name of the transcript file exported beside `path`: the path's
/// stem plus `.txt`, or nothing when the path has no stem.
pub fn export_name(path: &str) -> (r: Option<String>)
    ensures
        match r {
            Some(t) => spec_export_name(path@) == Some(t@),
            None => spec_export_name(path@) == None::<Seq<char>>,
        },
{
    let comp = last_component(path);
    let clen = comp.as_str().unicode_len();
    let mut stem = match extension_of(comp.as_str()) {
        Some(e) => {
            let elen = e.as_str().unicode_len();
            proof {
                lemma_extension_shorter(comp@, comp@.len() - 1, e@);
            }
            let piece = comp.as_str().substring_char(0, clen - elen - 1);
            String::from_str(piece)
        },
        None => comp,
    };
    if stem.as_str().unicode_len() == 0 {
        return None;
    }
    stem.append(".txt");
    Some(stem)
}

} // verus!
