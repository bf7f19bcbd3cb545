use vstd::prelude::*;

verus! {

/// The byte `.` in a path.
pub const DOT: u8 = 46;

/// The byte `/` in a path.
pub const SEP: u8 = 47;

/// The bytes of the container extension `.mp4`.
pub open spec fn spec_mp4_ext() -> Seq<u8> {
    seq![46u8, 109u8, 112u8, 52u8]
}

/// The index of the dot that starts the extension of a path's last
/// component, if that component has one.  A dot at the start of the
/// component (a hidden file) does not start an extension, and a component
/// before the last separator is never examined.
pub open spec fn spec_ext_dot(s: Seq<u8>) -> Option<int>
    decreases s.len(),
{
    if s.len() == 0 {
        None
    } else if s[s.len() - 1] == SEP {
        None
    } else if s[s.len() - 1] == DOT && s.len() >= 2 && s[s.len() - 2] != SEP {
        Some(s.len() - 1)
    } else {
        spec_ext_dot(s.drop_last())
    }
}

/// A path with its extension forced to `.mp4`: the last component's own
/// extension, if any, is replaced, and `.mp4` is appended otherwise.
pub open spec fn spec_set_extension_mp4(s: Seq<u8>) -> Seq<u8> {
    match spec_ext_dot(s) {
        Some(i) => s.subrange(0, i) + spec_mp4_ext(),
        None => s + spec_mp4_ext(),
    }
}

/// Forces the extension of `path` to `.mp4`, as the container requires.
pub fn set_extension_mp4(path: &Vec<u8>) -> (r: Vec<u8>)
    requires
        path@.len() + 4 <= usize::MAX,
    ensures
        r@ == spec_set_extension_mp4(path@),
{
    let n = path.len();
    let mut i: usize = n;
    let mut dot: Option<usize> = None;
    let mut scanning: bool = true;

    proof {
        assert(path@.take(n as int) =~= path@);
    }

    while scanning && i > 0
        invariant
            i <= n,
            n == path@.len(),
            scanning ==> dot is None && spec_ext_dot(path@) == spec_ext_dot(
                path@.take(i as int),
            ),
            !scanning ==> (match dot {
                Some(d) => spec_ext_dot(path@) == Some(d as int) && d < n,
                None => spec_ext_dot(path@) is None,
            }),
        decreases i + (if scanning { 1int } else { 0int }),
    {
        let b = path[i - 1];
        if b == SEP {
            scanning = false;
        } else if b == DOT && i >= 2 && path[i - 2] != SEP {
            dot = Some(i - 1);
            scanning = false;
        } else {
            proof {
                assert(path@.take(i as int).drop_last() =~= path@.take(i as int - 1));
            }
            i = i - 1;
        }
    }

    let stem_len: usize = match dot {
        Some(d) => d,
        None => n,
    };

    let mut r: Vec<u8> = Vec::new();
    let mut j: usize = 0;
    while j < stem_len
        invariant
            j <= stem_len <= n,
            n == path@.len(),
            r@ == path@.subrange(0, j as int),
        decreases stem_len - j,
    {
        let b = path[j];
        r.push(b);
        j = j + 1;
    }
    r.push(DOT);
    r.push(109);
    r.push(112);
    r.push(52);

    proof {
        assert(r@ =~= spec_set_extension_mp4(path@));
    }
    r
}

} // verus!
