//! Unix paths as bytes.

use vstd::prelude::*;

verus! {

/// The byte that separates the components of a path.
pub const SEPARATOR: u8 = 0x2f;

/// `name` below `dir`: an absolute `name` replaces `dir`, and a separator is
/// put between the two where `dir` is not empty and does not end in one.
pub open spec fn joined(dir: Seq<u8>, name: Seq<u8>) -> Seq<u8> {
    if name.len() > 0 && name[0] == SEPARATOR {
        name
    } else if dir.len() == 0 || dir.last() == SEPARATOR {
        dir + name
    } else {
        dir.push(SEPARATOR) + name
    }
}

/// Appends `tail` to `out`.
pub(crate) fn extend(out: &mut Vec<u8>, tail: &[u8])
    ensures
        final(out)@ == old(out)@ + tail@,
{
    let mut i: usize = 0;
    while i < tail.len()
        invariant
            i <= tail@.len(),
            out@ == old(out)@ + tail@.take(i as int),
        decreases tail@.len() - i,
    {
        out.push(tail[i]);
        i += 1;
        assert(out@ =~= old(out)@ + tail@.take(i as int));
    }
    assert(tail@.take(i as int) =~= tail@);
}

/// The path of `name` below `dir`.
pub fn join(dir: &[u8], name: &[u8]) -> (r: Vec<u8>)
    ensures
        r@ == joined(dir@, name@),
{
    let mut out: Vec<u8> = Vec::new();
    if name.len() > 0 && name[0] == SEPARATOR {
        extend(&mut out, name);
        assert(out@ =~= name@);
        return out;
    }
    extend(&mut out, dir);
    if dir.len() > 0 && dir[dir.len() - 1] != SEPARATOR {
        out.push(SEPARATOR);
    }
    extend(&mut out, name);
    assert(out@ =~= joined(dir@, name@));
    out
}

/// Under one directory, two relative names give the same path only if they
/// are the same name.
pub proof fn lemma_joined_injective(dir: Seq<u8>, a: Seq<u8>, b: Seq<u8>)
    requires
        a.len() == 0 || a[0] != SEPARATOR,
        b.len() == 0 || b[0] != SEPARATOR,
        joined(dir, a) == joined(dir, b),
    ensures
        a == b,
{
    let prefix = if dir.len() == 0 || dir.last() == SEPARATOR {
        dir
    } else {
        dir.push(SEPARATOR)
    };
    assert(joined(dir, a).skip(prefix.len() as int) =~= a);
    assert(joined(dir, b).skip(prefix.len() as int) =~= b);
}

/// A relative name below a directory: the path begins with the directory and
/// ends with the name, and what stands between them is at most one separator,
/// put there where the directory does not end in one. An absolute name is the
/// path itself.
pub proof fn law_joined(dir: Seq<u8>, name: Seq<u8>)
    ensures
        ({
            let path = joined(dir, name);
            if name.len() > 0 && name[0] == 0x2f {
                path == name
            } else {
                let at = path.len() - name.len();
                &&& dir.len() <= at <= dir.len() + 1
                &&& path.take(dir.len() as int) == dir
                &&& path.skip(at) == name
                &&& at == dir.len() + 1 <==> dir.len() > 0 && dir.last() != 0x2f
                &&& dir.len() > 0 ==> path[at - 1] == 0x2f
            }
        }),
{
    let path = joined(dir, name);
    if !(name.len() > 0 && name[0] == SEPARATOR) {
        assert(path.take(dir.len() as int) =~= dir);
        assert(path.skip(path.len() - name.len()) =~= name);
    }
}

} // verus!
