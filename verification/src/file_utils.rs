//! File-name utilities: extracting the extension-like suffix that the
//! workspace indexer classifies entries by.
use vstd::prelude::*;
use vstd::string::StrSliceExecFns;

verus! {

/// Index of the last `.` in `name`, or -1 if there is none.
pub open spec fn last_dot(name: Seq<char>) -> int
    decreases name.len(),
{
    if name.len() == 0 {
        -1
    } else if name.last() == '.' {
        name.len() - 1
    } else {
        last_dot(name.drop_last())
    }
}

/// The extension of a file name: the part after the last `.`, provided that
/// dot is not the leading character (a name that is only a dotted prefix,
/// such as a hidden file, has no extension).
pub open spec fn ext_of(name: Seq<char>) -> Option<Seq<char>> {
    let j = last_dot(name);
    if j >= 1 {
        Some(name.subrange(j + 1, name.len() as int))
    } else {
        None
    }
}

proof fn lemma_last_dot_push(s: Seq<char>, c: char)
    ensures
        last_dot(s.push(c)) == (if c == '.' {
            s.len() as int
        } else {
            last_dot(s)
        }),
{
    assert(s.push(c).drop_last() =~= s);
}

/// Utility function for getting the extension from a file name.
pub fn get_extension_from_filename(filename: &str) -> (r: Option<&str>)
    ensures
        match r {
            Some(e) => ext_of(filename@) == Some(e@),
            None => ext_of(filename@) is None,
        },
{
    let n: usize = filename.unicode_len();
    let mut found: bool = false;
    let mut last: usize = 0;
    let mut i: usize = 0;
    while i < n
        invariant
            n == filename@.len(),
            i <= n,
            found <==> last_dot(filename@.take(i as int)) >= 0,
            found ==> last == last_dot(filename@.take(i as int)) && last < i,
        decreases n - i,
    {
        let c = filename.get_char(i);
        proof {
            assert(filename@.take(i as int).push(filename@[i as int]) =~= filename@.take(
                i as int + 1,
            ));
            lemma_last_dot_push(filename@.take(i as int), filename@[i as int]);
        }
        if c == '.' {
            found = true;
            last = i;
        }
        i = i + 1;
    }
    proof {
        assert(filename@.take(n as int) =~= filename@);
    }
    if found && last >= 1 {
        Some(filename.substring_char(last + 1, n))
    } else {
        None
    }
}

/// Character-for-character string equality, decided without any assumption on
/// the encoding.
pub fn str_eq(a: &str, b: &str) -> (r: bool)
    ensures
        r == (a@ == b@),
{
    let an: usize = a.unicode_len();
    let bn: usize = b.unicode_len();
    if an != bn {
        return false;
    }
    let mut i: usize = 0;
    while i < an
        invariant
            an == a@.len(),
            an == b@.len(),
            i <= an,
            forall|j: int| 0 <= j < i ==> a@[j] == b@[j],
        decreases an - i,
    {
        if a.get_char(i) != b.get_char(i) {
            return false;
        }
        i = i + 1;
    }
    proof {
        assert(a@ =~= b@);
    }
    true
}

} // verus!
