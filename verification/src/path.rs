use vstd::prelude::*;

verus! {

/// The extension of a relative file path: the part of the final
/// `/`-separated component after its last dot. A component without a dot
/// has no extension, and neither has one whose only dot is its first
/// character (a dotfile name marks no extension).
pub open spec fn extension_of(path: Seq<char>) -> Option<Seq<char>>
    decreases path.len(),
{
    if path.len() == 0 {
        None
    } else {
        let c = path.last();
        if c == '/' {
            None
        } else if c == '.' {
            if path.len() >= 2 && path[path.len() - 2] != '/' {
                Some(Seq::empty())
            } else {
                None
            }
        } else {
            match extension_of(path.drop_last()) {
                Some(e) => Some(e.push(c)),
                None => None,
            }
        }
    }
}

/// The extension of `path`, or `None` where the path has none.
pub fn extension_of_path(path: &str) -> (r: Option<String>)
    ensures
        match r {
            Some(e) => extension_of(path@) == Some(e@),
            None => extension_of(path@) is None,
        },
{
    let n = path.unicode_len();
    let mut has: bool = false;
    let mut start: usize = 0;
    let mut i: usize = 0;
    while i < n
        invariant
            i <= n,
            n == path@.len(),
            has ==> 1 <= start <= i && extension_of(path@.take(i as int)) == Some(
                path@.subrange(start as int, i as int),
            ),
            (!has) ==> extension_of(path@.take(i as int)) is None,
        decreases n - i,
    {
        let c = path.get_char(i);
        proof {
            assert(path@.take(i + 1).drop_last() =~= path@.take(i as int));
            assert(path@.take(i + 1).last() == path@[i as int]);
        }
        if c == '/' {
            has = false;
        } else if c == '.' {
            if i >= 1 && path.get_char(i - 1) != '/' {
                has = true;
                start = i + 1;
                proof {
                    assert(path@.take(i + 1)[i - 1] == path@[i - 1]);
                    assert(extension_of(path@.take(i + 1)) == Some(Seq::<char>::empty()));
                    assert(path@.subrange(start as int, i + 1) =~= Seq::<char>::empty());
                }
            } else {
                has = false;
            }
        } else {
            proof {
                if has {
                    assert(path@.subrange(start as int, i + 1) =~= path@.subrange(
                        start as int,
                        i as int,
                    ).push(path@[i as int]));
                }
            }
        }
        i += 1;
    }
    proof {
        assert(path@.take(n as int) =~= path@);
    }
    if has {
        Some(path.substring_char(start, n).to_owned())
    } else {
        None
    }
}

} // verus!
