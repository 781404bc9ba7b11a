//! Conversions between `String` and character vectors, used by the message
//! transformation.

use vstd::prelude::*;

verus! {

/// Relies on `String::push`: appends exactly the given character.
#[verifier::external_body]
fn push_char(s: &mut String, c: char)
    ensures
        final(s)@ == old(s)@.push(c),
{
    s.push(c);
}

/// Builds a `String` holding exactly the characters of `v`.
pub fn chars_to_string(v: &Vec<char>) -> (s: String)
    ensures
        s@ == v@,
{
    let mut s = String::new();
    let mut i: usize = 0;
    proof {
        assert(s@ =~= v@.subrange(0, 0));
    }
    while i < v.len()
        invariant
            i <= v.len(),
            s@ == v@.subrange(0, i as int),
        decreases v.len() - i,
    {
        push_char(&mut s, v[i]);
        proof {
            assert(v@.subrange(0, i + 1) =~= v@.subrange(0, i as int).push(v@[i as int]));
        }
        i += 1;
    }
    proof {
        assert(v@.subrange(0, v@.len() as int) =~= v@);
    }
    s
}

/// Collects the characters of `s` into a vector.
pub fn str_to_chars(s: &str) -> (v: Vec<char>)
    ensures
        v@ == s@,
{
    let n = s.unicode_len();
    let mut v: Vec<char> = Vec::new();
    let mut i: usize = 0;
    proof {
        assert(v@ =~= s@.subrange(0, 0));
    }
    while i < n
        invariant
            i <= n,
            n == s@.len(),
            v@ == s@.subrange(0, i as int),
        decreases n - i,
    {
        v.push(s.get_char(i));
        proof {
            assert(s@.subrange(0, i + 1) =~= s@.subrange(0, i as int).push(s@[i as int]));
        }
        i += 1;
    }
    proof {
        assert(s@.subrange(0, s@.len() as int) =~= s@);
    }
    v
}

/// Appends all characters of `name` to `out`.
pub fn append_str_chars(out: &mut Vec<char>, name: &String)
    ensures
        final(out)@ == old(out)@ + name@,
{
    let n = name.as_str().unicode_len();
    let mut i: usize = 0;
    proof {
        assert(out@ =~= old(out)@ + name@.subrange(0, 0));
    }
    while i < n
        invariant
            i <= n,
            n == name@.len(),
            out@ == old(out)@ + name@.subrange(0, i as int),
        decreases n - i,
    {
        out.push(name.as_str().get_char(i));
        proof {
            assert(old(out)@ + name@.subrange(0, i + 1) =~= (old(out)@ + name@.subrange(
                0,
                i as int,
            )).push(name@[i as int]));
        }
        i += 1;
    }
    proof {
        assert(name@.subrange(0, name@.len() as int) =~= name@);
    }
}

/// Appends the characters `s[from..to]` to `out`.
pub fn append_range(out: &mut Vec<char>, s: &Vec<char>, from: usize, to: usize)
    requires
        from <= to <= s@.len(),
    ensures
        final(out)@ == old(out)@ + s@.subrange(from as int, to as int),
{
    let mut i: usize = from;
    proof {
        assert(out@ =~= old(out)@ + s@.subrange(from as int, from as int));
    }
    while i < to
        invariant
            from <= i <= to <= s@.len(),
            out@ == old(out)@ + s@.subrange(from as int, i as int),
        decreases to - i,
    {
        out.push(s[i]);
        proof {
            assert(old(out)@ + s@.subrange(from as int, i + 1) =~= (old(out)@ + s@.subrange(
                from as int,
                i as int,
            )).push(s@[i as int]));
        }
        i += 1;
    }
}

} // verus!
