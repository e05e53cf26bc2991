//! Picking the capture device out of the PCM listing of the Bluetooth audio
//! daemon, one trimmed UTF-8 line per entry.
use vstd::prelude::*;

verus! {

/// Whether `s` begins with `p`.
pub open spec fn has_prefix(s: Seq<u8>, p: Seq<u8>) -> bool {
    p.len() <= s.len() && s.subrange(0, p.len() as int) == p
}

/// Whether `p` occurs in `s` at offset `i`.
pub open spec fn occurs_at(s: Seq<u8>, p: Seq<u8>, i: int) -> bool {
    0 <= i && i + p.len() <= s.len() && s.subrange(i, i + p.len()) == p
}

/// Whether `p` occurs anywhere in `s`.
pub open spec fn has_infix(s: Seq<u8>, p: Seq<u8>) -> bool {
    exists|i: int| occurs_at(s, p, i)
}

/// `bluealsa:DEV=`, which opens every PCM entry of the listing.
pub open spec fn pcm_prefix() -> Seq<u8> {
    seq![98u8, 108u8, 117u8, 101u8, 97u8, 108u8, 115u8, 97u8, 58u8, 68u8, 69u8, 86u8, 61u8]
}

/// `PROFILE=a2dp`, the mark of an A2DP audio entry.
pub open spec fn a2dp_mark() -> Seq<u8> {
    seq![80u8, 82u8, 79u8, 70u8, 73u8, 76u8, 69u8, 61u8, 97u8, 50u8, 100u8, 112u8]
}

/// Whether a trimmed listing line names a usable device: a PCM entry that
/// mentions the wanted address, or, with none wanted, any A2DP entry.
pub open spec fn is_device(line: Seq<u8>, target: Option<Seq<u8>>) -> bool {
    &&& has_prefix(line, pcm_prefix())
    &&& match target {
        Some(mac) => has_infix(line, mac),
        None => has_infix(line, a2dp_mark()),
    }
}

fn pcm_prefix_bytes() -> (r: [u8; 13])
    ensures
        r@ == pcm_prefix(),
{
    let r: [u8; 13] = [98, 108, 117, 101, 97, 108, 115, 97, 58, 68, 69, 86, 61];
    assert(r@ =~= pcm_prefix());
    r
}

fn a2dp_mark_bytes() -> (r: [u8; 12])
    ensures
        r@ == a2dp_mark(),
{
    let r: [u8; 12] = [80, 82, 79, 70, 73, 76, 69, 61, 97, 50, 100, 112];
    assert(r@ =~= a2dp_mark());
    r
}

/// Whether `p` occurs in `s` at offset `i`.
fn matches_at(s: &[u8], p: &[u8], i: usize) -> (r: bool)
    requires
        i + p@.len() <= s@.len(),
    ensures
        r == occurs_at(s@, p@, i as int),
{
    let n = s.len();
    let mut j: usize = 0;
    while j < p.len()
        invariant
            n == s@.len(),
            i + p@.len() <= s@.len(),
            j <= p@.len(),
            forall|k: int| 0 <= k < j ==> s@[i + k] == p@[k],
        decreases p@.len() - j,
    {
        if s[i + j] != p[j] {
            assert(s@.subrange(i as int, i + p@.len())[j as int] != p@[j as int]);
            return false;
        }
        j = j + 1;
    }
    assert(s@.subrange(i as int, i + p@.len()) =~= p@);
    true
}

/// Whether `s` begins with `p`.
pub fn starts_with(s: &[u8], p: &[u8]) -> (r: bool)
    ensures
        r == has_prefix(s@, p@),
{
    if p.len() > s.len() {
        false
    } else {
        matches_at(s, p, 0)
    }
}

/// Whether `p` occurs anywhere in `s`.
pub fn contains(s: &[u8], p: &[u8]) -> (r: bool)
    ensures
        r == has_infix(s@, p@),
{
    if p.len() > s.len() {
        assert forall|i: int| !occurs_at(s@, p@, i) by {}
        return false;
    }
    if p.len() == 0 {
        assert(s@.subrange(0, 0) =~= p@);
        assert(occurs_at(s@, p@, 0));
        return true;
    }
    let last = s.len() - p.len();
    let mut i: usize = 0;
    while i <= last
        invariant
            last == s@.len() - p@.len(),
            p@.len() > 0,
            last < s@.len(),
            s@.len() == s.len(),
            forall|k: int| 0 <= k < i ==> !occurs_at(s@, p@, k),
        decreases last + 1 - i,
    {
        if matches_at(s, p, i) {
            return true;
        }
        i = i + 1;
    }
    assert forall|k: int| !occurs_at(s@, p@, k) by {
        if 0 <= k && k < i {
        }
    }
    false
}

/// Whether a trimmed listing line names a usable device for `target`.
pub fn is_device_line(line: &[u8], target: Option<&[u8]>) -> (r: bool)
    ensures
        r == is_device(
            line@,
            match target {
                Some(t) => Some(t@),
                None => None,
            },
        ),
{
    let prefix = pcm_prefix_bytes();
    if !starts_with(line, prefix.as_slice()) {
        return false;
    }
    match target {
        Some(mac) => contains(line, mac),
        None => {
            let mark = a2dp_mark_bytes();
            contains(line, mark.as_slice())
        },
    }
}

/// The index of the first line that names a usable device for `target`,
/// or `None` if no line does.
pub fn select_device(lines: &Vec<Vec<u8>>, target: Option<&[u8]>) -> (r: Option<usize>)
    ensures
        ({
            let t = match target {
                Some(t) => Some(t@),
                None => None,
            };
            match r {
                Some(i) => {
                    &&& i < lines@.len()
                    &&& is_device(lines@[i as int]@, t)
                    &&& forall|k: int| 0 <= k < i ==> !is_device(#[trigger] lines@[k]@, t)
                },
                None => forall|k: int| 0 <= k < lines@.len() ==> !is_device(#[trigger] lines@[k]@, t),
            }
        }),
{
    let ghost t = match target {
        Some(t) => Some(t@),
        None => None,
    };
    let mut i: usize = 0;
    while i < lines.len()
        invariant
            i <= lines@.len(),
            t == match target {
                Some(t) => Some(t@),
                None => None::<Seq<u8>>,
            },
            forall|k: int| 0 <= k < i ==> !is_device(#[trigger] lines@[k]@, t),
        decreases lines@.len() - i,
    {
        if is_device_line(lines[i].as_slice(), target) {
            return Some(i);
        }
        i = i + 1;
    }
    None
}

} // verus!
