//! Which files of the library search directories may hold crate metadata.
use vstd::prelude::*;
use crate::dylib_paths::{byte_views, split_at_byte, split_bytes};

verus! {

/// `/`
pub const SLASH: u8 = 47;
/// `.`
pub const DOT: u8 = 46;

/// The name `.rustup`.
pub open spec fn rustup_name() -> Seq<u8> { seq![46u8, 114u8, 117u8, 115u8, 116u8, 117u8, 112u8] }

/// The path cut at every `/`.
pub open spec fn path_parts(p: Seq<u8>) -> Seq<Seq<u8>> {
    split_at_byte(p, SLASH)
}

/// A part that names a component: neither empty (a repeated or trailing `/`) nor
/// `.` (the current directory).
pub open spec fn names_component(c: Seq<u8>) -> bool {
    c.len() > 0 && c != seq![DOT]
}

/// The last part of `parts` that names a component, if any.
pub open spec fn last_component(parts: Seq<Seq<u8>>) -> Option<Seq<u8>>
    decreases parts.len(),
{
    if parts.len() == 0 {
        None
    } else if names_component(parts.last()) {
        Some(parts.last())
    } else {
        last_component(parts.drop_last())
    }
}

/// The file name of a path: its last component, unless that is `..`.
pub open spec fn file_name(p: Seq<u8>) -> Option<Seq<u8>> {
    match last_component(path_parts(p)) {
        Some(c) => if c == seq![DOT, DOT] { None } else { Some(c) },
        None => None,
    }
}

/// The position of the last `.` of `name`, if any.
pub open spec fn last_dot(name: Seq<u8>) -> Option<int>
    decreases name.len(),
{
    if name.len() == 0 {
        None
    } else if name.last() == DOT {
        Some(name.len() - 1)
    } else {
        last_dot(name.drop_last())
    }
}

/// The extension of a file name: what follows its last `.`, unless that `.` is
/// its first byte (or it has none).
pub open spec fn extension_of(name: Seq<u8>) -> Option<Seq<u8>> {
    match last_dot(name) {
        Some(d) => if d == 0 { None } else { Some(name.skip(d + 1)) },
        None => None,
    }
}

/// A file may hold crate metadata: a dynamic library (extension `dll_ext`) outside
/// any `.rustup` directory (the libraries of other toolchains).
pub open spec fn is_candidate(p: Seq<u8>, dll_ext: Seq<u8>) -> bool {
    &&& (file_name(p) matches Some(n) && extension_of(n) == Some(dll_ext))
    &&& !path_parts(p).contains(rustup_name())
}

/// Whether the bytes of `a` are those of `b`.
fn bytes_eq(a: &Vec<u8>, b: &[u8]) -> (r: bool)
    ensures r == (a@ == b@),
{
    if a.len() != b.len() {
        return false;
    }
    let mut i: usize = 0;
    while i < a.len()
        invariant
            i <= a.len(), a.len() == b.len(),
            forall|k: int| 0 <= k < i ==> a@[k] == b@[k],
        decreases a.len() - i,
    {
        if a[i] != b[i] {
            return false;
        }
        i = i + 1;
    }
    assert(a@ =~= b@);
    true
}

/// The index of the last part that names a component.
fn last_component_index(parts: &Vec<Vec<u8>>) -> (r: Option<usize>)
    ensures
        r matches Some(i) ==> i < parts.len() && last_component(byte_views(parts@)) == Some(parts@[i as int]@),
        r is None ==> last_component(byte_views(parts@)) is None,
{
    let ghost ps = byte_views(parts@);
    let dot: [u8; 1] = [46];
    assert(dot@ =~= seq![DOT]);
    let mut k: usize = parts.len();
    assert(ps.take(k as int) == ps);
    while k > 0
        invariant
            k <= parts.len(),
            ps == byte_views(parts@),
            dot@ == seq![DOT],
            last_component(ps) == last_component(ps.take(k as int)),
        decreases k,
    {
        assert(ps.take(k as int).drop_last() == ps.take(k as int - 1));
        assert(ps.take(k as int).last() == ps[k as int - 1]);
        let c = &parts[k - 1];
        if c.len() > 0 && !bytes_eq(c, dot.as_slice()) {
            return Some(k - 1);
        }
        k = k - 1;
    }
    assert(ps.take(0).len() == 0);
    None
}

/// The position of the last `.` of `name`.
fn last_dot_pos(name: &Vec<u8>) -> (r: Option<usize>)
    ensures
        r matches Some(d) ==> d < name.len() && last_dot(name@) == Some(d as int),
        r is None ==> last_dot(name@) is None,
{
    let mut d: usize = name.len();
    assert(name@.take(d as int) == name@);
    while d > 0
        invariant
            d <= name.len(),
            last_dot(name@) == last_dot(name@.take(d as int)),
        decreases d,
    {
        assert(name@.take(d as int).drop_last() == name@.take(d as int - 1));
        assert(name@.take(d as int).last() == name@[d as int - 1]);
        if name[d - 1] == DOT {
            return Some(d - 1);
        }
        d = d - 1;
    }
    assert(name@.take(0).len() == 0);
    None
}

/// Whether the file at `path` (its bytes) may hold crate metadata: its extension
/// is `dll_ext` and no component of the path is `.rustup`.
pub fn is_search_candidate(path: &Vec<u8>, dll_ext: &Vec<u8>) -> (r: bool)
    ensures r == is_candidate(path@, dll_ext@),
{
    let parts = split_bytes(path, SLASH);
    let ghost ps = byte_views(parts@);
    assert(ps == path_parts(path@));
    let rustup: [u8; 7] = [46, 114, 117, 115, 116, 117, 112];
    assert(rustup@ =~= rustup_name());
    // no `.rustup` component
    let mut i: usize = 0;
    while i < parts.len()
        invariant
            i <= parts.len(),
            ps == byte_views(parts@),
            ps == path_parts(path@),
            rustup@ == rustup_name(),
            forall|k: int| 0 <= k < i ==> ps[k] != rustup_name(),
        decreases parts.len() - i,
    {
        if bytes_eq(&parts[i], rustup.as_slice()) {
            assert(ps[i as int] == rustup_name());
            assert(ps.contains(rustup_name()));
            return false;
        }
        i = i + 1;
    }
    assert(!ps.contains(rustup_name()));
    let idx = match last_component_index(&parts) {
        None => { return false; },
        Some(j) => j,
    };
    let name = &parts[idx];
    let dotdot: [u8; 2] = [46, 46];
    assert(dotdot@ =~= seq![DOT, DOT]);
    if bytes_eq(name, dotdot.as_slice()) {
        return false;
    }
    assert(file_name(path@) == Some(name@));
    let d = match last_dot_pos(name) {
        None => { return false; },
        Some(d) => d,
    };
    if d == 0 {
        return false;
    }
    // compare the extension
    let start = d + 1;
    assert(extension_of(name@) == Some(name@.skip(start as int)));
    let ext_len = name.len() - start;
    if ext_len != dll_ext.len() {
        assert(name@.skip(start as int).len() != dll_ext@.len());
        return false;
    }
    let mut j: usize = 0;
    while j < ext_len
        invariant
            j <= ext_len, ext_len == dll_ext.len(), start + ext_len == name.len(),
            forall|m: int| 0 <= m < j ==> name@[start + m] == dll_ext@[m],
            file_name(path@) == Some(name@),
            extension_of(name@) == Some(name@.skip(start as int)),
            !path_parts(path@).contains(rustup_name()),
        decreases ext_len - j,
    {
        if name[start + j] != dll_ext[j] {
            assert(name@.skip(start as int)[j as int] != dll_ext@[j as int]);
            return false;
        }
        j = j + 1;
    }
    assert(name@.skip(start as int) =~= dll_ext@);
    true
}

} // verus!
