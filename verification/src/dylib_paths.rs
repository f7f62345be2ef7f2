//! The dynamic string tokens (`$ORIGIN`, `$LIB`, `$PLATFORM`) of library search
//! paths, expanded the way the dynamic loader does.
use vstd::prelude::*;
use vstd::utf8::valid_utf8;
use crate::products::{is_utf8_prefix_len, utf8_str};

verus! {

/// `$`
pub const DOLLAR: u8 = 36;
/// `{`
pub const LBRACE: u8 = 123;
/// `}`
pub const RBRACE: u8 = 125;

/// The token `ORIGIN`: the directory of the running executable.
pub open spec fn origin_name() -> Seq<u8> { seq![79u8, 82u8, 73u8, 71u8, 73u8, 78u8] }

/// The token `LIB`: the library directory name of the platform.
pub open spec fn lib_name() -> Seq<u8> { seq![76u8, 73u8, 66u8] }

/// The token `PLATFORM`: the processor type of the machine.
pub open spec fn platform_name() -> Seq<u8> { seq![80u8, 76u8, 65u8, 84u8, 70u8, 79u8, 82u8, 77u8] }

/// `t` begins with `name`.
pub open spec fn starts_with(t: Seq<u8>, name: Seq<u8>) -> bool {
    t.len() >= name.len() && t.take(name.len() as int) == name
}

/// A byte that can be part of an unbracketed token name: an ASCII letter or
/// digit, or `_`.
pub open spec fn is_ident_byte(b: u8) -> bool {
    (48 <= b <= 57) || (65 <= b <= 90) || (97 <= b <= 122) || b == 95
}

/// `p` cut at every `sep`: the bytes before the first `sep`, then the bytes after
/// each `sep` up to the next one.
pub open spec fn split_at_byte(p: Seq<u8>, sep: u8) -> Seq<Seq<u8>>
    decreases p.len(),
{
    if p.len() == 0 {
        seq![Seq::<u8>::empty()]
    } else {
        let prev = split_at_byte(p.drop_last(), sep);
        if p.last() == sep {
            prev.push(Seq::<u8>::empty())
        } else {
            prev.update(prev.len() - 1, prev.last().push(p.last()))
        }
    }
}

/// The path cut at every `$`.
pub open spec fn dollar_pieces(p: Seq<u8>) -> Seq<Seq<u8>> {
    split_at_byte(p, DOLLAR)
}

/// The length of the longest prefix of `t` whose bytes are all identifier bytes.
pub open spec fn ident_len(t: Seq<u8>) -> int
    decreases t.len(),
{
    if t.len() == 0 || !is_ident_byte(t[0]) { 0 } else { 1 + ident_len(t.drop_first()) }
}

/// The position of the first `}` of `t`, or its length when it has none.
pub open spec fn close_pos(t: Seq<u8>) -> int
    decreases t.len(),
{
    if t.len() == 0 || t[0] == RBRACE { 0 } else { 1 + close_pos(t.drop_first()) }
}

/// How much of `t` an unknown token takes: up to and including its `}` when
/// bracketed (or all of `t` without one), else its identifier bytes.
pub open spec fn unknown_len(t: Seq<u8>, bracketed: bool) -> int {
    if bracketed {
        if close_pos(t) < t.len() { close_pos(t) + 1 } else { t.len() as int }
    } else {
        ident_len(t)
    }
}

/// The known token `t` begins with, as its name and its expansion.
pub open spec fn known_token(t: Seq<u8>, origin: Seq<u8>, lib: Seq<u8>, platform: Seq<u8>)
    -> Option<(Seq<u8>, Seq<u8>)>
{
    if starts_with(t, origin_name()) {
        Some((origin_name(), origin))
    } else if starts_with(t, lib_name()) {
        Some((lib_name(), lib))
    } else if starts_with(t, platform_name()) {
        Some((platform_name(), platform))
    } else {
        None
    }
}

/// A nonempty piece after a `$`, expanded: an optional `{`, a token, then the rest
/// of the piece. A known token is replaced by its expansion (and the byte after
/// a bracketed one, its `}`, dropped); an unknown token is dropped.
pub open spec fn expand_piece(s: Seq<u8>, origin: Seq<u8>, lib: Seq<u8>, platform: Seq<u8>) -> Seq<u8> {
    let b = s[0] == LBRACE;
    let t = if b { s.drop_first() } else { s };
    match known_token(t, origin, lib, platform) {
        Some((name, value)) => value + t.skip(name.len() + if b { 1int } else { 0int }),
        None => t.skip(unknown_len(t, b)),
    }
}

/// A piece can be expanded: a bracketed known token is followed by at least
/// one byte (its `}`).
pub open spec fn piece_ok(s: Seq<u8>, origin: Seq<u8>, lib: Seq<u8>, platform: Seq<u8>) -> bool {
    let b = s[0] == LBRACE;
    let t = if b { s.drop_first() } else { s };
    match known_token(t, origin, lib, platform) {
        Some((name, _)) => !(b && t.len() == name.len()),
        None => true,
    }
}

/// The pieces after the first `$`, expanded in order; expansion stops at the
/// first empty piece (two `$` in a row, or a `$` that ends the path).
pub open spec fn expand_rest(pieces: Seq<Seq<u8>>, origin: Seq<u8>, lib: Seq<u8>, platform: Seq<u8>) -> Seq<u8>
    decreases pieces.len(),
{
    if pieces.len() == 0 || pieces[0].len() == 0 {
        Seq::empty()
    } else {
        expand_piece(pieces[0], origin, lib, platform) + expand_rest(pieces.drop_first(), origin, lib, platform)
    }
}

/// Every piece that expansion reaches can be expanded.
pub open spec fn rest_ok(pieces: Seq<Seq<u8>>, origin: Seq<u8>, lib: Seq<u8>, platform: Seq<u8>) -> bool
    decreases pieces.len(),
{
    pieces.len() == 0 || pieces[0].len() == 0
        || (piece_ok(pieces[0], origin, lib, platform) && rest_ok(pieces.drop_first(), origin, lib, platform))
}

/// The path `p` with its tokens expanded.
pub open spec fn expanded(p: Seq<u8>, origin: Seq<u8>, lib: Seq<u8>, platform: Seq<u8>) -> Seq<u8> {
    dollar_pieces(p)[0] + expand_rest(dollar_pieces(p).drop_first(), origin, lib, platform)
}

/// The path `p` can be expanded.
pub open spec fn expandable(p: Seq<u8>, origin: Seq<u8>, lib: Seq<u8>, platform: Seq<u8>) -> bool {
    rest_ok(dollar_pieces(p).drop_first(), origin, lib, platform)
}

/// A list of byte vectors in mathematical terms.
pub open spec fn byte_views(v: Seq<Vec<u8>>) -> Seq<Seq<u8>> {
    v.map_values(|x: Vec<u8>| x@)
}

/// Law: a path without `$` is left as it is.
pub proof fn law_no_token_unchanged(p: Seq<u8>, origin: Seq<u8>, lib: Seq<u8>, platform: Seq<u8>)
    requires !p.contains(DOLLAR),
    ensures
        expandable(p, origin, lib, platform),
        expanded(p, origin, lib, platform) == p,
{
    lemma_pieces_no_dollar(p);
    assert(dollar_pieces(p).drop_first().len() == 0);
    assert(p + Seq::<u8>::empty() == p);
}

proof fn lemma_pieces_no_dollar(p: Seq<u8>)
    requires !p.contains(DOLLAR),
    ensures split_at_byte(p, DOLLAR) == seq![p],
    decreases p.len(),
{
    if p.len() == 0 {
        assert(p =~= Seq::<u8>::empty());
    } else {
        let init = p.drop_last();
        assert(!init.contains(DOLLAR)) by {
            if init.contains(DOLLAR) {
                let k = choose|k: int| 0 <= k < init.len() && init[k] == DOLLAR;
                assert(p[k] == DOLLAR);
            }
        }
        lemma_pieces_no_dollar(init);
        assert(p.last() != DOLLAR) by {
            if p.last() == DOLLAR {
                assert(p[p.len() - 1] == DOLLAR);
            }
        }
        assert(init.push(p.last()) =~= p);
        assert(seq![init].update(0, init.push(p.last())) =~= seq![p]);
    }
}

/// Cutting never gives an empty list.
pub proof fn lemma_pieces_nonempty(p: Seq<u8>, sep: u8)
    ensures split_at_byte(p, sep).len() >= 1,
    decreases p.len(),
{
    if p.len() > 0 {
        lemma_pieces_nonempty(p.drop_last(), sep);
    }
}

/// Cut `p` at every `sep`.
pub fn split_bytes(p: &Vec<u8>, sep: u8) -> (r: Vec<Vec<u8>>)
    ensures byte_views(r@) == split_at_byte(p@, sep),
{
    let mut pieces: Vec<Vec<u8>> = Vec::new();
    let mut cur: Vec<u8> = Vec::new();
    let mut i: usize = 0;
    assert(p@.take(0) =~= Seq::<u8>::empty());
    assert(byte_views(pieces@).push(cur@) =~= seq![Seq::<u8>::empty()]);
    while i < p.len()
        invariant
            i <= p.len(),
            byte_views(pieces@).push(cur@) == split_at_byte(p@.take(i as int), sep),
        decreases p.len() - i,
    {
        let ghost prev = split_at_byte(p@.take(i as int), sep);
        assert(p@.take(i as int + 1).drop_last() == p@.take(i as int));
        assert(p@.take(i as int + 1).last() == p@[i as int]);
        let b = p[i];
        if b == sep {
            let ghost old_pieces = pieces@;
            let done = cur;
            cur = Vec::new();
            pieces.push(done);
            assert(byte_views(pieces@) =~= byte_views(old_pieces).push(done@));
            assert(byte_views(pieces@).push(cur@) =~= prev.push(Seq::<u8>::empty()));
        } else {
            cur.push(b);
            assert(byte_views(pieces@).push(cur@) =~= prev.update(prev.len() - 1, prev.last().push(b)));
        }
        i = i + 1;
    }
    assert(p@.take(p.len() as int) == p@);
    let ghost before = pieces@;
    pieces.push(cur);
    assert(byte_views(pieces@) =~= byte_views(before).push(cur@));
    pieces
}

/// Whether `name` occurs in `s` at `start`.
fn token_at(s: &Vec<u8>, start: usize, name: &[u8]) -> (r: bool)
    requires start <= s.len(),
    ensures r == starts_with(s@.skip(start as int), name@),
{
    if s.len() - start < name.len() {
        return false;
    }
    let mut k: usize = 0;
    while k < name.len()
        invariant
            k <= name.len(),
            start + name.len() <= s.len(),
            forall|j: int| 0 <= j < k ==> s@[start + j] == name@[j],
        decreases name.len() - k,
    {
        if s[start + k] != name[k] {
            assert(s@.skip(start as int).take(name.len() as int)[k as int] != name@[k as int]);
            return false;
        }
        k = k + 1;
    }
    assert(s@.skip(start as int).take(name.len() as int) =~= name@);
    true
}

/// Append the bytes of `s` from `from` on to `out`.
fn append_from(out: &mut Vec<u8>, s: &Vec<u8>, from: usize)
    requires from <= s.len(),
    ensures final(out)@ == old(out)@ + s@.skip(from as int),
{
    let mut k: usize = from;
    while k < s.len()
        invariant
            from <= k <= s.len(),
            out@ == old(out)@ + s@.subrange(from as int, k as int),
        decreases s.len() - k,
    {
        out.push(s[k]);
        assert(s@.subrange(from as int, k as int + 1) == s@.subrange(from as int, k as int).push(s@[k as int]));
        k = k + 1;
    }
    assert(s@.subrange(from as int, s.len() as int) == s@.skip(from as int));
}

/// Where an unknown token starting at `start` ends.
fn unknown_end(s: &Vec<u8>, start: usize, bracketed: bool) -> (r: usize)
    requires start <= s.len(),
    ensures r == start + unknown_len(s@.skip(start as int), bracketed), r <= s.len(),
{
    let ghost t = s@.skip(start as int);
    let mut j: usize = start;
    assert(s@.skip(j as int) == t);
    assert(t.len() == s.len() - start);
    proof { lemma_close_pos_bound(t); lemma_ident_len_bound(t); }
    if bracketed {
        while j < s.len()
            invariant
                start <= j <= s.len(),
                t == s@.skip(start as int),
                t.len() == s.len() - start,
                bracketed,
                close_pos(t) == (j - start) + close_pos(s@.skip(j as int)),
                close_pos(s@.skip(j as int)) <= s.len() - j,
            decreases s.len() - j,
        {
            assert(s@.skip(j as int)[0] == s@[j as int]);
            assert(s@.skip(j as int).drop_first() == s@.skip(j as int + 1));
            if s[j] == RBRACE {
                assert(close_pos(s@.skip(j as int)) == 0);
                assert(close_pos(t) == j - start);
                assert(close_pos(t) < t.len());
                return j + 1;
            }
            proof { lemma_close_pos_bound(s@.skip(j as int + 1)); }
            j = j + 1;
        }
        assert(s@.skip(j as int).len() == 0);
        s.len()
    } else {
        while j < s.len()
            invariant
                start <= j <= s.len(),
                t == s@.skip(start as int),
                t.len() == s.len() - start,
                !bracketed,
                ident_len(t) == (j - start) + ident_len(s@.skip(j as int)),
            decreases s.len() - j,
        {
            assert(s@.skip(j as int)[0] == s@[j as int]);
            assert(s@.skip(j as int).drop_first() == s@.skip(j as int + 1));
            let b = s[j];
            if !((48 <= b && b <= 57) || (65 <= b && b <= 90) || (97 <= b && b <= 122) || b == 95) {
                assert(!is_ident_byte(s@.skip(j as int)[0]));
                assert(ident_len(s@.skip(j as int)) == 0);
                return j;
            }
            j = j + 1;
        }
        assert(s@.skip(j as int).len() == 0);
        j
    }
}

proof fn lemma_ident_len_bound(t: Seq<u8>)
    ensures 0 <= ident_len(t) <= t.len(),
    decreases t.len(),
{
    if t.len() > 0 && is_ident_byte(t[0]) {
        lemma_ident_len_bound(t.drop_first());
    }
}

proof fn lemma_close_pos_bound(t: Seq<u8>)
    ensures 0 <= close_pos(t) <= t.len(),
    decreases t.len(),
{
    if t.len() > 0 && t[0] != RBRACE {
        lemma_close_pos_bound(t.drop_first());
    }
}

/// Expand one nonempty piece after a `$`.
fn expand_one(s: &Vec<u8>, origin: &Vec<u8>, lib: &Vec<u8>, platform: &Vec<u8>) -> (r: Vec<u8>)
    requires s.len() > 0, piece_ok(s@, origin@, lib@, platform@),
    ensures r@ == expand_piece(s@, origin@, lib@, platform@),
{
    let b = s[0] == LBRACE;
    let start: usize = if b { 1 } else { 0 };
    let ghost t = if b { s@.drop_first() } else { s@ };
    assert(s@.skip(start as int) == t);
    let origin_tok: [u8; 6] = [79, 82, 73, 71, 73, 78];
    let lib_tok: [u8; 3] = [76, 73, 66];
    let platform_tok: [u8; 8] = [80, 76, 65, 84, 70, 79, 82, 77];
    assert(origin_tok@ =~= origin_name());
    assert(lib_tok@ =~= lib_name());
    assert(platform_tok@ =~= platform_name());
    let skip_close: usize = if b { 1 } else { 0 };
    if token_at(s, start, origin_tok.as_slice()) {
        let mut out = origin.clone();
        assert(out@ =~= origin@);
        append_from(&mut out, s, start + 6 + skip_close);
        assert(s@.skip(start + 6 + skip_close) =~= t.skip(6 + skip_close));
        out
    } else if token_at(s, start, lib_tok.as_slice()) {
        let mut out = lib.clone();
        assert(out@ =~= lib@);
        append_from(&mut out, s, start + 3 + skip_close);
        assert(s@.skip(start + 3 + skip_close) =~= t.skip(3 + skip_close));
        out
    } else if token_at(s, start, platform_tok.as_slice()) {
        let mut out = platform.clone();
        assert(out@ =~= platform@);
        append_from(&mut out, s, start + 8 + skip_close);
        assert(s@.skip(start + 8 + skip_close) =~= t.skip(8 + skip_close));
        out
    } else {
        let end = unknown_end(s, start, b);
        proof {
            lemma_close_pos_bound(t);
            lemma_ident_len_bound(t);
            assert(0 <= unknown_len(t, b) <= t.len());
            assert(end == start + unknown_len(t, b));
        }
        let mut out: Vec<u8> = Vec::new();
        append_from(&mut out, s, end);
        assert(s@.skip(end as int) =~= t.skip(unknown_len(t, b)));
        assert(out@ =~= t.skip(unknown_len(t, b)));
        out
    }
}

/// Whether one nonempty piece can be expanded.
fn piece_expandable(s: &Vec<u8>, origin: &Vec<u8>, lib: &Vec<u8>, platform: &Vec<u8>) -> (r: bool)
    requires s.len() > 0,
    ensures r == piece_ok(s@, origin@, lib@, platform@),
{
    let b = s[0] == LBRACE;
    if !b {
        return true;
    }
    let ghost t = s@.drop_first();
    assert(s@.skip(1) == t);
    let origin_tok: [u8; 6] = [79, 82, 73, 71, 73, 78];
    let lib_tok: [u8; 3] = [76, 73, 66];
    let platform_tok: [u8; 8] = [80, 76, 65, 84, 70, 79, 82, 77];
    assert(origin_tok@ =~= origin_name());
    assert(lib_tok@ =~= lib_name());
    assert(platform_tok@ =~= platform_name());
    let rest = s.len() - 1;
    if token_at(s, 1, origin_tok.as_slice()) {
        rest != 6
    } else if token_at(s, 1, lib_tok.as_slice()) {
        rest != 3
    } else if token_at(s, 1, platform_tok.as_slice()) {
        rest != 8
    } else {
        true
    }
}

/// Whether the tokens of `path` can be expanded: a bracketed known token (`${ORIGIN`,
/// `${LIB`, `${PLATFORM`) must not end a piece that expansion reaches.
pub fn check_expandable(path: &Vec<u8>, origin: &Vec<u8>, lib: &Vec<u8>, platform: &Vec<u8>) -> (r: bool)
    ensures r == expandable(path@, origin@, lib@, platform@),
{
    let pieces = split_bytes(path, DOLLAR);
    proof { lemma_pieces_nonempty(path@, DOLLAR); }
    let ghost vs = byte_views(pieces@);
    let mut k: usize = 1;
    assert(vs.subrange(1, vs.len() as int) == vs.drop_first());
    while k < pieces.len()
        invariant
            1 <= k <= pieces.len(),
            vs == byte_views(pieces@),
            vs == dollar_pieces(path@),
            rest_ok(vs.drop_first(), origin@, lib@, platform@)
                == rest_ok(vs.subrange(k as int, vs.len() as int), origin@, lib@, platform@),
        decreases pieces.len() - k,
    {
        let ghost sub = vs.subrange(k as int, vs.len() as int);
        assert(sub[0] == pieces@[k as int]@);
        assert(sub.drop_first() == vs.subrange(k as int + 1, vs.len() as int));
        if pieces[k].len() == 0 {
            return true;
        }
        if !piece_expandable(&pieces[k], origin, lib, platform) {
            return false;
        }
        k = k + 1;
    }
    assert(vs.subrange(k as int, vs.len() as int).len() == 0);
    true
}

/// Expand the dynamic string tokens of the library search path `path` (its
/// bytes): `$ORIGIN` becomes `origin`, `$LIB` becomes `lib`, and `$PLATFORM`
/// becomes `platform`, each also written `${...}`; unknown tokens are dropped,
/// and everything after a `$$` or a final `$` is dropped.
pub fn expand_dynamic_tokens(path: &Vec<u8>, origin: &Vec<u8>, lib: &Vec<u8>, platform: &Vec<u8>)
    -> (r: Vec<u8>)
    requires expandable(path@, origin@, lib@, platform@),
    ensures r@ == expanded(path@, origin@, lib@, platform@),
{
    let pieces = split_bytes(path, DOLLAR);
    proof { lemma_pieces_nonempty(path@, DOLLAR); }
    let ghost vs = byte_views(pieces@);
    let ghost rest = vs.drop_first();
    let mut out = pieces[0].clone();
    assert(out@ =~= vs[0]);
    let mut k: usize = 1;
    assert(vs.subrange(1, vs.len() as int) == rest);
    while k < pieces.len()
        invariant
            1 <= k <= pieces.len(),
            vs == byte_views(pieces@),
            vs == dollar_pieces(path@),
            rest == vs.drop_first(),
            out@ + expand_rest(vs.subrange(k as int, vs.len() as int), origin@, lib@, platform@)
                == vs[0] + expand_rest(rest, origin@, lib@, platform@),
            rest_ok(vs.subrange(k as int, vs.len() as int), origin@, lib@, platform@),
        decreases pieces.len() - k,
    {
        let ghost sub = vs.subrange(k as int, vs.len() as int);
        assert(sub[0] == pieces@[k as int]@);
        assert(sub.drop_first() == vs.subrange(k as int + 1, vs.len() as int));
        if pieces[k].len() == 0 {
            assert(expand_rest(sub, origin@, lib@, platform@) == Seq::<u8>::empty());
            assert(out@ + Seq::<u8>::empty() == out@);
            return out;
        }
        let piece = expand_one(&pieces[k], origin, lib, platform);
        let ghost before = out@;
        let mut piece_out = piece;
        out.append(&mut piece_out);
        assert(out@ + expand_rest(vs.subrange(k as int + 1, vs.len() as int), origin@, lib@, platform@)
            =~= before + expand_rest(sub, origin@, lib@, platform@));
        k = k + 1;
    }
    assert(vs.subrange(k as int, vs.len() as int).len() == 0);
    assert(out@ + Seq::<u8>::empty() == out@);
    out
}

/// Expand every search path of `paths`, in order.
pub fn expand_search_paths(paths: &Vec<Vec<u8>>, origin: &Vec<u8>, lib: &Vec<u8>, platform: &Vec<u8>)
    -> (r: Vec<Vec<u8>>)
    requires forall|i: int| 0 <= i < paths.len() ==> expandable(#[trigger] paths@[i]@, origin@, lib@, platform@),
    ensures
        r.len() == paths.len(),
        forall|i: int| 0 <= i < paths.len() ==> #[trigger] r@[i]@ == expanded(paths@[i]@, origin@, lib@, platform@),
{
    let mut out: Vec<Vec<u8>> = Vec::new();
    let mut i: usize = 0;
    while i < paths.len()
        invariant
            i <= paths.len(),
            out.len() == i,
            forall|k: int| 0 <= k < paths.len() ==> expandable(#[trigger] paths@[k]@, origin@, lib@, platform@),
            forall|k: int| 0 <= k < i ==> #[trigger] out@[k]@ == expanded(paths@[k]@, origin@, lib@, platform@),
        decreases paths.len() - i,
    {
        let e = expand_dynamic_tokens(&paths[i], origin, lib, platform);
        out.push(e);
        i = i + 1;
    }
    out
}


/// `:`, which separates the directories of a run path.
pub const COLON: u8 = 58;
/// The tag that ends the dynamic section.
pub const DT_NULL: u64 = 0;
/// The tag of the dynamic string table's address.
pub const DT_STRTAB: u64 = 5;
/// The tag of the run path's offset in the dynamic string table.
pub const DT_RUNPATH: u64 = 29;
/// The type of a loadable segment.
pub const PT_LOAD: u32 = 1;

/// What goblin reads of an ELF image's dynamic linking: its program headers as
/// (type, virtual address, size in memory, file offset), and the entries of its
/// dynamic section as (tag, value), up to and including the first `DT_NULL`;
/// `None` when the image cannot be read or has no dynamic section.
pub uninterp spec fn elf_dynamic_of(bytes: Seq<u8>) -> Option<(Seq<(u32, u64, u64, u64)>, Seq<(u64, u64)>)>;

/// An image's dynamic linking in mathematical terms.
pub open spec fn dynamic_view(d: Option<(Vec<(u32, u64, u64, u64)>, Vec<(u64, u64)>)>)
    -> Option<(Seq<(u32, u64, u64, u64)>, Seq<(u64, u64)>)>
{
    match d {
        Some((p, e)) => Some((p@, e@)),
        None => None,
    }
}

/// goblin's `Elf::parse_header`, `ProgramHeader::parse` and `Dynamic::parse`:
/// the program headers and the dynamic entries of the image, or `None` when one
/// of them fails or there is no dynamic section. The contract names the result
/// only: what an image holds is goblin's reading of the ELF format.
#[verifier::external_body]
fn read_elf_dynamic(bytes: &[u8]) -> (r: Option<(Vec<(u32, u64, u64, u64)>, Vec<(u64, u64)>)>)
    ensures dynamic_view(r) == elf_dynamic_of(bytes@),
{
    let header = goblin::elf::Elf::parse_header(bytes).ok()?;
    let ctx = goblin::container::Ctx::new(header.container().ok()?, header.endianness().ok()?);
    let phdrs = goblin::elf::ProgramHeader::parse(bytes, header.e_phoff as usize, header.e_phnum as usize, ctx).ok()?;
    let dynamic = goblin::elf::Dynamic::parse(bytes, &phdrs, ctx).ok()??;
    Some((phdrs.iter().map(|p| (p.p_type, p.p_vaddr, p.p_memsz, p.p_offset)).collect(),
        dynamic.dyns.iter().map(|d| (d.d_tag, d.d_val)).collect()))
}

/// The value of the first dynamic entry tagged `tag` before the terminating
/// `DT_NULL`, if there is one.
pub open spec fn first_tagged(entries: Seq<(u64, u64)>, tag: u64) -> Option<u64>
    decreases entries.len(),
{
    if entries.len() == 0 || entries[0].0 == DT_NULL {
        None
    } else if entries[0].0 == tag {
        Some(entries[0].1)
    } else {
        first_tagged(entries.drop_first(), tag)
    }
}

/// The file offset of address `addr`, through the first loadable segment that
/// maps it.
pub open spec fn load_offset(phdrs: Seq<(u32, u64, u64, u64)>, addr: int) -> Option<int>
    decreases phdrs.len(),
{
    if phdrs.len() == 0 {
        None
    } else if phdrs[0].0 == PT_LOAD && phdrs[0].1 <= addr && addr - phdrs[0].1 < phdrs[0].2 {
        Some(phdrs[0].3 + (addr - phdrs[0].1))
    } else {
        load_offset(phdrs.drop_first(), addr)
    }
}

/// Where the NUL-terminated string at `off` ends: at its NUL, or at the end of `b`.
pub open spec fn nul_end(b: Seq<u8>, off: int) -> int
    decreases b.len() - off,
{
    if off < 0 || off >= b.len() {
        b.len() as int
    } else if b[off] == 0 {
        off
    } else {
        nul_end(b, off + 1)
    }
}

/// The longest prefix of `s` that is valid UTF-8.
pub open spec fn utf8_prefix(s: Seq<u8>) -> Seq<u8> {
    s.take(choose|n: int| is_utf8_prefix_len(s, n))
}

/// The run path of an image: the string that `DT_RUNPATH` gives the offset of in
/// the string table `DT_STRTAB` points to (both the first of their tag before
/// `DT_NULL`), read up to its NUL from the file bytes its address maps to; `None`
/// when the image has no dynamic section, either entry, or a mapping of that
/// address into the file.
pub open spec fn runpath_string(bytes: Seq<u8>, dynamic: Option<(Seq<(u32, u64, u64, u64)>, Seq<(u64, u64)>)>)
    -> Option<Seq<u8>>
{
    match dynamic {
        Some((phdrs, entries)) => match (first_tagged(entries, DT_STRTAB), first_tagged(entries, DT_RUNPATH)) {
            (Some(strtab), Some(at)) => if strtab + at > u64::MAX {
                None
            } else {
                match load_offset(phdrs, strtab + at) {
                    Some(off) => if off < bytes.len() {
                        Some(bytes.subrange(off, nul_end(bytes, off)))
                    } else {
                        None
                    },
                    None => None,
                }
            },
            _ => None,
        },
        None => None,
    }
}

/// The run path directories of an image: the longest valid UTF-8 prefix of its
/// run path, cut at every `:`; none when it has no run path.
pub open spec fn runpath_dirs(bytes: Seq<u8>, dynamic: Option<(Seq<(u32, u64, u64, u64)>, Seq<(u64, u64)>)>)
    -> Seq<Seq<u8>>
{
    match runpath_string(bytes, dynamic) {
        Some(s) => split_at_byte(utf8_prefix(s), COLON),
        None => Seq::empty(),
    }
}

/// The first dynamic entry tagged `tag` before `DT_NULL`.
fn find_tagged(entries: &Vec<(u64, u64)>, tag: u64) -> (r: Option<u64>)
    ensures r == first_tagged(entries@, tag),
{
    let mut i: usize = 0;
    assert(entries@.skip(0) =~= entries@);
    while i < entries.len()
        invariant
            i <= entries.len(),
            first_tagged(entries@, tag) == first_tagged(entries@.skip(i as int), tag),
        decreases entries.len() - i,
    {
        assert(entries@.skip(i as int)[0] == entries@[i as int]);
        assert(entries@.skip(i as int).drop_first() =~= entries@.skip(i as int + 1));
        let (t, v) = entries[i];
        if t == DT_NULL {
            return None;
        }
        if t == tag {
            return Some(v);
        }
        i = i + 1;
    }
    assert(entries@.skip(i as int).len() == 0);
    None
}

/// The file offset of `addr`, through the first loadable segment that maps it.
fn find_load_offset(phdrs: &Vec<(u32, u64, u64, u64)>, addr: u64) -> (r: Option<u128>)
    ensures
        r is Some <==> load_offset(phdrs@, addr as int) is Some,
        r matches Some(o) ==> load_offset(phdrs@, addr as int) == Some(o as int),
{
    let mut i: usize = 0;
    assert(phdrs@.skip(0) =~= phdrs@);
    while i < phdrs.len()
        invariant
            i <= phdrs.len(),
            load_offset(phdrs@, addr as int) == load_offset(phdrs@.skip(i as int), addr as int),
        decreases phdrs.len() - i,
    {
        assert(phdrs@.skip(i as int)[0] == phdrs@[i as int]);
        assert(phdrs@.skip(i as int).drop_first() =~= phdrs@.skip(i as int + 1));
        let (ty, vaddr, memsz, offset) = phdrs[i];
        if ty == PT_LOAD && vaddr <= addr && addr - vaddr < memsz {
            return Some(offset as u128 + (addr - vaddr) as u128);
        }
        i = i + 1;
    }
    assert(phdrs@.skip(i as int).len() == 0);
    None
}

/// The bytes of the NUL-terminated string at `off`.
fn c_string(bytes: &[u8], off: usize) -> (r: Vec<u8>)
    requires off < bytes@.len(),
    ensures r@ == bytes@.subrange(off as int, nul_end(bytes@, off as int)),
{
    let mut out: Vec<u8> = Vec::new();
    let mut j: usize = off;
    while j < bytes.len() && bytes[j] != 0
        invariant
            off <= j <= bytes@.len(),
            nul_end(bytes@, off as int) == nul_end(bytes@, j as int),
            out@ == bytes@.subrange(off as int, j as int),
        decreases bytes@.len() - j,
    {
        out.push(bytes[j]);
        assert(bytes@.subrange(off as int, j as int + 1) =~= bytes@.subrange(off as int, j as int).push(bytes@[j as int]));
        j = j + 1;
    }
    out
}

/// The longest valid UTF-8 prefix is unique.
proof fn lemma_utf8_prefix(s: Seq<u8>, n: int)
    requires is_utf8_prefix_len(s, n),
    ensures utf8_prefix(s) == s.take(n),
{
    let c = choose|k: int| is_utf8_prefix_len(s, k);
    assert(is_utf8_prefix_len(s, c));
    if c < n {
        assert(!valid_utf8(s.take(n)));
    } else if n < c {
        assert(!valid_utf8(s.take(c)));
    }
}

/// The run path directories of the image `exe`, given what reading its dynamic
/// linking gave.
pub fn runpaths_in(exe: &[u8], dynamic: Option<(Vec<(u32, u64, u64, u64)>, Vec<(u64, u64)>)>) -> (r: Vec<Vec<u8>>)
    ensures byte_views(r@) == runpath_dirs(exe@, dynamic_view(dynamic)),
{
    let none: Vec<Vec<u8>> = Vec::new();
    assert(byte_views(none@) =~= Seq::<Seq<u8>>::empty());
    let (phdrs, entries) = match dynamic {
        Some(d) => d,
        None => return none,
    };
    let strtab = match find_tagged(&entries, DT_STRTAB) {
        Some(v) => v,
        None => return none,
    };
    let at = match find_tagged(&entries, DT_RUNPATH) {
        Some(v) => v,
        None => return none,
    };
    let addr = match strtab.checked_add(at) {
        Some(a) => a,
        None => return none,
    };
    let off = match find_load_offset(&phdrs, addr) {
        Some(o) => o,
        None => return none,
    };
    if off >= exe.len() as u128 {
        return none;
    }
    let mut s = c_string(exe, off as usize);
    let n: usize = match utf8_str(s.as_slice()) {
        Ok(_) => {
            assert(s@.take(s@.len() as int) =~= s@);
            s.len()
        },
        Err(n) => n,
    };
    proof { lemma_utf8_prefix(s@, n as int); }
    s.truncate(n);
    split_bytes(&s, COLON)
}

/// The run path directories of the executable image `exe`: the longest valid
/// UTF-8 prefix of its `DT_RUNPATH` string, cut at every `:`, or none.
pub fn exe_runpaths(exe: &[u8]) -> (r: Vec<Vec<u8>>)
    ensures byte_views(r@) == runpath_dirs(exe@, elf_dynamic_of(exe@)),
{
    runpaths_in(exe, read_elf_dynamic(exe))
}

} // verus!
