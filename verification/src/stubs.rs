//! Test stubs for the C functions that the generated bindings declare: each
//! `c_` function gets an empty body that returns zero.
use crate::text::{
    append_range, chars_of, copy_range, ends_with_char, find_char, has_prefix, lemma_find_bounds,
    lemma_rfind_bounds, lines_view, rfind_char, spec_find, spec_lines, spec_rfind, spec_trim,
    spec_trim_end_char, split_lines, str_equal, trim_chars, trim_end_char,
};
use vstd::prelude::*;

verus! {

/// `pub fn`, which starts a function declaration of the bindings.
pub open spec fn pub_fn_word() -> Seq<char> {
    seq!['p', 'u', 'b', ' ', 'f', 'n']
}

/// `pub fn ` with its space.
pub open spec fn pub_fn_prefix() -> Seq<char> {
    seq!['p', 'u', 'b', ' ', 'f', 'n', ' ']
}

/// `c_`, the prefix of the C functions that get stubs.
pub open spec fn c_prefix() -> Seq<char> {
    seq!['c', '_']
}

/// `-> `, which starts a return type.
pub open spec fn arrow_prefix() -> Seq<char> {
    seq!['-', '>', ' ']
}

/// A signature without one trailing `;` and one leading `pub fn `.
pub open spec fn stub_core(sig: Seq<char>) -> Seq<char> {
    let a = if sig.len() > 0 && sig.last() == ';' {
        sig.drop_last()
    } else {
        sig
    };
    if pub_fn_prefix().is_prefix_of(a) {
        a.skip(7)
    } else {
        a
    }
}

/// The return type written after the `)` at index `c` of a signature core:
/// what follows `-> `, trimmed and without trailing `;`, or nothing.
pub open spec fn stub_ret_type(core: Seq<char>, c: int) -> Seq<char> {
    let ret_part = spec_trim(core.skip(c + 1));
    if arrow_prefix().is_prefix_of(ret_part) {
        spec_trim_end_char(spec_trim(ret_part.skip(3)), ';')
    } else {
        Seq::empty()
    }
}

/// How a stub ends for a return type: an empty body, or a body returning
/// zero, with the C status, flag and state types returned as their integer
/// widths.
pub open spec fn stub_ret_text(ret: Seq<char>) -> Seq<char> {
    if ret.len() == 0 {
        " {}\n\n"@
    } else if ret == "u8"@ || ret == "vp_status_t"@ || ret == "vp_bool_t"@ || ret
        == "vp_hid_send_status_t"@ {
        " -> u8 { 0 }\n\n"@
    } else if ret == "u32"@ || ret == "vp_timestamp_t"@ || ret == "vp_wake_source_t"@ || ret
        == "vp_usb_state_t"@ {
        " -> u32 { 0 }\n\n"@
    } else {
        " -> "@ + ret + " { 0 }\n\n"@
    }
}

pub const STUB_HEAD: &'static str = "#[unsafe(no_mangle)]\npub unsafe extern \"C\" fn ";

/// Whether the stub of `sig` can be made: in the signature of a `c_`
/// function, the last `)` stands after the first `(`.
pub open spec fn stub_input_ok(sig: Seq<char>) -> bool {
    let core = stub_core(sig);
    match (spec_find(core, '('), spec_rfind(core, ')')) {
        (Some(o), Some(c)) => c_prefix().is_prefix_of(core.take(o)) ==> o < c,
        _ => true,
    }
}

/// The stub of one declaration: nothing unless it declares a `c_` function
/// with a parameter list, else an exported function with the same name and
/// parameters whose body returns zero.
pub open spec fn spec_stub_body(sig: Seq<char>) -> Seq<char> {
    let core = stub_core(sig);
    match (spec_find(core, '('), spec_rfind(core, ')')) {
        (Some(o), Some(c)) => {
            let name = core.take(o);
            if !c_prefix().is_prefix_of(name) {
                Seq::empty()
            } else {
                STUB_HEAD@ + name + "("@ + core.subrange(o + 1, c) + ")"@ + stub_ret_text(
                    stub_ret_type(core, c),
                )
            }
        },
        _ => Seq::empty(),
    }
}

/// Joins the lines after an unfinished declaration `sig` until one ends with
/// `;`: the joined declaration, how many lines it took, and whether a `;`
/// was found before the lines ran out.
pub open spec fn spec_gather(sig: Seq<char>, rest: Seq<Seq<char>>) -> (Seq<char>, int, bool)
    decreases rest.len(),
{
    if rest.len() == 0 {
        (sig, 0, false)
    } else {
        let t = spec_trim(rest[0]);
        let joined = sig.push(' ') + t;
        if t.len() > 0 && t.last() == ';' {
            (joined, 1, true)
        } else {
            let g = spec_gather(joined, rest.drop_first());
            (g.0, g.1 + 1, g.2)
        }
    }
}

pub proof fn lemma_gather_bounds(sig: Seq<char>, rest: Seq<Seq<char>>)
    ensures
        0 <= spec_gather(sig, rest).1 <= rest.len(),
        spec_gather(sig, rest).2 ==> spec_gather(sig, rest).1 >= 1,
        !spec_gather(sig, rest).2 ==> spec_gather(sig, rest).1 == rest.len(),
    decreases rest.len(),
{
    if rest.len() > 0 {
        let t = spec_trim(rest[0]);
        lemma_gather_bounds(sig.push(' ') + t, rest.drop_first());
    }
}

/// The function declarations of the bindings, each on one line: a trimmed
/// line that starts with `pub fn` is a declaration, continued by the
/// following lines, joined with spaces, until one ends with `;`.
pub open spec fn spec_signatures(lines: Seq<Seq<char>>) -> Seq<Seq<char>>
    decreases lines.len(),
{
    if lines.len() == 0 {
        Seq::empty()
    } else {
        let t = spec_trim(lines[0]);
        let rest = lines.drop_first();
        if !pub_fn_word().is_prefix_of(t) {
            spec_signatures(rest)
        } else if t.len() > 0 && t.last() == ';' {
            seq![t] + spec_signatures(rest)
        } else {
            proof {
                lemma_gather_bounds(t, rest);
            }
            let g = spec_gather(t, rest);
            if g.2 {
                seq![g.0] + spec_signatures(rest.skip(g.1))
            } else {
                Seq::empty()
            }
        }
    }
}

/// The stubs of all declarations, in order.
pub open spec fn spec_stub_bodies(sigs: Seq<Seq<char>>) -> Seq<char>
    decreases sigs.len(),
{
    if sigs.len() == 0 {
        Seq::empty()
    } else {
        spec_stub_bodies(sigs.drop_last()) + spec_stub_body(sigs.last())
    }
}

pub const STUBS_HEAD: &'static str = "// 自动生成，勿手动编辑\nuse crate::ffi::bindings::*;\n\n";

/// Whether the stubs of a bindings file can be made.
pub open spec fn stubs_ok(source: Seq<char>) -> bool {
    let sigs = spec_signatures(spec_lines(source));
    forall|i: int| 0 <= i < sigs.len() ==> stub_input_ok(#[trigger] sigs[i])
}

/// The test stubs for a bindings file.
pub open spec fn spec_build_stubs(source: Seq<char>) -> Seq<char> {
    STUBS_HEAD@ + spec_stub_bodies(spec_signatures(spec_lines(source)))
}

/// The core of a declaration (see `stub_core`).
fn stub_core_of(v: &Vec<char>) -> (core: Vec<char>)
    ensures
        core@ == stub_core(v@),
{
    let mut end = v.len();
    if ends_with_char(v, ';') {
        end = end - 1;
    }
    let a = copy_range(v, 0, end);
    proof {
        if end < v.len() {
            assert(a@ =~= v@.drop_last());
        } else {
            assert(a@ =~= v@);
        }
    }
    let pfx: [char; 7] = ['p', 'u', 'b', ' ', 'f', 'n', ' '];
    assert(pfx@ =~= pub_fn_prefix());
    if has_prefix(&a, &pfx) {
        let core = copy_range(&a, 7, a.len());
        assert(core@ =~= a@.skip(7));
        core
    } else {
        a
    }
}

fn has_c_prefix(name: &Vec<char>) -> (r: bool)
    ensures
        r == c_prefix().is_prefix_of(name@),
{
    let pfx: [char; 2] = ['c', '_'];
    assert(pfx@ =~= c_prefix());
    has_prefix(name, &pfx)
}

/// Whether the stub of one declaration can be made (see `stub_input_ok`).
fn stub_input_ok_chars(v: &Vec<char>) -> (ok: bool)
    ensures
        ok == stub_input_ok(v@),
{
    let core = stub_core_of(v);
    match (find_char(&core, '('), rfind_char(&core, ')')) {
        (Some(o), Some(c)) => {
            proof {
                lemma_find_bounds(core@, '(');
            }
            let name = copy_range(&core, 0, o);
            assert(name@ =~= core@.take(o as int));
            !has_c_prefix(&name) || o < c
        },
        _ => true,
    }
}

/// The return text of a stub (see `stub_ret_text`).
fn stub_ret_text_of(ret: &Vec<char>) -> (s: String)
    ensures
        s@ == stub_ret_text(ret@),
{
    let mut name = String::new();
    append_range(&mut name, ret, 0, ret.len());
    assert(name@ =~= ret@);
    let n = name.as_str();
    if ret.len() == 0 {
        String::from_str(" {}\n\n")
    } else if str_equal(n, "u8") || str_equal(n, "vp_status_t") || str_equal(n, "vp_bool_t") || str_equal(
        n,
        "vp_hid_send_status_t",
    ) {
        String::from_str(" -> u8 { 0 }\n\n")
    } else if str_equal(n, "u32") || str_equal(n, "vp_timestamp_t") || str_equal(n, "vp_wake_source_t")
        || str_equal(n, "vp_usb_state_t") {
        String::from_str(" -> u32 { 0 }\n\n")
    } else {
        let mut s = String::from_str(" -> ");
        s.append(n);
        s.append(" { 0 }\n\n");
        s
    }
}

/// The stub of one declaration, given as characters.
fn stub_body_chars(v: &Vec<char>) -> (out: String)
    requires
        stub_input_ok(v@),
    ensures
        out@ == spec_stub_body(v@),
{
    let core = stub_core_of(v);
    let (o, c) = match (find_char(&core, '('), rfind_char(&core, ')')) {
        (Some(o), Some(c)) => (o, c),
        _ => {
            return String::new();
        },
    };
    proof {
        lemma_find_bounds(core@, '(');
        lemma_rfind_bounds(core@, ')');
    }
    let name = copy_range(&core, 0, o);
    assert(name@ =~= core@.take(o as int));
    if !has_c_prefix(&name) {
        return String::new();
    }
    let ret_part = trim_chars(&copy_range(&core, c + 1, core.len()));
    proof {
        assert(core@.subrange(c + 1, core@.len() as int) =~= core@.skip(c + 1));
    }
    let arrow: [char; 3] = ['-', '>', ' '];
    assert(arrow@ =~= arrow_prefix());
    let ret_type = if has_prefix(&ret_part, &arrow) {
        let rest = copy_range(&ret_part, 3, ret_part.len());
        assert(rest@ =~= ret_part@.skip(3));
        let t = trim_chars(&rest);
        trim_end_char(&t, ';')
    } else {
        Vec::new()
    };
    assert(ret_type@ =~= stub_ret_type(core@, c as int));
    let mut out = String::from_str(STUB_HEAD);
    append_range(&mut out, &name, 0, name.len());
    out.append("(");
    append_range(&mut out, &core, o + 1, c);
    out.append(")");
    let tail = stub_ret_text_of(&ret_type);
    out.append(tail.as_str());
    assert(name@.subrange(0, name@.len() as int) =~= name@);
    out
}

/// The stub of one declaration of the bindings.
pub fn stub_body_from(sig: &str) -> (out: String)
    requires
        stub_input_ok(sig@),
    ensures
        out@ == spec_stub_body(sig@),
{
    let v = chars_of(sig);
    stub_body_chars(&v)
}

/// Appends `src` to `dst`.
fn extend_chars(dst: &mut Vec<char>, src: &Vec<char>)
    ensures
        final(dst)@ == old(dst)@ + src@,
{
    let ghost start = dst@;
    let mut i: usize = 0;
    while i < src.len()
        invariant
            i <= src.len(),
            dst@ == start + src@.take(i as int),
        decreases src.len() - i,
    {
        dst.push(src[i]);
        proof {
            assert(src@.take(i + 1) =~= src@.take(i as int).push(src@[i as int]));
        }
        i += 1;
    }
    assert(src@.take(src.len() as int) =~= src@);
}

/// Joins the lines from `start` on to the unfinished declaration `sig` (see
/// `spec_gather`); gives the joined declaration, the index after the last
/// line taken, and whether a `;` was found.
fn gather(lines: &Vec<Vec<char>>, start: usize, sig: Vec<char>) -> (r: (Vec<char>, usize, bool))
    requires
        start <= lines.len(),
    ensures
        start <= r.1 <= lines.len(),
        (r.0@, r.1 - start, r.2) == spec_gather(sig@, lines_view(lines@).skip(start as int)),
{
    let ghost all = lines_view(lines@);
    let ghost goal = spec_gather(sig@, all.skip(start as int));
    let mut sig = sig;
    let mut i = start;
    let mut found = false;
    while i < lines.len() && !found
        invariant
            start <= i <= lines.len(),
            all == lines_view(lines@),
            !found ==> ({
                let g = spec_gather(sig@, all.skip(i as int));
                goal == (g.0, g.1 + (i - start), g.2)
            }),
            found ==> goal == (sig@, i - start, true),
        decreases lines.len() - i,
    {
        let t = trim_chars(&lines[i]);
        proof {
            assert(all.skip(i as int)[0] == lines@[i as int]@);
            assert(all.skip(i as int).drop_first() =~= all.skip(i + 1));
        }
        sig.push(' ');
        extend_chars(&mut sig, &t);
        if ends_with_char(&t, ';') {
            found = true;
        }
        i += 1;
    }
    proof {
        if !found {
            assert(all.skip(i as int) =~= Seq::<Seq<char>>::empty());
        }
    }
    (sig, i, found)
}

/// The function declarations of the bindings, each on one line (see
/// `spec_signatures`).
fn collect_signatures(lines: &Vec<Vec<char>>) -> (sigs: Vec<Vec<char>>)
    ensures
        lines_view(sigs@) == spec_signatures(lines_view(lines@)),
{
    let ghost all = lines_view(lines@);
    let mut sigs: Vec<Vec<char>> = Vec::new();
    let mut i: usize = 0;
    assert(all.skip(0) =~= all);
    assert(lines_view(sigs@) + spec_signatures(all) =~= spec_signatures(all));
    let word: [char; 6] = ['p', 'u', 'b', ' ', 'f', 'n'];
    assert(word@ =~= pub_fn_word());
    while i < lines.len()
        invariant
            i <= lines.len(),
            all == lines_view(lines@),
            word@ == pub_fn_word(),
            spec_signatures(all) == lines_view(sigs@) + spec_signatures(all.skip(i as int)),
        decreases lines.len() - i,
    {
        let trimmed = trim_chars(&lines[i]);
        let ghost i0 = i;
        let ghost before = sigs@;
        proof {
            assert(all.skip(i0 as int)[0] == lines@[i0 as int]@);
            assert(all.skip(i0 as int).drop_first() =~= all.skip(i0 + 1));
        }
        i += 1;
        if !has_prefix(&trimmed, &word) {
        } else if ends_with_char(&trimmed, ';') {
            sigs.push(trimmed);
            proof {
                assert(lines_view(sigs@) =~= lines_view(before).push(trimmed@));
                assert(lines_view(sigs@) + spec_signatures(all.skip(i as int)) =~= lines_view(
                    before,
                ) + (seq![trimmed@] + spec_signatures(all.skip(i as int))));
            }
        } else {
            let (sig, next, found) = gather(lines, i, trimmed);
            proof {
                lemma_gather_bounds(trimmed@, all.skip(i0 + 1));
            }
            if found {
                sigs.push(sig);
                proof {
                    assert(all.skip(i0 + 1).skip(next - i) =~= all.skip(next as int));
                    assert(lines_view(sigs@) =~= lines_view(before).push(sig@));
                    assert(lines_view(sigs@) + spec_signatures(all.skip(next as int)) =~= lines_view(
                        before,
                    ) + (seq![sig@] + spec_signatures(all.skip(next as int))));
                }
            } else {
                proof {
                    assert(all.skip(next as int) =~= Seq::<Seq<char>>::empty());
                    assert(lines_view(sigs@) =~= lines_view(sigs@) + Seq::<Seq<char>>::empty());
                }
            }
            i = next;
        }
    }
    assert(all.skip(i as int) =~= Seq::<Seq<char>>::empty());
    assert(lines_view(sigs@) =~= lines_view(sigs@) + Seq::<Seq<char>>::empty());
    sigs
}

/// Whether the stubs of a bindings file can be made: every `c_` function
/// declaration has its `)` after its `(`.
pub fn stubs_source_ok(source: &str) -> (ok: bool)
    ensures
        ok == stubs_ok(source@),
{
    let chars = chars_of(source);
    let lines = split_lines(&chars);
    let sigs = collect_signatures(&lines);
    let ghost view = lines_view(sigs@);
    let mut k: usize = 0;
    while k < sigs.len()
        invariant
            k <= sigs.len(),
            view == lines_view(sigs@),
            view == spec_signatures(spec_lines(source@)),
            forall|j: int| 0 <= j < k ==> stub_input_ok(#[trigger] view[j]),
        decreases sigs.len() - k,
    {
        if !stub_input_ok_chars(&sigs[k]) {
            assert(!stub_input_ok(view[k as int]));
            return false;
        }
        k += 1;
    }
    true
}

/// Generates the test stubs for a bindings file: one exported function
/// returning zero for each `c_` function it declares.
pub fn build_stubs_from(source: &str) -> (stubs: String)
    requires
        stubs_ok(source@),
    ensures
        stubs@ == spec_build_stubs(source@),
{
    let chars = chars_of(source);
    let lines = split_lines(&chars);
    let sigs = collect_signatures(&lines);
    let ghost view = lines_view(sigs@);
    let mut stubs = String::new();
    stubs.append(STUBS_HEAD);
    let mut k: usize = 0;
    while k < sigs.len()
        invariant
            k <= sigs.len(),
            view == lines_view(sigs@),
            view == spec_signatures(spec_lines(source@)),
            stubs_ok(source@),
            stubs@ == STUBS_HEAD@ + spec_stub_bodies(view.take(k as int)),
        decreases sigs.len() - k,
    {
        assert(stub_input_ok(view[k as int]));
        let body = stub_body_chars(&sigs[k]);
        proof {
            assert(view.take(k + 1).drop_last() =~= view.take(k as int));
        }
        stubs.append(body.as_str());
        k += 1;
    }
    assert(view.take(sigs.len() as int) =~= view);
    stubs
}

/// The test stubs for a bindings file, or `None` when some `c_` declaration
/// has no `)` after its `(`.
pub fn try_build_stubs_from(source: &str) -> (stubs: Option<String>)
    ensures
        stubs is Some <==> stubs_ok(source@),
        stubs matches Some(s) ==> s@ == spec_build_stubs(source@),
{
    if stubs_source_ok(source) {
        Some(build_stubs_from(source))
    } else {
        None
    }
}

} // verus!
