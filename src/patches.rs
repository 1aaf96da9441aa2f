use vstd::prelude::*;
use vstd::utf8::{valid_utf8, decode_utf8};

verus! {

broadcast use vstd::std_specs::vec::vec_clone_deep_view_proof;

/// The byte that ends a line.
pub const NEWLINE: u8 = 0x0a;

/// A patch name in the patch tool's output is not valid UTF-8.
#[derive(Debug, Clone, Copy, PartialEq, Eq, Structural)]
pub struct DecodeError;

/// The line in progress, as a list of lines: empty lines are dropped.
pub open spec fn flush(cur: Seq<u8>) -> Seq<Seq<u8>> {
    if cur.len() > 0 {
        seq![cur]
    } else {
        seq![]
    }
}

/// The non-empty lines of `cur + b`, in order, where `cur` is the line in progress.
pub open spec fn lines_after(b: Seq<u8>, cur: Seq<u8>) -> Seq<Seq<u8>>
    decreases b.len(),
{
    if b.len() == 0 {
        flush(cur)
    } else if b[0] == NEWLINE {
        flush(cur) + lines_after(b.drop_first(), seq![])
    } else {
        lines_after(b.drop_first(), cur.push(b[0]))
    }
}

/// The non-empty newline-separated lines of `b`, in order.
pub open spec fn report_lines(b: Seq<u8>) -> Seq<Seq<u8>> {
    lines_after(b, seq![])
}

/// Each line read as UTF-8 text.
pub open spec fn decoded(ls: Seq<Seq<u8>>) -> Seq<Seq<char>> {
    ls.map_values(|l: Seq<u8>| decode_utf8(l))
}

/// The patch names that the patch tool's output `b` reports, one per
/// non-empty line in order, or `None` when a line is not valid UTF-8.
pub open spec fn pending_patches(b: Seq<u8>) -> Option<Seq<Seq<char>>> {
    let ls = report_lines(b);
    if forall|k: int| 0 <= k < ls.len() ==> valid_utf8(#[trigger] ls[k]) {
        Some(decoded(ls))
    } else {
        None
    }
}

/// Relies on String::from_utf8: it accepts exactly the byte strings that are
/// valid UTF-8, and then holds the characters they encode.
#[verifier::external_body]
fn decode_text(b: Vec<u8>) -> (r: Option<String>)
    ensures
        r is Some <==> valid_utf8(b@),
        r matches Some(s) ==> s@ == decode_utf8(b@),
{
    String::from_utf8(b).ok()
}

/// Splits `b` at newlines, dropping the empty lines.
pub fn split_lines(b: &[u8]) -> (r: Vec<Vec<u8>>)
    ensures
        r.deep_view() == report_lines(b@),
{
    let mut out: Vec<Vec<u8>> = Vec::new();
    let mut cur: Vec<u8> = Vec::new();
    let mut i: usize = 0;
    assert(b@.skip(0) =~= b@);
    assert(out.deep_view() + lines_after(b@.skip(0), cur@) =~= report_lines(b@));
    while i < b.len()
        invariant
            i <= b@.len(),
            out.deep_view() + lines_after(b@.skip(i as int), cur@) == report_lines(b@),
        decreases b@.len() - i,
    {
        let ghost rest = b@.skip(i as int);
        assert(rest.drop_first() =~= b@.skip(i + 1));
        let ghost before = out.deep_view();
        if b[i] == NEWLINE {
            let ghost c = cur@;
            assert(cur.deep_view() =~= c);
            if cur.len() > 0 {
                out.push(cur);
                assert(out.deep_view() =~= before + flush(c));
            } else {
                assert(flush(c) =~= Seq::<Seq<u8>>::empty());
                assert(out.deep_view() =~= before + flush(c));
            }
            assert(before + (flush(c) + lines_after(b@.skip(i + 1), seq![]))
                =~= out.deep_view() + lines_after(b@.skip(i + 1), seq![]));
            cur = Vec::new();
            assert(cur@ =~= Seq::<u8>::empty());
        } else {
            cur.push(b[i]);
        }
        i += 1;
    }
    let ghost before = out.deep_view();
    let ghost c = cur@;
    assert(cur.deep_view() =~= c);
    assert(b@.skip(i as int) =~= Seq::<u8>::empty());
    assert(lines_after(b@.skip(i as int), c) == flush(c));
    if cur.len() > 0 {
        out.push(cur);
        assert(out.deep_view() =~= before + flush(c));
    } else {
        assert(out.deep_view() =~= before + flush(c));
    }
    assert(out.deep_view() =~= report_lines(b@));
    out
}

/// The pending patches that the patch tool's output `stdout` lists.
pub fn list_pending(stdout: &[u8]) -> (r: Result<Vec<String>, DecodeError>)
    ensures
        match pending_patches(stdout@) {
            Some(p) => r is Ok && r->Ok_0.deep_view() == p,
            None => r == Err::<Vec<String>, DecodeError>(DecodeError),
        },
{
    let lines = split_lines(stdout);
    let ghost ls = report_lines(stdout@);
    let mut names: Vec<String> = Vec::new();
    let mut k: usize = 0;
    while k < lines.len()
        invariant
            k <= lines@.len(),
            lines.deep_view() == ls,
            ls == report_lines(stdout@),
            forall|j: int| 0 <= j < k ==> valid_utf8(#[trigger] ls[j]),
            names.deep_view() == decoded(ls.take(k as int)),
        decreases lines@.len() - k,
    {
        assert(lines@[k as int].deep_view() =~= lines@[k as int]@);
        let line = lines[k].clone();
        assert(line.deep_view() =~= line@);
        assert(line@ == ls[k as int]);
        let ghost before = names.deep_view();
        match decode_text(line) {
            Some(s) => {
                let ghost sv = s@;
                names.push(s);
                assert(names.deep_view() =~= before.push(sv));
                assert(decoded(ls.take(k + 1)) =~= decoded(ls.take(k as int)).push(sv));
            },
            None => {
                assert(!valid_utf8(report_lines(stdout@)[k as int]));
                return Err(DecodeError);
            },
        }
        k += 1;
        assert(names.deep_view() =~= decoded(ls.take(k as int)));
    }
    assert(ls.take(k as int) =~= ls);
    Ok(names)
}

} // verus!
