//! The frame splitter: one raw read from the transport may carry several
//! JSON documents stuck together. A closing brace immediately followed by an
//! opening brace, or standing at the very end of the buffer, is taken as a
//! message boundary. This is a heuristic, not a JSON tokenizer: it does not
//! track string-literal contents, and a brace pair inside a quoted string
//! splits too. Input without any boundary yields no candidates at all.

use vstd::prelude::*;
use vstd::slice::slice_to_vec;

verus! {

/// The byte value of `}`.
pub open spec fn close_brace() -> u8 {
    125
}

/// The byte value of `{`.
pub open spec fn open_brace() -> u8 {
    123
}

/// Position `i` ends a candidate: a `}` followed by a `{`, or a `}` that is
/// the last byte of the buffer.
pub open spec fn is_boundary(b: Seq<u8>, i: int) -> bool {
    &&& 0 <= i < b.len()
    &&& b[i] == close_brace()
    &&& (i + 1 == b.len() || b[i + 1] == open_brace())
}

/// The candidates that scanning onward from position `i` still yields, the
/// last boundary lying just before position `last`.
pub open spec fn split_from(b: Seq<u8>, last: int, i: int) -> Seq<Seq<u8>>
    recommends
        0 <= last <= i <= b.len(),
    decreases b.len() - i,
{
    if i < 0 || i >= b.len() {
        Seq::empty()
    } else if is_boundary(b, i) {
        seq![b.subrange(last, i + 1)] + split_from(b, i + 1, i + 1)
    } else {
        split_from(b, last, i + 1)
    }
}

/// All candidate messages of a raw frame, in order of appearance.
pub open spec fn split_spec(b: Seq<u8>) -> Seq<Seq<u8>> {
    split_from(b, 0, 0)
}

/// Split one raw frame into its candidate messages.
pub fn split(buffer: &[u8]) -> (r: Vec<Vec<u8>>)
    ensures
        r.deep_view() == split_spec(buffer@),
{
    let n = buffer.len();
    let mut out: Vec<Vec<u8>> = Vec::new();
    let mut last: usize = 0;
    let mut i: usize = 0;
    while i < n
        invariant
            n == buffer@.len(),
            0 <= last <= i <= n,
            split_spec(buffer@) =~= out.deep_view() + split_from(
                buffer@,
                last as int,
                i as int,
            ),
        decreases n - i,
    {
        let is_close = buffer[i] == 125;
        let next_opens = if i + 1 < n {
            buffer[i + 1] == 123
        } else {
            true
        };
        if is_close && next_opens {
            proof {
                assert(is_boundary(buffer@, i as int));
            }
            let part: &[u8] = &buffer[last..i + 1];
            let candidate: Vec<u8> = slice_to_vec(part);
            let ghost prev = out.deep_view();
            out.push(candidate);
            proof {
                assert(out.deep_view() =~~= prev.push(
                    buffer@.subrange(last as int, i + 1),
                ));
                assert(out.deep_view() + split_from(buffer@, i + 1, i + 1) =~= prev
                    + split_from(buffer@, last as int, i as int));
            }
            last = i + 1;
        } else {
            proof {
                assert(!is_boundary(buffer@, i as int));
            }
        }
        i = i + 1;
    }
    proof {
        assert(out.deep_view() + split_from(buffer@, last as int, n as int) =~= out.deep_view());
    }
    out
}

/// A byte string shaped like one whole brace-framed document: it opens with
/// `{`, closes with `}`, and no closing brace inside it directly abuts an
/// opening brace.
pub open spec fn well_framed(d: Seq<u8>) -> bool {
    &&& d.len() > 0
    &&& d[0] == open_brace()
    &&& d[d.len() - 1] == close_brace()
    &&& forall|k: int|
        0 <= k < d.len() - 1 ==> !(d[k] == close_brace() && #[trigger] d[k + 1] == open_brace())
}

/// Scanning a stretch with no boundary up to a boundary at `j` emits exactly
/// the bytes from `last` through `j`, and goes on after `j`.
proof fn lemma_scan_segment(b: Seq<u8>, last: int, i: int, j: int)
    requires
        0 <= last <= i <= j < b.len(),
        forall|k: int| i <= k < j ==> !is_boundary(b, k),
        is_boundary(b, j),
    ensures
        split_from(b, last, i) == seq![b.subrange(last, j + 1)] + split_from(b, j + 1, j + 1),
    decreases j - i,
{
    if i < j {
        lemma_scan_segment(b, last, i + 1, j);
    }
}

/// Splitting one well-framed document alone yields exactly that document.
pub proof fn lemma_split_single(d: Seq<u8>)
    requires
        well_framed(d),
    ensures
        split_spec(d) == seq![d],
{
    let n = d.len() as int;
    assert forall|k: int| 0 <= k < n - 1 implies !is_boundary(d, k) by {
        if d[k] == close_brace() {
            assert(!(d[k] == close_brace() && d[k + 1] == open_brace()));
        }
    }
    assert(is_boundary(d, n - 1));
    lemma_scan_segment(d, 0, 0, n - 1);
    assert(d.subrange(0, n) =~= d);
    assert(split_spec(d) =~= seq![d]);
}

/// Splitting the concatenation of two well-framed documents yields exactly
/// the two documents, in order.
pub proof fn lemma_split_concat(a: Seq<u8>, b: Seq<u8>)
    requires
        well_framed(a),
        well_framed(b),
    ensures
        split_spec(a + b) == seq![a, b],
{
    let c = a + b;
    let an = a.len() as int;
    let n = c.len() as int;
    assert forall|k: int| 0 <= k < an - 1 implies !is_boundary(c, k) by {
        assert(c[k] == a[k] && c[k + 1] == a[k + 1]);
        assert(!(a[k] == close_brace() && a[k + 1] == open_brace()));
    }
    assert(is_boundary(c, an - 1)) by {
        assert(c[an - 1] == a[an - 1] && c[an] == b[0]);
    }
    assert forall|k: int| an <= k < n - 1 implies !is_boundary(c, k) by {
        assert(c[k] == b[k - an] && c[k + 1] == b[k + 1 - an]);
        assert(!(b[k - an] == close_brace() && b[(k - an) + 1] == open_brace()));
    }
    assert(is_boundary(c, n - 1)) by {
        assert(c[n - 1] == b[b.len() - 1]);
    }
    lemma_scan_segment(c, 0, 0, an - 1);
    lemma_scan_segment(c, an, an, n - 1);
    assert(c.subrange(0, an) =~= a);
    assert(c.subrange(an, n) =~= b);
    assert(split_spec(c) =~= seq![a, b]);
}

/// Splitting an empty buffer yields no candidates.
pub proof fn lemma_split_empty()
    ensures
        split_spec(Seq::<u8>::empty()) == Seq::<Seq<u8>>::empty(),
{
}

/// The concatenation of a sequence of byte strings, with no separator.
pub open spec fn concat_all(ds: Seq<Seq<u8>>) -> Seq<u8>
    decreases ds.len(),
{
    if ds.len() == 0 {
        Seq::empty()
    } else {
        ds[0] + concat_all(ds.drop_first())
    }
}

/// Scanning is insensitive to what lies wholly before the window.
proof fn lemma_split_shift(x: Seq<u8>, y: Seq<u8>, last: int, i: int)
    requires
        0 <= last <= i <= y.len(),
    ensures
        split_from(x + y, x.len() + last, x.len() + i) == split_from(y, last, i),
    decreases y.len() - i,
{
    let c = x + y;
    let xl = x.len() as int;
    if i >= y.len() {
        assert(split_from(c, xl + last, xl + i) =~= split_from(y, last, i));
    } else {
        assert(c[xl + i] == y[i]);
        assert(xl + i + 1 == c.len() <==> i + 1 == y.len());
        if i + 1 < y.len() {
            assert(c[xl + i + 1] == y[i + 1]);
        }
        assert(is_boundary(c, xl + i) == is_boundary(y, i));
        if is_boundary(y, i) {
            lemma_split_shift(x, y, i + 1, i + 1);
            assert(c.subrange(xl + last, xl + i + 1) =~= y.subrange(last, i + 1));
            assert(split_from(c, xl + last, xl + i) =~= split_from(y, last, i));
        } else {
            lemma_split_shift(x, y, last, i + 1);
        }
    }
}

/// Splitting the separator-free concatenation of any number of well-framed
/// documents recovers exactly those documents, byte for byte, in order.
pub proof fn lemma_split_concat_all(ds: Seq<Seq<u8>>)
    requires
        forall|k: int| 0 <= k < ds.len() ==> well_framed(#[trigger] ds[k]),
    ensures
        split_spec(concat_all(ds)) == ds,
    decreases ds.len(),
{
    if ds.len() == 0 {
    } else if ds.len() == 1 {
        assert(concat_all(ds.drop_first()) =~= Seq::<u8>::empty());
        assert(concat_all(ds) =~= ds[0]);
        lemma_split_single(ds[0]);
        assert(split_spec(concat_all(ds)) =~= ds);
    } else {
        let d = ds[0];
        let rest = ds.drop_first();
        let c = concat_all(ds);
        let tail = concat_all(rest);
        let dn = d.len() as int;
        assert(well_framed(rest[0]));
        assert(tail[0] == rest[0][0]) by {
            assert(tail == rest[0] + concat_all(rest.drop_first()));
        }
        assert(c == d + tail);
        assert forall|k: int| 0 <= k < dn - 1 implies !is_boundary(c, k) by {
            assert(c[k] == d[k] && c[k + 1] == d[k + 1]);
            assert(!(d[k] == close_brace() && d[k + 1] == open_brace()));
        }
        assert(is_boundary(c, dn - 1)) by {
            assert(c[dn - 1] == d[dn - 1] && c[dn] == tail[0]);
        }
        lemma_scan_segment(c, 0, 0, dn - 1);
        lemma_split_shift(d, tail, 0, 0);
        lemma_split_concat_all(rest);
        assert(c.subrange(0, dn) =~= d);
        assert(split_spec(c) =~= ds);
    }
}

} // verus!
