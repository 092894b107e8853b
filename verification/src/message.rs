//! Inbound message interpretation.
//!
//! The inbound stream is newline-delimited: a message is one line, the
//! bytes up to (and not including) a line feed. A read may deliver several
//! complete lines at once and may end in the middle of a line; the session
//! keeps that unfinished tail and completes it with the next read, so
//! directives are never garbled by how reads happen to be sized.
//!
//! One message is taken as plain bytes and trimmed of surrounding ASCII
//! whitespace. A trimmed message that starts with the directive prefix
//! `Machine: ` carries a machine label (the rest of the message);
//! everything else — keep-alive echoes, arbitrary chatter, bytes that
//! decode to no valid text — is ignored. Working on raw bytes hardens the
//! agent against invalid text encodings: an undecodable message simply
//! matches no registry label and is dropped.

use vstd::prelude::*;
use crate::bytes::bytes_eq;

verus! {

/// ASCII whitespace: space, tab, line feed, vertical tab, form feed,
/// carriage return.
pub open spec fn is_ws(b: u8) -> bool {
    b == 32 || (9 <= b && b <= 13)
}

/// Executable whitespace test.
pub fn byte_is_ws(b: u8) -> (r: bool)
    ensures
        r == is_ws(b),
{
    b == 32 || (9 <= b && b <= 13)
}

/// `s` without its leading whitespace.
pub open spec fn trim_front(s: Seq<u8>) -> Seq<u8>
    decreases s.len(),
{
    if s.len() > 0 && is_ws(s[0]) {
        trim_front(s.drop_first())
    } else {
        s
    }
}

/// `s` without its trailing whitespace.
pub open spec fn trim_back(s: Seq<u8>) -> Seq<u8>
    decreases s.len(),
{
    if s.len() > 0 && is_ws(s.last()) {
        trim_back(s.drop_last())
    } else {
        s
    }
}

/// `s` without surrounding whitespace.
pub open spec fn trim_spec(s: Seq<u8>) -> Seq<u8> {
    trim_back(trim_front(s))
}

/// Trimming the front keeps exactly the suffix that begins at the first
/// non-whitespace byte.
proof fn lemma_trim_front_subrange(s: Seq<u8>, i: int)
    requires
        0 <= i <= s.len(),
        forall|k: int| 0 <= k < i ==> is_ws(s[k]),
        i == s.len() || !is_ws(s[i]),
    ensures
        trim_front(s) == s.subrange(i, s.len() as int),
    decreases i,
{
    if i == 0 {
        assert(s.subrange(0, s.len() as int) =~= s);
    } else {
        assert(is_ws(s[0]));
        lemma_trim_front_subrange(s.drop_first(), i - 1);
        assert(s.drop_first().subrange(i - 1, s.drop_first().len() as int) =~= s.subrange(
            i,
            s.len() as int,
        ));
    }
}

/// Trimming the back keeps exactly the prefix that ends at the last
/// non-whitespace byte.
proof fn lemma_trim_back_subrange(s: Seq<u8>, j: int)
    requires
        0 <= j <= s.len(),
        forall|k: int| j <= k < s.len() ==> is_ws(s[k]),
        j == 0 || !is_ws(s[j - 1]),
    ensures
        trim_back(s) == s.subrange(0, j),
    decreases s.len() - j,
{
    if j == s.len() {
        if s.len() > 0 && is_ws(s.last()) {
            assert(false);
        }
        assert(s.subrange(0, j) =~= s);
    } else {
        assert(is_ws(s.last()));
        lemma_trim_back_subrange(s.drop_last(), j);
        assert(s.drop_last().subrange(0, j) =~= s.subrange(0, j));
    }
}

/// The directive prefix, the bytes of `Machine: `.
pub open spec fn directive_prefix() -> Seq<u8> {
    seq![77u8, 97u8, 99u8, 104u8, 105u8, 110u8, 101u8, 58u8, 32u8]
}

/// The executable directive prefix.
pub fn directive_prefix_bytes() -> (r: Vec<u8>)
    ensures
        r@ == directive_prefix(),
{
    let mut out: Vec<u8> = Vec::new();
    out.push(77u8);
    out.push(97u8);
    out.push(99u8);
    out.push(104u8);
    out.push(105u8);
    out.push(110u8);
    out.push(101u8);
    out.push(58u8);
    out.push(32u8);
    proof {
        assert(out@ =~= directive_prefix());
    }
    out
}

/// The label carried by a message: after trimming surrounding whitespace,
/// a message of the form `Machine: <label>` carries `<label>`; any other
/// message carries none.
pub open spec fn directive_of(msg: Seq<u8>) -> Option<Seq<u8>> {
    let t = trim_spec(msg);
    if t.len() >= directive_prefix().len() && t.subrange(0, directive_prefix().len() as int)
        == directive_prefix() {
        Some(t.subrange(directive_prefix().len() as int, t.len() as int))
    } else {
        None
    }
}

/// Parses one inbound message: returns the machine label when the trimmed
/// message is a `Machine: <label>` directive, and `None` otherwise.
pub fn parse_directive(msg: &[u8]) -> (r: Option<Vec<u8>>)
    ensures
        (r matches Some(l) ==> directive_of(msg@) == Some(l@)),
        (r is None <==> directive_of(msg@) is None),
{
    let mut start: usize = 0;
    while start < msg.len() && byte_is_ws(*vstd::slice::slice_index_get(msg, start))
        invariant
            0 <= start <= msg@.len(),
            forall|k: int| 0 <= k < start ==> is_ws(msg@[k]),
        decreases msg@.len() - start,
    {
        start = start + 1;
    }
    let mut end: usize = msg.len();
    while end > start && byte_is_ws(*vstd::slice::slice_index_get(msg, end - 1))
        invariant
            start <= end <= msg@.len(),
            forall|k: int| 0 <= k < start ==> is_ws(msg@[k]),
            forall|k: int| end <= k < msg@.len() ==> is_ws(msg@[k]),
        decreases end,
    {
        end = end - 1;
    }
    proof {
        lemma_trim_front_subrange(msg@, start as int);
        let t1 = msg@.subrange(start as int, msg@.len() as int);
        assert forall|k: int| end - start <= k < t1.len() implies is_ws(t1[k]) by {
            assert(t1[k] == msg@[k + start]);
        }
        if end > start {
            assert(t1[end - start - 1] == msg@[end - 1]);
        }
        lemma_trim_back_subrange(t1, end - start);
        assert(t1.subrange(0, end - start) =~= msg@.subrange(start as int, end as int));
        assert(trim_spec(msg@) == msg@.subrange(start as int, end as int));
    }
    let prefix = directive_prefix_bytes();
    if end - start < prefix.len() {
        proof {
            assert(trim_spec(msg@).len() < directive_prefix().len());
        }
        return None;
    }
    let head = vstd::slice::slice_subrange(msg, start, start + prefix.len());
    if bytes_eq(head, prefix.as_slice()) {
        proof {
            let t = trim_spec(msg@);
            assert(t.subrange(0, directive_prefix().len() as int) =~= head@);
        }
        let label = vstd::slice::slice_to_vec(
            vstd::slice::slice_subrange(msg, start + prefix.len(), end),
        );
        proof {
            let t = trim_spec(msg@);
            assert(t.subrange(directive_prefix().len() as int, t.len() as int) =~= label@);
        }
        Some(label)
    } else {
        proof {
            let t = trim_spec(msg@);
            assert(t.subrange(0, directive_prefix().len() as int) =~= head@);
        }
        None
    }
}

/// The line feed byte, the message delimiter.
pub open spec fn newline() -> u8 {
    10u8
}

/// Splits `s` at every line feed. The result always holds at least one
/// segment; the last segment is the unfinished tail after the final line
/// feed (empty when `s` ends in one), and every earlier segment is one
/// complete line, without its delimiter.
pub open spec fn split_lines(s: Seq<u8>) -> Seq<Seq<u8>>
    decreases s.len(),
{
    if s.len() == 0 {
        seq![Seq::<u8>::empty()]
    } else if s[0] == newline() {
        seq![Seq::<u8>::empty()] + split_lines(s.drop_first())
    } else {
        let rest = split_lines(s.drop_first());
        seq![seq![s[0]] + rest[0]] + rest.drop_first()
    }
}

/// A split always yields at least the unfinished tail.
pub proof fn lemma_split_lines_nonempty(s: Seq<u8>)
    ensures
        split_lines(s).len() >= 1,
    decreases s.len(),
{
    if s.len() > 0 {
        lemma_split_lines_nonempty(s.drop_first());
    }
}

/// Splitting at the first line feed: with no line feed among the first `i`
/// bytes, the split of `s` is the segment before position `i` followed by
/// the split of what comes after it — and `s` is one single unfinished
/// segment when it holds no line feed at all.
proof fn lemma_split_at_boundary(s: Seq<u8>, i: int)
    requires
        0 <= i <= s.len(),
        forall|k: int| 0 <= k < i ==> s[k] != newline(),
        i == s.len() || s[i] == newline(),
    ensures
        i < s.len() ==> split_lines(s) == seq![s.subrange(0, i)] + split_lines(
            s.subrange(i + 1, s.len() as int),
        ),
        i == s.len() ==> split_lines(s) == seq![s],
    decreases i,
{
    if i == 0 {
        if s.len() == 0 {
            assert(s =~= Seq::<u8>::empty());
        } else {
            assert(s.subrange(0, 0) =~= Seq::<u8>::empty());
            assert(s.drop_first() =~= s.subrange(1, s.len() as int));
        }
    } else {
        let d = s.drop_first();
        lemma_split_at_boundary(d, i - 1);
        let rest = split_lines(d);
        if i < s.len() {
            assert(d.subrange(0, i - 1) =~= s.subrange(1, i));
            assert(d.subrange(i, d.len() as int) =~= s.subrange(i + 1, s.len() as int));
            assert(rest == seq![s.subrange(1, i)] + split_lines(
                s.subrange(i + 1, s.len() as int),
            ));
            assert(rest[0] == s.subrange(1, i));
            assert(seq![s[0]] + s.subrange(1, i) =~= s.subrange(0, i));
            lemma_split_lines_nonempty(s.subrange(i + 1, s.len() as int));
            assert(rest.drop_first() =~= split_lines(s.subrange(i + 1, s.len() as int)));
            assert(split_lines(s) =~= seq![s.subrange(0, i)] + split_lines(
                s.subrange(i + 1, s.len() as int),
            ));
        } else {
            assert(rest == seq![d]);
            assert(rest[0] == d);
            assert(seq![s[0]] + d =~= s);
            assert(rest.drop_first() =~= Seq::<Seq<u8>>::empty());
            assert(split_lines(s) =~= seq![s]);
        }
    }
}

/// The labels of the directives among `lines`, in order.
pub open spec fn labels_in(lines: Seq<Seq<u8>>) -> Seq<Seq<u8>>
    decreases lines.len(),
{
    if lines.len() == 0 {
        Seq::empty()
    } else {
        let rest = labels_in(lines.drop_first());
        match directive_of(lines[0]) {
            Some(l) => seq![l] + rest,
            None => rest,
        }
    }
}

/// The complete lines a read delivered: every segment but the unfinished
/// tail.
pub open spec fn complete_lines(s: Seq<u8>) -> Seq<Seq<u8>> {
    split_lines(s).drop_last()
}

/// The unfinished tail of a read, kept until the next read completes it.
pub open spec fn line_remainder(s: Seq<u8>) -> Seq<u8> {
    split_lines(s).last()
}

/// The labels of the directives among the complete lines of `s`, in order.
pub open spec fn directive_labels(s: Seq<u8>) -> Seq<Seq<u8>> {
    labels_in(complete_lines(s))
}

/// The model of an executable label queue.
pub open spec fn labels_model(q: Seq<Vec<u8>>) -> Seq<Seq<u8>> {
    q.map_values(|v: Vec<u8>| v@)
}

/// Splits buffered inbound bytes into messages: returns the labels of the
/// directives among the complete lines, in order, and the unfinished tail
/// to carry into the next read.
pub fn extract_messages(data: &[u8]) -> (r: (Vec<Vec<u8>>, Vec<u8>))
    ensures
        labels_model(r.0@) == directive_labels(data@),
        r.1@ == line_remainder(data@),
{
    let mut labels: Vec<Vec<u8>> = Vec::new();
    let mut pos: usize = 0;
    proof {
        assert(data@.subrange(0, data@.len() as int) =~= data@);
        assert(labels_model(labels@) + directive_labels(data@) =~= directive_labels(data@));
    }
    loop
        invariant
            0 <= pos <= data@.len(),
            directive_labels(data@) == labels_model(labels@) + labels_in(
                complete_lines(data@.subrange(pos as int, data@.len() as int)),
            ),
            line_remainder(data@) == line_remainder(
                data@.subrange(pos as int, data@.len() as int),
            ),
        decreases data@.len() - pos,
    {
        let ghost sub = data@.subrange(pos as int, data@.len() as int);
        let mut j: usize = pos;
        while j < data.len() && *vstd::slice::slice_index_get(data, j) != 10u8
            invariant
                pos <= j <= data@.len(),
                forall|k: int| pos <= k < j ==> data@[k] != newline(),
            decreases data@.len() - j,
        {
            j = j + 1;
        }
        proof {
            assert forall|k: int| 0 <= k < j - pos implies sub[k] != newline() by {
                assert(sub[k] == data@[k + pos]);
            }
            if j < data.len() {
                assert(sub[j - pos] == data@[j as int]);
            }
            lemma_split_at_boundary(sub, j - pos);
        }
        if j < data.len() {
            let ghost subn = data@.subrange(j + 1, data@.len() as int);
            let seg = vstd::slice::slice_subrange(data, pos, j);
            proof {
                assert(sub.subrange(0, j - pos) =~= seg@);
                assert(sub.subrange(j - pos + 1, sub.len() as int) =~= subn);
                lemma_split_lines_nonempty(subn);
                assert(complete_lines(sub) =~= seq![seg@] + complete_lines(subn));
                assert(line_remainder(sub) == line_remainder(subn));
                let whole = seq![seg@] + complete_lines(subn);
                assert(whole.drop_first() =~= complete_lines(subn));
            }
            let ghost labels_before = labels@;
            match parse_directive(seg) {
                Some(l) => {
                    let ghost lv = l@;
                    labels.push(l);
                    proof {
                        assert(labels_model(labels@) =~= labels_model(labels_before) + seq![lv]);
                        assert(labels_model(labels_before) + (seq![lv] + labels_in(
                            complete_lines(subn),
                        )) =~= labels_model(labels@) + labels_in(complete_lines(subn)));
                    }
                },
                None => {},
            }
            pos = j + 1;
        } else {
            proof {
                assert(sub =~= data@.subrange(pos as int, data@.len() as int));
                assert(complete_lines(sub) =~= Seq::<Seq<u8>>::empty());
                assert(labels_model(labels@) + Seq::<Seq<u8>>::empty() =~= labels_model(
                    labels@,
                ));
            }
            let carry = vstd::slice::slice_to_vec(
                vstd::slice::slice_subrange(data, pos, data.len()),
            );
            return (labels, carry);
        }
    }
}

} // verus!
