//! The persistence layer: the `Database` capability that an embedding
//! supplies, and the verified whole-file encoding and decoding it is built
//! from. A store file is the concatenation of one serialised line per
//! record; decoding reads every non-empty line and stops at the first
//! malformed one.

use vstd::prelude::*;
use vstd::string::StringExecFns;

use crate::error::TodoError;
use crate::text::{
    lemma_split_on_add_free, lemma_split_on_free, lemma_split_on_push_sep, split_on, split_str,
    strip_newlines_spec,
};
use crate::todo::{line_of, parse_line, ToDo, ToDoView};

verus! {

/// The backing store of the record set. The library never touches a file
/// itself: an embedding implements this capability over whatever storage
/// it owns, and the executor calls through it. All that is assumed of an
/// implementation is the error taxonomy stated on each method; every
/// decision the library makes about stored data is taken by the verified
/// functions below, on the values an implementation hands back.
pub trait Database {
    /// Read the full ordered record set. A failed read is a storage
    /// failure or a record that did not decode, never anything else.
    fn read_items(&self) -> (r: Result<Vec<ToDo>, TodoError>)
        ensures
            r matches Err(e) ==> e == TodoError::StorageUnavailable || e
                == TodoError::CorruptRecord,
    ;

    /// Replace the whole record set with `todos`, in the given order.
    /// A failed write is a storage failure, never anything else.
    fn store_existing_items(&self, todos: Vec<ToDo>) -> (r: Result<(), TodoError>)
        ensures
            r matches Err(e) ==> e == TodoError::StorageUnavailable,
    ;

    /// Append the single record `todo` to the existing set. A failed
    /// append is a storage failure, never anything else.
    fn store_item(&self, todo: ToDo) -> (r: Result<(), TodoError>)
        ensures
            r matches Err(e) ==> e == TodoError::StorageUnavailable,
    ;
}

/// The encoded store content for a record sequence: each record's line,
/// concatenated in order.
pub open spec fn encode_spec(ts: Seq<ToDoView>) -> Seq<char>
    decreases ts.len(),
{
    if ts.len() == 0 {
        Seq::<char>::empty()
    } else {
        encode_spec(ts.drop_last()) + line_of(ts.last())
    }
}

/// The non-empty lines of a store content.
pub open spec fn content_lines(s: Seq<char>) -> Seq<Seq<char>> {
    split_on(s, '\n').filter(|l: Seq<char>| l.len() > 0)
}

/// Whether every one of the lines `ls` decodes to a record.
pub open spec fn all_lines_parse(ls: Seq<Seq<char>>) -> bool {
    forall|i: int| 0 <= i < ls.len() ==> parse_line(#[trigger] ls[i]) is Some
}

/// The records the lines `ls` decode to.
pub open spec fn parsed_lines(ls: Seq<Seq<char>>) -> Seq<ToDoView> {
    ls.map_values(|l: Seq<char>| parse_line(l).unwrap())
}

/// Encode the full record set as one store content.
pub fn encode_items(todos: &Vec<ToDo>) -> (r: String)
    ensures
        r@ == encode_spec(todos.deep_view()),
{
    let mut out = String::new();
    let mut i: usize = 0;
    while i < todos.len()
        invariant
            i <= todos.len(),
            out@ == encode_spec(todos.deep_view().take(i as int)),
        decreases todos.len() - i,
    {
        let line = todos[i].serialise();
        out.append(line.as_str());
        proof {
            let dv = todos.deep_view();
            assert(dv.take(i + 1).drop_last() =~= dv.take(i as int));
            assert(dv.take(i + 1).last() == dv[i as int]);
        }
        i = i + 1;
    }
    proof {
        assert(todos.deep_view().take(todos.len() as int) =~= todos.deep_view());
    }
    out
}

/// Decode a full store content: every non-empty line is decoded in order,
/// and the first malformed line fails the whole read with `CorruptRecord`.
pub fn decode_content(content: &str) -> (r: Result<Vec<ToDo>, TodoError>)
    ensures
        match r {
            Ok(items) => all_lines_parse(content_lines(content@)) && items.deep_view()
                == parsed_lines(content_lines(content@)),
            Err(e) => e == TodoError::CorruptRecord && !all_lines_parse(
                content_lines(content@),
            ),
        },
{
    let lines = split_str(content, '\n');
    let ghost all = lines.deep_view();
    let mut items: Vec<ToDo> = Vec::new();
    let mut i: usize = 0;
    proof {
        assert(all.take(0).filter(|l: Seq<char>| l.len() > 0) =~= Seq::<Seq<char>>::empty());
        assert(items.deep_view() =~= parsed_lines(Seq::<Seq<char>>::empty()));
    }
    while i < lines.len()
        invariant
            i <= lines.len(),
            all == lines.deep_view(),
            content_lines(content@) == all.filter(|l: Seq<char>| l.len() > 0),
            all_lines_parse(all.take(i as int).filter(|l: Seq<char>| l.len() > 0)),
            items.deep_view() == parsed_lines(
                all.take(i as int).filter(|l: Seq<char>| l.len() > 0),
            ),
        decreases lines.len() - i,
    {
        let ghost pre = all.take(i as int).filter(|l: Seq<char>| l.len() > 0);
        proof {
            reveal_with_fuel(Seq::filter, 2);
            assert(all.take(i + 1) =~= all.take(i as int) + seq![all[i as int]]);
            Seq::filter_distributes_over_add(
                all.take(i as int),
                seq![all[i as int]],
                |l: Seq<char>| l.len() > 0,
            );
            assert(seq![all[i as int]].drop_last() =~= Seq::<Seq<char>>::empty());
        }
        let line = &lines[i];
        if !line.as_str().is_empty() {
            match ToDo::deserialise(line.as_str()) {
                Ok(t) => {
                    let ghost items_pre = items.deep_view();
                    items.push(t);
                    proof {
                        assert(all.take(i + 1).filter(|l: Seq<char>| l.len() > 0) =~= pre.push(
                            all[i as int],
                        ));
                        assert(items.deep_view() =~= items_pre.push(t@));
                        assert(parsed_lines(pre.push(all[i as int])) =~= parsed_lines(pre).push(
                            parse_line(all[i as int]).unwrap(),
                        ));
                    }
                },
                Err(e) => {
                    proof {
                        let p = |l: Seq<char>| l.len() > 0;
                        Seq::lemma_filter_contains(all, p, i as int);
                        let full = all.filter(p);
                        let j = choose|j: int| 0 <= j < full.len() && full[j] == all[i as int];
                        assert(parse_line(full[j]) is None);
                    }
                    return Err(e);
                },
            }
        } else {
            proof {
                assert(all.take(i + 1).filter(|l: Seq<char>| l.len() > 0) =~= pre);
            }
        }
        i = i + 1;
    }
    proof {
        assert(all.take(lines.len() as int) =~= all);
    }
    Ok(items)
}

// ---------------------------------------------------------------------------
// Round-trip laws
// ---------------------------------------------------------------------------

/// Whether a field takes part in the line format without escaping: it
/// holds no separator and no newline.
pub open spec fn clean_field(s: Seq<char>) -> bool {
    !s.contains(',') && !s.contains('\n')
}

/// Whether every field of the record is clean. Records the library
/// creates have a clean `done` marker by construction.
pub open spec fn clean_item(t: ToDoView) -> bool {
    clean_field(t.title) && clean_field(t.description) && clean_field(t.done)
}

/// The two completion markers hold no separator and no newline, so the
/// round-trip laws cover every record whose title and description are
/// themselves clean.
pub proof fn lemma_markers_clean()
    ensures
        clean_field("\u{2705}"@),
        clean_field("\u{274c}"@),
{
    reveal_strlit("\u{2705}");
    reveal_strlit("\u{274c}");
    assert("\u{2705}"@.len() == 1);
    assert("\u{274c}"@.len() == 1);
    assert(!"\u{2705}"@.contains(',') && !"\u{2705}"@.contains('\n')) by {
        assert("\u{2705}"@[0] == '\u{2705}');
    }
    assert(!"\u{274c}"@.contains(',') && !"\u{274c}"@.contains('\n')) by {
        assert("\u{274c}"@[0] == '\u{274c}');
    }
}

/// Stripping newlines from a newline-free text changes nothing.
proof fn lemma_strip_clean(s: Seq<char>)
    requires
        !s.contains('\n'),
    ensures
        strip_newlines_spec(s) == s,
    decreases s.len(),
{
    reveal_with_fuel(Seq::filter, 2);
    if s.len() > 0 {
        assert(!s.drop_last().contains('\n')) by {
            assert(forall|i: int|
                0 <= i < s.drop_last().len() ==> s.drop_last()[i] == s[i]);
        }
        lemma_strip_clean(s.drop_last());
        assert(s.contains(s.last())) by {
            assert(s[s.len() - 1] == s.last());
        }
        assert(strip_newlines_spec(s) =~= s);
    } else {
        assert(strip_newlines_spec(s) =~= s);
    }
}

/// The serialised line of a record, without its terminating line break.
pub open spec fn line_body(t: ToDoView) -> Seq<char> {
    strip_newlines_spec(t.title) + seq![','] + strip_newlines_spec(t.description) + seq![',']
        + t.done
}

/// Law: a record whose fields hold no separator and no newline decodes
/// back unchanged from the body of its serialised line.
#[verifier::rlimit(60)]
pub proof fn lemma_serialise_then_deserialise(t: ToDoView)
    requires
        clean_item(t),
    ensures
        line_of(t) == line_body(t).push('\n'),
        parse_line(line_body(t)) == Some(t),
{
    lemma_strip_clean(t.title);
    lemma_strip_clean(t.description);
    assert(line_of(t) =~= line_body(t).push('\n'));

    let s1 = t.title.push(',');
    let s2 = s1 + t.description;
    let s3 = s2.push(',');
    let s4 = s3 + t.done;
    assert(line_body(t) =~= s4);

    lemma_split_on_free(t.title, ',');
    lemma_split_on_push_sep(t.title, ',');
    assert(split_on(s1, ',') == seq![t.title, Seq::<char>::empty()]) by {
        assert(seq![t.title].push(Seq::<char>::empty()) =~= seq![
            t.title,
            Seq::<char>::empty(),
        ]);
    }
    lemma_split_on_add_free(s1, t.description, ',');
    assert(split_on(s2, ',') =~= seq![t.title, t.description]) by {
        assert(Seq::<char>::empty() + t.description =~= t.description);
    }
    lemma_split_on_push_sep(s2, ',');
    assert(split_on(s3, ',') =~= seq![t.title, t.description, Seq::<char>::empty()]);
    lemma_split_on_add_free(s3, t.done, ',');
    assert(split_on(s4, ',') =~= seq![t.title, t.description, t.done]) by {
        assert(Seq::<char>::empty() + t.done =~= t.done);
    }
}

/// The split of an encoded record set on line breaks: one body per
/// record, then the empty tail that the final line break opens.
proof fn lemma_encode_split(ts: Seq<ToDoView>)
    requires
        forall|i: int| 0 <= i < ts.len() ==> clean_item(#[trigger] ts[i]),
    ensures
        split_on(encode_spec(ts), '\n') == ts.map_values(|t: ToDoView| line_body(t)).push(
            Seq::<char>::empty(),
        ),
    decreases ts.len(),
{
    let bodies = ts.map_values(|t: ToDoView| line_body(t));
    if ts.len() == 0 {
        assert(split_on(encode_spec(ts), '\n') =~= bodies.push(Seq::<char>::empty()));
    } else {
        let ts0 = ts.drop_last();
        let t = ts.last();
        lemma_encode_split(ts0);
        lemma_serialise_then_deserialise(t);
        let prev = split_on(encode_spec(ts0), '\n');
        let bodies0 = ts0.map_values(|tt: ToDoView| line_body(tt));
        assert(!line_body(t).contains('\n')) by {
            lemma_strip_clean(t.title);
            lemma_strip_clean(t.description);
            if line_body(t).contains('\n') {
                let k = choose|k: int|
                    0 <= k < line_body(t).len() && line_body(t)[k] == '\n';
                let nt = t.title.len() as int;
                let nd = t.description.len() as int;
                if k < nt {
                    assert(t.title[k] == '\n');
                    assert(t.title.contains('\n'));
                } else if k == nt {
                } else if k < nt + 1 + nd {
                    assert(t.description[k - nt - 1] == '\n');
                    assert(t.description.contains('\n'));
                } else if k == nt + 1 + nd {
                } else {
                    assert(t.done[k - nt - nd - 2] == '\n');
                    assert(t.done.contains('\n'));
                }
            }
        }
        lemma_split_on_add_free(encode_spec(ts0), line_body(t), '\n');
        let mid = prev.update(prev.len() - 1, prev.last() + line_body(t));
        assert(mid =~= bodies0.push(line_body(t))) by {
            assert(prev.last() == Seq::<char>::empty());
            assert(Seq::<char>::empty() + line_body(t) =~= line_body(t));
        }
        lemma_split_on_push_sep(encode_spec(ts0) + line_body(t), '\n');
        assert(encode_spec(ts) =~= (encode_spec(ts0) + line_body(t)).push('\n'));
        assert(split_on(encode_spec(ts), '\n') =~= mid.push(Seq::<char>::empty()));
        assert(bodies =~= bodies0.push(line_body(t)));
    }
}

/// Law: a store content built from the lines of clean records decodes to
/// exactly those records, in order. In particular, after any number of
/// single-record appends the store reads back as the appended records in
/// creation order.
pub proof fn lemma_encode_then_decode(ts: Seq<ToDoView>)
    requires
        forall|i: int| 0 <= i < ts.len() ==> clean_item(#[trigger] ts[i]),
    ensures
        all_lines_parse(content_lines(encode_spec(ts))),
        parsed_lines(content_lines(encode_spec(ts))) == ts,
{
    reveal_with_fuel(Seq::filter, 2);
    let bodies = ts.map_values(|t: ToDoView| line_body(t));
    lemma_encode_split(ts);
    let p = |l: Seq<char>| l.len() > 0;
    Seq::filter_distributes_over_add(bodies, seq![Seq::<char>::empty()], p);
    assert(split_on(encode_spec(ts), '\n') =~= bodies + seq![Seq::<char>::empty()]);
    assert(seq![Seq::<char>::empty()].drop_last() =~= Seq::<Seq<char>>::empty());
    assert(bodies.filter(p) =~= bodies) by {
        assert(forall|i: int| 0 <= i < bodies.len() ==> p(#[trigger] bodies[i])) by {
            assert(forall|i: int| 0 <= i < ts.len() ==> bodies[i] == line_body(
                #[trigger] ts[i],
            ));
        }
        lemma_filter_all(bodies, p);
    }
    assert(content_lines(encode_spec(ts)) =~= bodies);
    assert(forall|i: int|
        0 <= i < ts.len() ==> parse_line(#[trigger] bodies[i]) == Some(ts[i])) by {
        assert(forall|i: int| 0 <= i < ts.len() ==> #[trigger] bodies[i] == line_body(ts[i]));
        assert forall|i: int| 0 <= i < ts.len() implies parse_line(
            #[trigger] bodies[i],
        ) == Some(ts[i]) by {
            lemma_serialise_then_deserialise(ts[i]);
        }
    }
    assert(parsed_lines(bodies) =~= ts);
}

/// A filter that keeps every element changes nothing.
proof fn lemma_filter_all<A>(s: Seq<A>, p: spec_fn(A) -> bool)
    requires
        forall|i: int| 0 <= i < s.len() ==> p(#[trigger] s[i]),
    ensures
        s.filter(p) == s,
    decreases s.len(),
{
    reveal_with_fuel(Seq::filter, 2);
    if s.len() > 0 {
        assert(forall|i: int|
            0 <= i < s.drop_last().len() ==> s.drop_last()[i] == s[i]);
        lemma_filter_all(s.drop_last(), p);
        assert(s[s.len() - 1] == s.last());
        assert(s.filter(p) =~= s);
    } else {
        assert(s.filter(p) =~= s);
    }
}

} // verus!
