use vstd::prelude::*;
use vstd::utf8::{decode_utf8, valid_utf8};
use fallible_iterator::FallibleIterator;
use postgres_protocol::message::backend::ErrorResponseBody;
use crate::codec::utf8_to_string;
use crate::db_error::{parse_fault_text, parse_spec, recognized_code, DbError, field_views, is_recognized_code};
use crate::error::{Error, Kind};
use crate::fault::Fault;

verus! {

#[verifier::external_type_specification]
#[verifier::external_body]
pub struct ExErrorResponseBody(ErrorResponseBody);

/// The ordered `(field code, raw value bytes)` pairs of one error response
/// body, or a failure when the body's field stream is malformed. The stream
/// is a deterministic function of the body's bytes alone.
pub uninterp spec fn body_fields_of(b: ErrorResponseBody) -> Result<Seq<(u8, Seq<u8>)>, ()>;

/// The view of raw field pairs: each value as its byte sequence.
pub open spec fn raw_views(s: Seq<(u8, Vec<u8>)>) -> Seq<(u8, Seq<u8>)> {
    s.map_values(|p: (u8, Vec<u8>)| (p.0, p.1@))
}

/// Relies on postgres_protocol's ErrorResponseBody::fields and its fallible
/// field iterator: hands out, in order, each field's one-byte code and raw
/// value bytes, or the iterator's fault on a malformed stream.
#[verifier::external_body]
fn body_field_pairs(body: &ErrorResponseBody) -> (r: Result<Vec<(u8, Vec<u8>)>, Fault>)
    ensures
        (r matches Ok(v) ==> body_fields_of(*body) matches Ok(p) && raw_views(v@) == p),
        (r is Err ==> body_fields_of(*body) is Err),
{
    let mut it = body.fields();
    let mut out: Vec<(u8, Vec<u8>)> = Vec::new();
    loop {
        match it.next() {
            Ok(Some(f)) => out.push((f.type_(), f.value_bytes().to_vec())),
            Ok(None) => return Ok(out),
            Err(e) => return Err(Fault::new(e.to_string())),
        }
    }
}

/// The subsequence of fields whose codes the parser recognizes.
pub open spec fn recognized_fields(pairs: Seq<(u8, Vec<u8>)>) -> Seq<(u8, Vec<u8>)>
    decreases pairs.len(),
{
    if pairs.len() == 0 {
        Seq::empty()
    } else if recognized_code(pairs.last().0) {
        recognized_fields(pairs.drop_last()).push(pairs.last())
    } else {
        recognized_fields(pairs.drop_last())
    }
}

/// Whether every recognized field's value is valid UTF-8; an unrecognized
/// field's bytes never matter.
pub open spec fn recognized_ok(p: Seq<(u8, Seq<u8>)>) -> bool {
    forall|i: int|
        0 <= i < p.len() && recognized_code((#[trigger] p[i]).0) ==> valid_utf8(p[i].1)
}

/// The recognized fields of a raw field stream, each value decoded as text.
pub open spec fn recognized_texts(p: Seq<(u8, Seq<u8>)>) -> Seq<(u8, Seq<char>)>
    decreases p.len(),
{
    if p.len() == 0 {
        Seq::empty()
    } else if recognized_code(p.last().0) {
        recognized_texts(p.drop_last()).push((p.last().0, decode_utf8(p.last().1)))
    } else {
        recognized_texts(p.drop_last())
    }
}

/// Whether `v` is exactly `pairs` with each raw value decoded as UTF-8 text.
pub open spec fn fields_decoded(pairs: Seq<(u8, Vec<u8>)>, v: Seq<(u8, String)>) -> bool {
    v.len() == pairs.len() && forall|i: int|
        0 <= i < v.len() ==> (#[trigger] v[i]).0 == pairs[i].0 && valid_utf8(pairs[i].1@)
            && v[i].1@ == decode_utf8(pairs[i].1@)
}

/// Decodes the values of the recognized fields as UTF-8 text, keeping their
/// order and dropping unrecognized fields untouched; an invalid value of a
/// recognized field fails the whole message.
pub fn decode_field_text(pairs: &Vec<(u8, Vec<u8>)>) -> (r: Result<Vec<(u8, String)>, Fault>)
    ensures
        match r {
            Ok(v) => fields_decoded(recognized_fields(pairs@), v@),
            Err(_) => exists|i: int|
                0 <= i < pairs@.len() && recognized_code((#[trigger] pairs@[i]).0) && !valid_utf8(
                    pairs@[i].1@,
                ),
        },
{
    let mut out: Vec<(u8, String)> = Vec::new();
    let mut i: usize = 0;
    while i < pairs.len()
        invariant
            0 <= i <= pairs@.len(),
            fields_decoded(recognized_fields(pairs@.subrange(0, i as int)), out@),
        decreases pairs@.len() - i,
    {
        let ghost pre = pairs@.subrange(0, i as int);
        let ghost cur = pairs@.subrange(0, i as int + 1);
        proof {
            assert(cur.drop_last() =~= pre);
            assert(cur.last() == pairs@[i as int]);
        }
        let pair: &(u8, Vec<u8>) = &pairs[i];
        if is_recognized_code(pair.0) {
            match utf8_to_string(pair.1.as_slice()) {
                Some(s) => {
                    let ghost old_out = out@;
                    out.push((pair.0, s));
                    proof {
                        let rf = recognized_fields(cur);
                        assert(rf == recognized_fields(pre).push(pairs@[i as int]));
                        assert forall|k: int| 0 <= k < out@.len() implies (#[trigger] out@[k]).0
                            == rf[k].0 && valid_utf8(rf[k].1@) && out@[k].1@ == decode_utf8(
                            rf[k].1@,
                        ) by {
                            if k < old_out.len() {
                                assert(out@[k] == old_out[k]);
                                assert(rf[k] == recognized_fields(pre)[k]);
                            }
                        }
                    }
                },
                None => {
                    return Err(
                        Fault::new("error field value contained non-UTF8 bytes".to_owned()),
                    );
                },
            }
        } else {
            proof {
                assert(recognized_fields(cur) == recognized_fields(pre));
            }
        }
        i = i + 1;
    }
    proof {
        assert(pairs@.subrange(0, pairs@.len() as int) =~= pairs@);
    }
    Ok(out)
}

/// The decoded texts of a field stream's recognized fields agree with the
/// text view of any decoding of its recognized fields.
proof fn lemma_texts_of_decoded(v: Seq<(u8, Vec<u8>)>, d: Seq<(u8, String)>)
    requires
        fields_decoded(recognized_fields(v), d),
    ensures
        field_views(d) == recognized_texts(raw_views(v)),
    decreases v.len(),
{
    let p = raw_views(v);
    if v.len() == 0 {
        assert(recognized_fields(v) =~= Seq::<(u8, Vec<u8>)>::empty());
        assert(field_views(d) =~= Seq::<(u8, Seq<char>)>::empty());
        assert(p =~= Seq::<(u8, Seq<u8>)>::empty());
        assert(recognized_texts(p) =~= Seq::<(u8, Seq<char>)>::empty());
    } else {
        let v2 = v.drop_last();
        let p2 = raw_views(v2);
        assert(p.drop_last() =~= p2);
        assert(p.last() == (v.last().0, v.last().1@));
        let rf = recognized_fields(v);
        let rf2 = recognized_fields(v2);
        if recognized_code(v.last().0) {
            assert(rf == rf2.push(v.last()));
            let d2 = d.drop_last();
            assert forall|k: int| 0 <= k < d2.len() implies (#[trigger] d2[k]).0 == rf2[k].0
                && valid_utf8(rf2[k].1@) && d2[k].1@ == decode_utf8(rf2[k].1@) by {
                assert(d2[k] == d[k]);
                assert(rf2[k] == rf[k]);
            }
            lemma_texts_of_decoded(v2, d2);
            assert(d.last().0 == rf[d.len() - 1].0 && d.last().1@ == decode_utf8(
                rf[d.len() - 1].1@,
            ));
            assert(recognized_texts(p) == recognized_texts(p2).push(
                (p.last().0, decode_utf8(p.last().1)),
            ));
            assert(field_views(d) =~= field_views(d2).push((d.last().0, d.last().1@)));
            assert(field_views(d) =~= recognized_texts(p));
        } else {
            assert(rf == rf2);
            lemma_texts_of_decoded(v2, d);
            assert(recognized_texts(p) == recognized_texts(p2));
        }
    }
}

impl Error {
    /// Parses a server error response body. When the body's field stream is
    /// well formed, every recognized field's value is UTF-8, and the fields
    /// parse, the result wraps the server-reported record; any other body
    /// yields a response-parse failure, a field-parsing fault keeping its
    /// stable description.
    pub fn db(body: &ErrorResponseBody) -> (r: Error)
        ensures
            match body_fields_of(*body) {
                Err(_) => r.spec_kind() is Parse,
                Ok(p) => if !recognized_ok(p) {
                    r.spec_kind() is Parse
                } else {
                    match parse_spec(recognized_texts(p)) {
                        Ok(m) => r.spec_kind() matches Kind::Db(d) && (*d)@ == m,
                        Err(f) => r.spec_kind() matches Kind::Parse(ft) && ft.spec_text()
                            == parse_fault_text(f),
                    }
                },
            },
    {
        match body_field_pairs(body) {
            Err(f) => Error::parse(f),
            Ok(pairs) => {
                let ghost p = body_fields_of(*body)->Ok_0;
                match decode_field_text(&pairs) {
                    Err(f) => {
                        proof {
                            let i = choose|i: int|
                                0 <= i < pairs@.len() && recognized_code(
                                    (#[trigger] pairs@[i]).0,
                                ) && !valid_utf8(pairs@[i].1@);
                            assert(p[i] == (pairs@[i].0, pairs@[i].1@));
                            assert(!recognized_ok(p));
                        }
                        Error::parse(f)
                    },
                    Ok(fields) => {
                        proof {
                            lemma_texts_of_decoded(pairs@, fields@);
                            assert forall|i: int|
                                0 <= i < p.len() && recognized_code(
                                    (#[trigger] p[i]).0,
                                ) implies valid_utf8(p[i].1) by {
                                assert(p[i] == (pairs@[i].0, pairs@[i].1@));
                                if !valid_utf8(pairs@[i].1@) {
                                    lemma_recognized_still_present(pairs@, i);
                                    let k = choose|k: int|
                                        0 <= k < recognized_fields(pairs@).len() && !valid_utf8(
                                            (#[trigger] recognized_fields(pairs@)[k]).1@,
                                        );
                                    assert((#[trigger] fields@[k]).0 == recognized_fields(
                                        pairs@,
                                    )[k].0);
                                }
                            }
                        }
                        match DbError::parse(&fields) {
                            Ok(db) => Error::db_record(db),
                            Err(pf) => Error::parse(Fault::new(pf.message())),
                        }
                    },
                }
            },
        }
    }
}

/// A recognized field with an invalid value would stand among the recognized
/// fields, whose values a successful decoding shows valid.
proof fn lemma_recognized_still_present(v: Seq<(u8, Vec<u8>)>, i: int)
    requires
        0 <= i < v.len(),
        recognized_code(v[i].0),
        !valid_utf8(v[i].1@),
    ensures
        exists|k: int|
            0 <= k < recognized_fields(v).len() && !valid_utf8(
                (#[trigger] recognized_fields(v)[k]).1@,
            ),
    decreases v.len(),
{
    let rf = recognized_fields(v);
    if i == v.len() - 1 {
        assert(rf == recognized_fields(v.drop_last()).push(v.last()));
        assert(rf[rf.len() - 1] == v[i]);
        assert(!valid_utf8(rf[rf.len() - 1].1@));
    } else {
        let v2 = v.drop_last();
        assert(v2[i] == v[i]);
        lemma_recognized_still_present(v2, i);
        let k = choose|k: int|
            0 <= k < recognized_fields(v2).len() && !valid_utf8(
                (#[trigger] recognized_fields(v2)[k]).1@,
            );
        if recognized_code(v.last().0) {
            assert(rf == recognized_fields(v2).push(v.last()));
            assert(rf[k] == recognized_fields(v2)[k]);
        } else {
            assert(rf == recognized_fields(v2));
        }
        assert(!valid_utf8(rf[k].1@));
    }
}

} // verus!
