//! Sink serialization: one record as one JSON object, a disk batch as
//! newline-delimited objects in buffer order, a UDP batch as one JSON array
//! in buffer order.  Metadata strings are escaped; absent fields are emitted
//! as explicit `null`s; payload bytes are spliced in as the JSON text they
//! already are.

use vstd::prelude::*;

use crate::assembler::records_view;
use crate::metric::{opt_bytes_view, opt_string_view, ProcessedMetric, RecordModel};
use vstd::utf8::encode_utf8;

verus! {

/// The byte standing for hex digit `n`, lower case.
pub open spec fn hex_digit(n: u8) -> u8 {
    if n < 10 {
        (n + 48) as u8
    } else {
        (n + 87) as u8
    }
}

/// How one byte of a string appears inside a JSON string literal: the quote
/// and the backslash get a backslash escape, the named control characters get
/// their short escapes, other control bytes a `\u00XX` escape, and every
/// other byte stands as itself.
pub open spec fn escape_byte(b: u8) -> Seq<u8> {
    if b == 34 {
        seq![92u8, 34u8]
    } else if b == 92 {
        seq![92u8, 92u8]
    } else if b == 8 {
        seq![92u8, 98u8]
    } else if b == 9 {
        seq![92u8, 116u8]
    } else if b == 10 {
        seq![92u8, 110u8]
    } else if b == 12 {
        seq![92u8, 102u8]
    } else if b == 13 {
        seq![92u8, 114u8]
    } else if b < 32 {
        seq![92u8, 117u8, 48u8, 48u8, hex_digit(b / 16), hex_digit(b % 16)]
    } else {
        seq![b]
    }
}

/// A whole byte sequence escaped for a JSON string literal, in order.
pub open spec fn escape_bytes(s: Seq<u8>) -> Seq<u8>
    decreases s.len(),
{
    if s.len() == 0 {
        Seq::empty()
    } else {
        escape_bytes(s.drop_last()) + escape_byte(s.last())
    }
}

pub open spec fn null_bytes() -> Seq<u8> {
    seq![110u8, 117u8, 108u8, 108u8]
}

/// An optional metadata string as JSON: a quoted escaped string, or `null`.
pub open spec fn json_opt_string(o: Option<Seq<char>>) -> Seq<u8> {
    match o {
        Some(cs) => seq![34u8] + escape_bytes(encode_utf8(cs)) + seq![34u8],
        None => null_bytes(),
    }
}

/// An optional raw JSON payload: its own bytes, or `null`.
pub open spec fn json_opt_raw(o: Option<Seq<u8>>) -> Seq<u8> {
    match o {
        Some(bs) => bs,
        None => null_bytes(),
    }
}

pub open spec fn key_time() -> Seq<u8> {
    seq![123u8, 34u8, 116u8, 105u8, 109u8, 101u8, 34u8, 58u8]
}

pub open spec fn key_host() -> Seq<u8> {
    seq![44u8, 34u8, 104u8, 111u8, 115u8, 116u8, 34u8, 58u8]
}

pub open spec fn key_plugin() -> Seq<u8> {
    seq![44u8, 34u8, 112u8, 108u8, 117u8, 103u8, 105u8, 110u8, 34u8, 58u8]
}

pub open spec fn key_plugin_instance() -> Seq<u8> {
    seq![
        44u8,
        34u8,
        112u8,
        108u8,
        117u8,
        103u8,
        105u8,
        110u8,
        95u8,
        105u8,
        110u8,
        115u8,
        116u8,
        97u8,
        110u8,
        99u8,
        101u8,
        34u8,
        58u8,
    ]
}

pub open spec fn key_type() -> Seq<u8> {
    seq![44u8, 34u8, 116u8, 121u8, 112u8, 101u8, 34u8, 58u8]
}

pub open spec fn key_type_instance() -> Seq<u8> {
    seq![
        44u8,
        34u8,
        116u8,
        121u8,
        112u8,
        101u8,
        95u8,
        105u8,
        110u8,
        115u8,
        116u8,
        97u8,
        110u8,
        99u8,
        101u8,
        34u8,
        58u8,
    ]
}

pub open spec fn key_value() -> Seq<u8> {
    seq![44u8, 34u8, 118u8, 97u8, 108u8, 117u8, 101u8, 34u8, 58u8]
}

/// One record as one JSON object: every field present, absent metadata as
/// explicit `null`, the payload value spliced in as raw JSON text.
pub open spec fn record_json_spec(r: RecordModel) -> Seq<u8> {
    key_time() + json_opt_raw(r.time) + key_host() + json_opt_string(r.host) + key_plugin()
        + json_opt_string(r.plugin) + key_plugin_instance() + json_opt_string(r.plugin_instance)
        + key_type() + json_opt_string(r.type_) + key_type_instance() + json_opt_string(
        r.type_instance,
    ) + key_value() + r.value + seq![125u8]
}

/// A disk batch: each record's JSON object followed by one newline, in
/// buffer order.
pub open spec fn disk_batch_spec(batch: Seq<RecordModel>) -> Seq<u8>
    decreases batch.len(),
{
    if batch.len() == 0 {
        Seq::empty()
    } else {
        disk_batch_spec(batch.drop_last()) + record_json_spec(batch.last()) + seq![10u8]
    }
}

/// The comma-separated items of a JSON array of records, in buffer order.
pub open spec fn batch_items_spec(batch: Seq<RecordModel>) -> Seq<u8>
    decreases batch.len(),
{
    if batch.len() == 0 {
        Seq::empty()
    } else if batch.len() == 1 {
        record_json_spec(batch[0])
    } else {
        batch_items_spec(batch.drop_last()) + seq![44u8] + record_json_spec(batch.last())
    }
}

/// A UDP batch: one JSON array holding each record's object, in buffer order.
pub open spec fn udp_batch_spec(batch: Seq<RecordModel>) -> Seq<u8> {
    seq![91u8] + batch_items_spec(batch) + seq![93u8]
}

fn hex_digit_byte(n: u8) -> (r: u8)
    requires
        n < 16,
    ensures
        r == hex_digit(n),
{
    if n < 10 {
        n + 48
    } else {
        n + 87
    }
}

/// Appends every byte of `v` to `out`.
fn append_bytes(out: &mut Vec<u8>, v: &[u8])
    ensures
        final(out)@ == old(out)@ + v@,
{
    let n: usize = v.len();
    for i in 0..n
        invariant
            n == v@.len(),
            out@ == old(out)@ + v@.take(i as int),
    {
        out.push(v[i]);
        proof {
            assert(out@ =~= old(out)@ + v@.take(i as int + 1));
        }
    }
    proof {
        assert(old(out)@ + v@.take(n as int) =~= old(out)@ + v@);
    }
}

/// Appends `s` escaped for the inside of a JSON string literal.
fn append_escaped(out: &mut Vec<u8>, s: &[u8])
    ensures
        final(out)@ == old(out)@ + escape_bytes(s@),
{
    let n: usize = s.len();
    for i in 0..n
        invariant
            n == s@.len(),
            out@ == old(out)@ + escape_bytes(s@.take(i as int)),
    {
        let b: u8 = s[i];
        if b == 34 {
            out.push(92);
            out.push(34);
        } else if b == 92 {
            out.push(92);
            out.push(92);
        } else if b == 8 {
            out.push(92);
            out.push(98);
        } else if b == 9 {
            out.push(92);
            out.push(116);
        } else if b == 10 {
            out.push(92);
            out.push(110);
        } else if b == 12 {
            out.push(92);
            out.push(102);
        } else if b == 13 {
            out.push(92);
            out.push(114);
        } else if b < 32 {
            out.push(92);
            out.push(117);
            out.push(48);
            out.push(48);
            out.push(hex_digit_byte(b / 16));
            out.push(hex_digit_byte(b % 16));
        } else {
            out.push(b);
        }
        proof {
            assert(s@.take(i as int + 1).drop_last() =~= s@.take(i as int));
            assert(s@.take(i as int + 1).last() == s@[i as int]);
            assert(out@ =~= old(out)@ + escape_bytes(s@.take(i as int + 1)));
        }
    }
    proof {
        assert(s@.take(n as int) =~= s@);
    }
}

/// Appends an optional metadata string as JSON: quoted and escaped, or `null`.
fn append_json_opt_string(out: &mut Vec<u8>, o: &Option<String>)
    ensures
        final(out)@ == old(out)@ + json_opt_string(opt_string_view(*o)),
{
    match o {
        Some(s) => {
            out.push(34);
            append_escaped(out, s.as_str().as_bytes());
            out.push(34);
            proof {
                assert(out@ =~= old(out)@ + json_opt_string(opt_string_view(*o)));
            }
        },
        None => {
            out.push(110);
            out.push(117);
            out.push(108);
            out.push(108);
            proof {
                assert(out@ =~= old(out)@ + null_bytes());
            }
        },
    }
}

/// Appends an optional raw JSON payload: its own bytes, or `null`.
fn append_json_opt_raw(out: &mut Vec<u8>, o: &Option<Vec<u8>>)
    ensures
        final(out)@ == old(out)@ + json_opt_raw(opt_bytes_view(*o)),
{
    match o {
        Some(v) => {
            append_bytes(out, v.as_slice());
        },
        None => {
            out.push(110);
            out.push(117);
            out.push(108);
            out.push(108);
            proof {
                assert(out@ =~= old(out)@ + null_bytes());
            }
        },
    }
}

fn append_key_time(out: &mut Vec<u8>)
    ensures
        final(out)@ == old(out)@ + key_time(),
{
    out.push(123);
    out.push(34);
    out.push(116);
    out.push(105);
    out.push(109);
    out.push(101);
    out.push(34);
    out.push(58);
    proof {
        assert(out@ =~= old(out)@ + key_time());
    }
}

fn append_key_host(out: &mut Vec<u8>)
    ensures
        final(out)@ == old(out)@ + key_host(),
{
    out.push(44);
    out.push(34);
    out.push(104);
    out.push(111);
    out.push(115);
    out.push(116);
    out.push(34);
    out.push(58);
    proof {
        assert(out@ =~= old(out)@ + key_host());
    }
}

fn append_key_plugin(out: &mut Vec<u8>)
    ensures
        final(out)@ == old(out)@ + key_plugin(),
{
    out.push(44);
    out.push(34);
    out.push(112);
    out.push(108);
    out.push(117);
    out.push(103);
    out.push(105);
    out.push(110);
    out.push(34);
    out.push(58);
    proof {
        assert(out@ =~= old(out)@ + key_plugin());
    }
}

fn append_key_plugin_instance(out: &mut Vec<u8>)
    ensures
        final(out)@ == old(out)@ + key_plugin_instance(),
{
    out.push(44);
    out.push(34);
    out.push(112);
    out.push(108);
    out.push(117);
    out.push(103);
    out.push(105);
    out.push(110);
    out.push(95);
    out.push(105);
    out.push(110);
    out.push(115);
    out.push(116);
    out.push(97);
    out.push(110);
    out.push(99);
    out.push(101);
    out.push(34);
    out.push(58);
    proof {
        assert(out@ =~= old(out)@ + key_plugin_instance());
    }
}

fn append_key_type(out: &mut Vec<u8>)
    ensures
        final(out)@ == old(out)@ + key_type(),
{
    out.push(44);
    out.push(34);
    out.push(116);
    out.push(121);
    out.push(112);
    out.push(101);
    out.push(34);
    out.push(58);
    proof {
        assert(out@ =~= old(out)@ + key_type());
    }
}

fn append_key_type_instance(out: &mut Vec<u8>)
    ensures
        final(out)@ == old(out)@ + key_type_instance(),
{
    out.push(44);
    out.push(34);
    out.push(116);
    out.push(121);
    out.push(112);
    out.push(101);
    out.push(95);
    out.push(105);
    out.push(110);
    out.push(115);
    out.push(116);
    out.push(97);
    out.push(110);
    out.push(99);
    out.push(101);
    out.push(34);
    out.push(58);
    proof {
        assert(out@ =~= old(out)@ + key_type_instance());
    }
}

fn append_key_value(out: &mut Vec<u8>)
    ensures
        final(out)@ == old(out)@ + key_value(),
{
    out.push(44);
    out.push(34);
    out.push(118);
    out.push(97);
    out.push(108);
    out.push(117);
    out.push(101);
    out.push(34);
    out.push(58);
    proof {
        assert(out@ =~= old(out)@ + key_value());
    }
}

/// Serializes one record as one JSON object with every field present.
pub fn record_json(rec: &ProcessedMetric) -> (out: Vec<u8>)
    ensures
        out@ == record_json_spec(rec@),
{
    let mut out: Vec<u8> = Vec::new();
    append_key_time(&mut out);
    append_json_opt_raw(&mut out, &rec.time);
    append_key_host(&mut out);
    append_json_opt_string(&mut out, &rec.host);
    append_key_plugin(&mut out);
    append_json_opt_string(&mut out, &rec.plugin);
    append_key_plugin_instance(&mut out);
    append_json_opt_string(&mut out, &rec.plugin_instance);
    append_key_type(&mut out);
    append_json_opt_string(&mut out, &rec.type_);
    append_key_type_instance(&mut out);
    append_json_opt_string(&mut out, &rec.type_instance);
    append_key_value(&mut out);
    append_bytes(&mut out, rec.value.as_slice());
    out.push(125);
    proof {
        assert(out@ == record_json_spec(rec@));
    }
    out
}

/// Serializes a whole disk batch: one JSON object per record, each followed
/// by one newline, in buffer order.
pub fn disk_batch_bytes(batch: &Vec<ProcessedMetric>) -> (out: Vec<u8>)
    ensures
        out@ == disk_batch_spec(records_view(batch@)),
{
    let mut out: Vec<u8> = Vec::new();
    let n: usize = batch.len();
    for i in 0..n
        invariant
            n == batch@.len(),
            out@ == disk_batch_spec(records_view(batch@).take(i as int)),
    {
        let line = record_json(&batch[i]);
        append_bytes(&mut out, line.as_slice());
        out.push(10);
        proof {
            let rv = records_view(batch@);
            assert(rv.take(i as int + 1).drop_last() =~= rv.take(i as int));
            assert(rv.take(i as int + 1).last() == rv[i as int]);
            assert(out@ =~= disk_batch_spec(rv.take(i as int + 1)));
        }
    }
    proof {
        assert(records_view(batch@).take(n as int) =~= records_view(batch@));
    }
    out
}

/// Serializes a whole UDP batch: one JSON array holding each record's
/// object, in buffer order; one flush becomes one datagram payload.
pub fn udp_batch_bytes(batch: &Vec<ProcessedMetric>) -> (out: Vec<u8>)
    ensures
        out@ == udp_batch_spec(records_view(batch@)),
{
    let mut out: Vec<u8> = Vec::new();
    out.push(91);
    let n: usize = batch.len();
    for i in 0..n
        invariant
            n == batch@.len(),
            out@ == seq![91u8] + batch_items_spec(records_view(batch@).take(i as int)),
    {
        if i > 0 {
            out.push(44);
        }
        let item = record_json(&batch[i]);
        append_bytes(&mut out, item.as_slice());
        proof {
            let rv = records_view(batch@);
            assert(rv.take(i as int + 1).drop_last() =~= rv.take(i as int));
            assert(rv.take(i as int + 1).last() == rv[i as int]);
            if i == 0 {
                assert(rv.take(1)[0] == rv[0]);
            }
            assert(out@ =~= seq![91u8] + batch_items_spec(rv.take(i as int + 1)));
        }
    }
    out.push(93);
    proof {
        assert(records_view(batch@).take(n as int) =~= records_view(batch@));
        assert(out@ =~= udp_batch_spec(records_view(batch@)));
    }
    out
}

} // verus!
